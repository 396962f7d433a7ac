use vstd::prelude::*;

use crate::json::{JsonNum, NumModel};

verus! {

/// Whether a title is a movie or a show. On the wire the variants are the
/// lowercase words "movie" and "show"; anything else is rejected.
#[derive(Debug, Clone, Copy, PartialEq, Eq, Structural)]
pub enum TitleType {
    Movie,
    Show,
}

/// The wire word of a title type.
pub open spec fn spec_title_type_wire(t: TitleType) -> Seq<char> {
    match t {
        TitleType::Movie => "movie"@,
        TitleType::Show => "show"@,
    }
}

/// The title type a wire word decodes to, if any.
pub open spec fn spec_title_type_of(s: Seq<char>) -> Option<TitleType> {
    if s == "movie"@ {
        Some(TitleType::Movie)
    } else if s == "show"@ {
        Some(TitleType::Show)
    } else {
        None
    }
}

pub fn title_type_from_wire(s: &str) -> (r: Option<TitleType>)
    ensures
        r == spec_title_type_of(s@),
{
    if crate::json::str_eq(s, "movie") {
        Some(TitleType::Movie)
    } else if crate::json::str_eq(s, "show") {
        Some(TitleType::Show)
    } else {
        None
    }
}

pub fn title_type_wire(t: TitleType) -> (r: String)
    ensures
        r@ == spec_title_type_wire(t),
{
    match t {
        TitleType::Movie => String::from_str("movie"),
        TitleType::Show => String::from_str("show"),
    }
}

/// The closed set of score providers, each named on the wire by an alias of
/// the form "source:measure", distinct from the variant's own name.
#[derive(Debug, Clone, Copy, PartialEq, Eq, Structural)]
pub enum ScoreType {
    ImdbScore,
    ImdbPopularity,
    ImdbVotes,
    ImdbMultiplied,
    TomatoID,
    TomatoScore,
    TomatoRating,
    TomatoMeter,
    TomatoUserScore,
    TomatoUserRating,
    TomatoUserMeter,
    TmdbID,
    TmdbScore,
    TmdbPopularity,
}

/// The wire alias of a score type.
pub open spec fn spec_score_type_wire(t: ScoreType) -> Seq<char> {
    match t {
        ScoreType::ImdbScore => "imdb:score"@,
        ScoreType::ImdbPopularity => "imdb:popularity"@,
        ScoreType::ImdbVotes => "imdb:votes"@,
        ScoreType::ImdbMultiplied => "imdb:multiplied"@,
        ScoreType::TomatoID => "tomato:id"@,
        ScoreType::TomatoScore => "tomato:score"@,
        ScoreType::TomatoRating => "tomato:rating"@,
        ScoreType::TomatoMeter => "tomato:meter"@,
        ScoreType::TomatoUserScore => "tomato_userrating:score"@,
        ScoreType::TomatoUserRating => "tomato_userrating:rating"@,
        ScoreType::TomatoUserMeter => "tomato_userrating:meter"@,
        ScoreType::TmdbID => "tmdb:id"@,
        ScoreType::TmdbScore => "tmdb:score"@,
        ScoreType::TmdbPopularity => "tmdb:popularity"@,
    }
}

/// The score type a wire alias decodes to; an unrecognised alias decodes to nothing.
pub open spec fn spec_score_type_of(s: Seq<char>) -> Option<ScoreType> {
    if s == "imdb:score"@ {
        Some(ScoreType::ImdbScore)
    } else if s == "imdb:popularity"@ {
        Some(ScoreType::ImdbPopularity)
    } else if s == "imdb:votes"@ {
        Some(ScoreType::ImdbVotes)
    } else if s == "imdb:multiplied"@ {
        Some(ScoreType::ImdbMultiplied)
    } else if s == "tomato:id"@ {
        Some(ScoreType::TomatoID)
    } else if s == "tomato:score"@ {
        Some(ScoreType::TomatoScore)
    } else if s == "tomato:rating"@ {
        Some(ScoreType::TomatoRating)
    } else if s == "tomato:meter"@ {
        Some(ScoreType::TomatoMeter)
    } else if s == "tomato_userrating:score"@ {
        Some(ScoreType::TomatoUserScore)
    } else if s == "tomato_userrating:rating"@ {
        Some(ScoreType::TomatoUserRating)
    } else if s == "tomato_userrating:meter"@ {
        Some(ScoreType::TomatoUserMeter)
    } else if s == "tmdb:id"@ {
        Some(ScoreType::TmdbID)
    } else if s == "tmdb:score"@ {
        Some(ScoreType::TmdbScore)
    } else if s == "tmdb:popularity"@ {
        Some(ScoreType::TmdbPopularity)
    } else {
        None
    }
}

pub fn score_type_from_wire(s: &str) -> (r: Option<ScoreType>)
    ensures
        r == spec_score_type_of(s@),
{
    if crate::json::str_eq(s, "imdb:score") {
        Some(ScoreType::ImdbScore)
    } else if crate::json::str_eq(s, "imdb:popularity") {
        Some(ScoreType::ImdbPopularity)
    } else if crate::json::str_eq(s, "imdb:votes") {
        Some(ScoreType::ImdbVotes)
    } else if crate::json::str_eq(s, "imdb:multiplied") {
        Some(ScoreType::ImdbMultiplied)
    } else if crate::json::str_eq(s, "tomato:id") {
        Some(ScoreType::TomatoID)
    } else if crate::json::str_eq(s, "tomato:score") {
        Some(ScoreType::TomatoScore)
    } else if crate::json::str_eq(s, "tomato:rating") {
        Some(ScoreType::TomatoRating)
    } else if crate::json::str_eq(s, "tomato:meter") {
        Some(ScoreType::TomatoMeter)
    } else if crate::json::str_eq(s, "tomato_userrating:score") {
        Some(ScoreType::TomatoUserScore)
    } else if crate::json::str_eq(s, "tomato_userrating:rating") {
        Some(ScoreType::TomatoUserRating)
    } else if crate::json::str_eq(s, "tomato_userrating:meter") {
        Some(ScoreType::TomatoUserMeter)
    } else if crate::json::str_eq(s, "tmdb:id") {
        Some(ScoreType::TmdbID)
    } else if crate::json::str_eq(s, "tmdb:score") {
        Some(ScoreType::TmdbScore)
    } else if crate::json::str_eq(s, "tmdb:popularity") {
        Some(ScoreType::TmdbPopularity)
    } else {
        None
    }
}

pub fn score_type_wire(t: ScoreType) -> (r: String)
    ensures
        r@ == spec_score_type_wire(t),
{
    match t {
        ScoreType::ImdbScore => String::from_str("imdb:score"),
        ScoreType::ImdbPopularity => String::from_str("imdb:popularity"),
        ScoreType::ImdbVotes => String::from_str("imdb:votes"),
        ScoreType::ImdbMultiplied => String::from_str("imdb:multiplied"),
        ScoreType::TomatoID => String::from_str("tomato:id"),
        ScoreType::TomatoScore => String::from_str("tomato:score"),
        ScoreType::TomatoRating => String::from_str("tomato:rating"),
        ScoreType::TomatoMeter => String::from_str("tomato:meter"),
        ScoreType::TomatoUserScore => String::from_str("tomato_userrating:score"),
        ScoreType::TomatoUserRating => String::from_str("tomato_userrating:rating"),
        ScoreType::TomatoUserMeter => String::from_str("tomato_userrating:meter"),
        ScoreType::TmdbID => String::from_str("tmdb:id"),
        ScoreType::TmdbScore => String::from_str("tmdb:score"),
        ScoreType::TmdbPopularity => String::from_str("tmdb:popularity"),
    }
}

/// Decoding the alias a score type encodes to gives that score type back:
/// the alias table is one to one.
pub proof fn lemma_score_type_wire_round_trip()
    ensures
        forall|t: ScoreType| #[trigger] spec_score_type_of(spec_score_type_wire(t)) == Some(t),
        forall|t: TitleType| #[trigger] spec_title_type_of(spec_title_type_wire(t)) == Some(t),
{
    reveal_strlit("imdb:score");
    reveal_strlit("imdb:popularity");
    reveal_strlit("imdb:votes");
    reveal_strlit("imdb:multiplied");
    reveal_strlit("tomato:id");
    reveal_strlit("tomato:score");
    reveal_strlit("tomato:rating");
    reveal_strlit("tomato:meter");
    reveal_strlit("tomato_userrating:score");
    reveal_strlit("tomato_userrating:rating");
    reveal_strlit("tomato_userrating:meter");
    reveal_strlit("tmdb:id");
    reveal_strlit("tmdb:score");
    reveal_strlit("tmdb:popularity");
    reveal_strlit("movie");
    reveal_strlit("show");
    assert forall|t: ScoreType| #[trigger] spec_score_type_of(spec_score_type_wire(t)) == Some(
        t,
    ) by {
        reveal_strlit("imdb:score");
        reveal_strlit("imdb:popularity");
        reveal_strlit("imdb:votes");
        reveal_strlit("imdb:multiplied");
        reveal_strlit("tomato:id");
        reveal_strlit("tomato:score");
        reveal_strlit("tomato:rating");
        reveal_strlit("tomato:meter");
        reveal_strlit("tomato_userrating:score");
        reveal_strlit("tomato_userrating:rating");
        reveal_strlit("tomato_userrating:meter");
        reveal_strlit("tmdb:id");
        reveal_strlit("tmdb:score");
        reveal_strlit("tmdb:popularity");
        assert("imdb:score"@.len() == 10);
        assert("imdb:popularity"@.len() == 15);
        assert("imdb:votes"@.len() == 10);
        assert("imdb:multiplied"@.len() == 15);
        assert("tomato:id"@.len() == 9);
        assert("tomato:score"@.len() == 12);
        assert("tomato:rating"@.len() == 13);
        assert("tomato:meter"@.len() == 12);
        assert("tomato_userrating:score"@.len() == 23);
        assert("tomato_userrating:rating"@.len() == 24);
        assert("tomato_userrating:meter"@.len() == 23);
        assert("tmdb:id"@.len() == 7);
        assert("tmdb:score"@.len() == 10);
        assert("tmdb:popularity"@.len() == 15);
        assert("imdb:score"@[0] == 'i');
        assert("imdb:votes"@[0] == 'i');
        assert("imdb:popularity"@[0] == 'i');
        assert("imdb:multiplied"@[0] == 'i');
        assert("tmdb:score"@[0] == 't');
        assert("tmdb:popularity"@[0] == 't');
        assert("imdb:score"@[5] == 's');
        assert("imdb:votes"@[5] == 'v');
        assert("imdb:popularity"@[5] == 'p');
        assert("imdb:multiplied"@[5] == 'm');
        assert("tomato:score"@[7] == 's');
        assert("tomato:meter"@[7] == 'm');
        assert("tomato_userrating:score"@[18] == 's');
        assert("tomato_userrating:meter"@[18] == 'm');
        match t {
            ScoreType::ImdbScore => assert(spec_score_type_of("imdb:score"@) == Some(t)),
            ScoreType::ImdbPopularity => assert(spec_score_type_of("imdb:popularity"@) == Some(t)),
            ScoreType::ImdbVotes => assert(spec_score_type_of("imdb:votes"@) == Some(t)),
            ScoreType::ImdbMultiplied => assert(spec_score_type_of("imdb:multiplied"@) == Some(t)),
            ScoreType::TomatoID => assert(spec_score_type_of("tomato:id"@) == Some(t)),
            ScoreType::TomatoScore => assert(spec_score_type_of("tomato:score"@) == Some(t)),
            ScoreType::TomatoRating => assert(spec_score_type_of("tomato:rating"@) == Some(t)),
            ScoreType::TomatoMeter => assert(spec_score_type_of("tomato:meter"@) == Some(t)),
            ScoreType::TomatoUserScore => assert(spec_score_type_of("tomato_userrating:score"@)
                == Some(t)),
            ScoreType::TomatoUserRating => assert(spec_score_type_of("tomato_userrating:rating"@)
                == Some(t)),
            ScoreType::TomatoUserMeter => assert(spec_score_type_of("tomato_userrating:meter"@)
                == Some(t)),
            ScoreType::TmdbID => assert(spec_score_type_of("tmdb:id"@) == Some(t)),
            ScoreType::TmdbScore => assert(spec_score_type_of("tmdb:score"@) == Some(t)),
            ScoreType::TmdbPopularity => assert(spec_score_type_of("tmdb:popularity"@) == Some(t)),
        }
    }
    assert forall|t: TitleType| #[trigger] spec_title_type_of(spec_title_type_wire(t)) == Some(
        t,
    ) by {
        reveal_strlit("movie");
        reveal_strlit("show");
        assert("movie"@.len() == 5);
        assert("show"@.len() == 4);
        match t {
            TitleType::Movie => assert(spec_title_type_of("movie"@) == Some(t)),
            TitleType::Show => assert(spec_title_type_of("show"@) == Some(t)),
        }
    }
}

/// A rating or popularity figure from one of the score providers.
#[derive(Debug, PartialEq)]
pub struct Score {
    pub provider_type: ScoreType,
    pub value: JsonNum,
}

pub struct ScoreModel {
    pub provider_type: ScoreType,
    pub value: NumModel,
}

impl View for Score {
    type V = ScoreModel;

    open spec fn view(&self) -> ScoreModel {
        ScoreModel { provider_type: self.provider_type, value: self.value@ }
    }
}

impl DeepView for Score {
    type V = ScoreModel;

    open spec fn deep_view(&self) -> ScoreModel {
        self.view()
    }
}

/// Where an offer can be opened: the web link is mandatory, the deep links
/// into the mobile and television apps are not.
#[derive(Debug, PartialEq)]
pub struct OfferUrls {
    pub standard_web: String,
    pub deeplink_ios: Option<String>,
    pub deeplink_android: Option<String>,
    pub deeplink_android_tv: Option<String>,
}

pub struct OfferUrlsModel {
    pub standard_web: Seq<char>,
    pub deeplink_ios: Option<Seq<char>>,
    pub deeplink_android: Option<Seq<char>>,
    pub deeplink_android_tv: Option<Seq<char>>,
}

impl View for OfferUrls {
    type V = OfferUrlsModel;

    open spec fn view(&self) -> OfferUrlsModel {
        OfferUrlsModel {
            standard_web: self.standard_web@,
            deeplink_ios: self.deeplink_ios.deep_view(),
            deeplink_android: self.deeplink_android.deep_view(),
            deeplink_android_tv: self.deeplink_android_tv.deep_view(),
        }
    }
}

impl DeepView for OfferUrls {
    type V = OfferUrlsModel;

    open spec fn deep_view(&self) -> OfferUrlsModel {
        self.view()
    }
}

/// One way of watching a title on one provider.
#[derive(Debug, PartialEq)]
pub struct Offer {
    pub monetization_type: String,
    pub provider_id: u64,
    pub retail_price: Option<JsonNum>,
    pub currency: Option<String>,
    pub urls: OfferUrls,
    pub presentation_type: String,
    pub date_created_provider_id: String,
    pub date_created: String,
    pub country: String,
}

pub struct OfferModel {
    pub monetization_type: Seq<char>,
    pub provider_id: u64,
    pub retail_price: Option<NumModel>,
    pub currency: Option<Seq<char>>,
    pub urls: OfferUrlsModel,
    pub presentation_type: Seq<char>,
    pub date_created_provider_id: Seq<char>,
    pub date_created: Seq<char>,
    pub country: Seq<char>,
}

impl View for Offer {
    type V = OfferModel;

    open spec fn view(&self) -> OfferModel {
        OfferModel {
            monetization_type: self.monetization_type@,
            provider_id: self.provider_id,
            retail_price: self.retail_price.deep_view(),
            currency: self.currency.deep_view(),
            urls: self.urls@,
            presentation_type: self.presentation_type@,
            date_created_provider_id: self.date_created_provider_id@,
            date_created: self.date_created@,
            country: self.country@,
        }
    }
}

impl DeepView for Offer {
    type V = OfferModel;

    open spec fn deep_view(&self) -> OfferModel {
        self.view()
    }
}

/// A movie or show, as the search endpoint returns it.
#[derive(Debug, PartialEq)]
pub struct Movie {
    pub id: u64,
    pub title: String,
    pub full_path: String,
    pub poster: Option<String>,
    pub short_description: Option<String>,
    pub original_release_year: Option<u64>,
    pub tmdb_popularity: JsonNum,
    pub object_type: TitleType,
    pub original_title: String,
    pub localized_release_date: Option<String>,
    pub offers: Option<Vec<Offer>>,
    pub scoring: Vec<Score>,
    pub original_language: Option<String>,
    pub age_certification: Option<String>,
    pub runtime: Option<u64>,
    pub cinema_release_date: Option<String>,
    pub cinema_release_week: Option<String>,
}

pub struct MovieModel {
    pub id: u64,
    pub title: Seq<char>,
    pub full_path: Seq<char>,
    pub poster: Option<Seq<char>>,
    pub short_description: Option<Seq<char>>,
    pub original_release_year: Option<u64>,
    pub tmdb_popularity: NumModel,
    pub object_type: TitleType,
    pub original_title: Seq<char>,
    pub localized_release_date: Option<Seq<char>>,
    pub offers: Option<Seq<OfferModel>>,
    pub scoring: Seq<ScoreModel>,
    pub original_language: Option<Seq<char>>,
    pub age_certification: Option<Seq<char>>,
    pub runtime: Option<u64>,
    pub cinema_release_date: Option<Seq<char>>,
    pub cinema_release_week: Option<Seq<char>>,
}

impl View for Movie {
    type V = MovieModel;

    open spec fn view(&self) -> MovieModel {
        MovieModel {
            id: self.id,
            title: self.title@,
            full_path: self.full_path@,
            poster: self.poster.deep_view(),
            short_description: self.short_description.deep_view(),
            original_release_year: self.original_release_year,
            tmdb_popularity: self.tmdb_popularity@,
            object_type: self.object_type,
            original_title: self.original_title@,
            localized_release_date: self.localized_release_date.deep_view(),
            offers: self.offers.deep_view(),
            scoring: self.scoring.deep_view(),
            original_language: self.original_language.deep_view(),
            age_certification: self.age_certification.deep_view(),
            runtime: self.runtime,
            cinema_release_date: self.cinema_release_date.deep_view(),
            cinema_release_week: self.cinema_release_week.deep_view(),
        }
    }
}

impl DeepView for Movie {
    type V = MovieModel;

    open spec fn deep_view(&self) -> MovieModel {
        self.view()
    }
}

/// A streaming service.
#[derive(Debug, PartialEq)]
pub struct Provider {
    pub id: u64,
    pub clear_name: String,
    pub short_name: String,
    pub technical_name: String,
    pub icon_url: String,
}

pub struct ProviderModel {
    pub id: u64,
    pub clear_name: Seq<char>,
    pub short_name: Seq<char>,
    pub technical_name: Seq<char>,
    pub icon_url: Seq<char>,
}

impl View for Provider {
    type V = ProviderModel;

    open spec fn view(&self) -> ProviderModel {
        ProviderModel {
            id: self.id,
            clear_name: self.clear_name@,
            short_name: self.short_name@,
            technical_name: self.technical_name@,
            icon_url: self.icon_url@,
        }
    }
}

impl DeepView for Provider {
    type V = ProviderModel;

    open spec fn deep_view(&self) -> ProviderModel {
        self.view()
    }
}

} // verus!

