use vstd::prelude::*;

use crate::json::{
    Json, JsonNum, lemma_obj_get_push, obj_get, opt_num, opt_str, opt_u64, req_num, req_str,
    req_u64, spec_obj_get, spec_opt_num, spec_opt_str, spec_opt_u64, spec_req_num, spec_req_str,
    spec_req_u64,
};
use crate::model::{
    Movie, MovieModel, Offer, OfferModel, OfferUrls, OfferUrlsModel, Provider, ProviderModel,
    Score, ScoreModel, lemma_score_type_wire_round_trip, score_type_from_wire, score_type_wire,
    spec_score_type_of, spec_title_type_of, title_type_from_wire, title_type_wire,
};
use crate::params::{Params, ParamsModel};

verus! {

/// Whether an object carries a member under the key at all.
pub open spec fn spec_key_present(j: Json, key: Seq<char>) -> bool {
    match j {
        Json::Obj(es) => spec_obj_get(es@, key) is Some,
        _ => false,
    }
}

/// The score an object decodes to: a recognised provider alias and a numeric
/// value, both required.
pub open spec fn spec_decode_score(j: Json) -> Option<ScoreModel> {
    match j {
        Json::Obj(es) => {
            let pt = match spec_req_str(es@, "provider_type"@) {
                Some(s) => spec_score_type_of(s),
                None => None,
            };
            let v = spec_req_num(es@, "value"@);
            if pt is Some && v is Some {
                Some(ScoreModel { provider_type: pt->0, value: v->0 })
            } else {
                None
            }
        },
        _ => None,
    }
}

pub fn decode_score(j: &Json) -> (r: Option<Score>)
    ensures
        match r {
            Some(s) => spec_decode_score(*j) == Some(s@),
            None => spec_decode_score(*j) is None,
        },
{
    match j {
        Json::Obj(es) => {
            let pt = match req_str(es, "provider_type") {
                Some(s) => score_type_from_wire(s.as_str()),
                None => None,
            };
            let v = req_num(es, "value");
            match (pt, v) {
                (Some(p), Some(n)) => Some(Score { provider_type: p, value: n }),
                _ => None,
            }
        },
        _ => None,
    }
}

/// A whole list of scores decodes only if every member does.
pub open spec fn spec_decode_scores(items: Seq<Json>) -> Option<Seq<ScoreModel>>
    decreases items.len(),
{
    if items.len() == 0 {
        Some(Seq::empty())
    } else {
        match (spec_decode_scores(items.drop_last()), spec_decode_score(items.last())) {
            (Some(rest), Some(m)) => Some(rest.push(m)),
            _ => None,
        }
    }
}

proof fn lemma_decode_scores_member(items: Seq<Json>, i: int)
    requires
        0 <= i < items.len(),
        spec_decode_score(items[i]) is None,
    ensures
        spec_decode_scores(items) is None,
    decreases items.len(),
{
    if i < items.len() - 1 {
        lemma_decode_scores_member(items.drop_last(), i);
    }
}

pub fn decode_scores(v: &Vec<Json>) -> (r: Option<Vec<Score>>)
    ensures
        match r {
            Some(ss) => spec_decode_scores(v@) == Some(ss.deep_view()),
            None => spec_decode_scores(v@) is None,
        },
{
    let mut out: Vec<Score> = Vec::new();
    let mut i: usize = 0;
    assert(v@.take(0int) =~= Seq::<Json>::empty());
    while i < v.len()
        invariant
            i <= v.len(),
            spec_decode_scores(v@.take(i as int)) == Some(out.deep_view()),
        decreases v.len() - i,
    {
        match decode_score(&v[i]) {
            Some(s) => {
                let ghost prev = out.deep_view();
                out.push(s);
                proof {
                    assert(v@.take(i as int + 1).drop_last() =~= v@.take(i as int));
                    assert(v@.take(i as int + 1).last() == v@[i as int]);
                    assert(out.deep_view() =~= prev.push(s@));
                }
            },
            None => {
                proof {
                    lemma_decode_scores_member(v@, i as int);
                }
                return None;
            },
        }
        i = i + 1;
    }
    assert(v@.take(v.len() as int) =~= v@);
    Some(out)
}

/// The set of links an offer object carries: the web link is required, the
/// deep links are optional.
pub open spec fn spec_decode_offer_urls(j: Json) -> Option<OfferUrlsModel> {
    match j {
        Json::Obj(es) => {
            let sw = spec_req_str(es@, "standard_web"@);
            let di = spec_opt_str(es@, "deeplink_ios"@);
            let da = spec_opt_str(es@, "deeplink_android"@);
            let dt = spec_opt_str(es@, "deeplink_android_tv"@);
            if sw is Some && di is Some && da is Some && dt is Some {
                Some(
                    OfferUrlsModel {
                        standard_web: sw->0,
                        deeplink_ios: di->0,
                        deeplink_android: da->0,
                        deeplink_android_tv: dt->0,
                    },
                )
            } else {
                None
            }
        },
        _ => None,
    }
}

pub fn decode_offer_urls(j: &Json) -> (r: Option<OfferUrls>)
    ensures
        match r {
            Some(u) => spec_decode_offer_urls(*j) == Some(u@),
            None => spec_decode_offer_urls(*j) is None,
        },
{
    match j {
        Json::Obj(es) => {
            let sw = match req_str(es, "standard_web") {
                Some(s) => s,
                None => {
                    return None;
                },
            };
            let di = match opt_str(es, "deeplink_ios") {
                Some(o) => o,
                None => {
                    return None;
                },
            };
            let da = match opt_str(es, "deeplink_android") {
                Some(o) => o,
                None => {
                    return None;
                },
            };
            let dt = match opt_str(es, "deeplink_android_tv") {
                Some(o) => o,
                None => {
                    return None;
                },
            };
            Some(
                OfferUrls {
                    standard_web: sw,
                    deeplink_ios: di,
                    deeplink_android: da,
                    deeplink_android_tv: dt,
                },
            )
        },
        _ => None,
    }
}

/// The offer an object decodes to.
pub open spec fn spec_decode_offer(j: Json) -> Option<OfferModel> {
    match j {
        Json::Obj(es) => {
            let mt = spec_req_str(es@, "monetization_type"@);
            let pid = spec_req_u64(es@, "provider_id"@);
            let rp = spec_opt_num(es@, "retail_price"@);
            let cu = spec_opt_str(es@, "currency"@);
            let ur = match spec_obj_get(es@, "urls"@) {
                Some(u) => spec_decode_offer_urls(u),
                None => None,
            };
            let pt = spec_req_str(es@, "presentation_type"@);
            let dcp = spec_req_str(es@, "date_created_provider_id"@);
            let dc = spec_req_str(es@, "date_created"@);
            let co = spec_req_str(es@, "country"@);
            if mt is Some && pid is Some && rp is Some && cu is Some && ur is Some && pt is Some
                && dcp is Some && dc is Some && co is Some {
                Some(
                    OfferModel {
                        monetization_type: mt->0,
                        provider_id: pid->0,
                        retail_price: rp->0,
                        currency: cu->0,
                        urls: ur->0,
                        presentation_type: pt->0,
                        date_created_provider_id: dcp->0,
                        date_created: dc->0,
                        country: co->0,
                    },
                )
            } else {
                None
            }
        },
        _ => None,
    }
}

pub fn decode_offer(j: &Json) -> (r: Option<Offer>)
    ensures
        match r {
            Some(o) => spec_decode_offer(*j) == Some(o@),
            None => spec_decode_offer(*j) is None,
        },
{
    match j {
        Json::Obj(es) => {
            let mt = match req_str(es, "monetization_type") {
                Some(s) => s,
                None => {
                    return None;
                },
            };
            let pid = match req_u64(es, "provider_id") {
                Some(u) => u,
                None => {
                    return None;
                },
            };
            let rp = match opt_num(es, "retail_price") {
                Some(o) => o,
                None => {
                    return None;
                },
            };
            let cu = match opt_str(es, "currency") {
                Some(o) => o,
                None => {
                    return None;
                },
            };
            let ur = match obj_get(es, "urls") {
                Some(u) => match decode_offer_urls(u) {
                    Some(u) => u,
                    None => {
                        return None;
                    },
                },
                None => {
                    return None;
                },
            };
            let pt = match req_str(es, "presentation_type") {
                Some(s) => s,
                None => {
                    return None;
                },
            };
            let dcp = match req_str(es, "date_created_provider_id") {
                Some(s) => s,
                None => {
                    return None;
                },
            };
            let dc = match req_str(es, "date_created") {
                Some(s) => s,
                None => {
                    return None;
                },
            };
            let co = match req_str(es, "country") {
                Some(s) => s,
                None => {
                    return None;
                },
            };
            Some(
                Offer {
                    monetization_type: mt,
                    provider_id: pid,
                    retail_price: rp,
                    currency: cu,
                    urls: ur,
                    presentation_type: pt,
                    date_created_provider_id: dcp,
                    date_created: dc,
                    country: co,
                },
            )
        },
        _ => None,
    }
}

/// A whole list of offers decodes only if every member does.
pub open spec fn spec_decode_offers(items: Seq<Json>) -> Option<Seq<OfferModel>>
    decreases items.len(),
{
    if items.len() == 0 {
        Some(Seq::empty())
    } else {
        match (spec_decode_offers(items.drop_last()), spec_decode_offer(items.last())) {
            (Some(rest), Some(m)) => Some(rest.push(m)),
            _ => None,
        }
    }
}

proof fn lemma_decode_offers_member(items: Seq<Json>, i: int)
    requires
        0 <= i < items.len(),
        spec_decode_offer(items[i]) is None,
    ensures
        spec_decode_offers(items) is None,
    decreases items.len(),
{
    if i < items.len() - 1 {
        lemma_decode_offers_member(items.drop_last(), i);
    }
}

pub fn decode_offers(v: &Vec<Json>) -> (r: Option<Vec<Offer>>)
    ensures
        match r {
            Some(os) => spec_decode_offers(v@) == Some(os.deep_view()),
            None => spec_decode_offers(v@) is None,
        },
{
    let mut out: Vec<Offer> = Vec::new();
    let mut i: usize = 0;
    assert(v@.take(0int) =~= Seq::<Json>::empty());
    while i < v.len()
        invariant
            i <= v.len(),
            spec_decode_offers(v@.take(i as int)) == Some(out.deep_view()),
        decreases v.len() - i,
    {
        match decode_offer(&v[i]) {
            Some(o) => {
                let ghost prev = out.deep_view();
                out.push(o);
                proof {
                    assert(v@.take(i as int + 1).drop_last() =~= v@.take(i as int));
                    assert(v@.take(i as int + 1).last() == v@[i as int]);
                    assert(out.deep_view() =~= prev.push(o@));
                }
            },
            None => {
                proof {
                    lemma_decode_offers_member(v@, i as int);
                }
                return None;
            },
        }
        i = i + 1;
    }
    assert(v@.take(v.len() as int) =~= v@);
    Some(out)
}

/// The title a JSON object decodes to. A missing or ill-shaped required
/// member, an unrecognised title type or score alias, or a bad member of the
/// offer or score lists makes the whole title fail.
pub open spec fn spec_decode_movie(j: Json) -> Option<MovieModel> {
    match j {
        Json::Obj(es) => {
            let id = spec_req_u64(es@, "id"@);
            let title = spec_req_str(es@, "title"@);
            let full_path = spec_req_str(es@, "full_path"@);
            let poster = spec_opt_str(es@, "poster"@);
            let short_description = spec_opt_str(es@, "short_description"@);
            let original_release_year = spec_opt_u64(es@, "original_release_year"@);
            let tmdb_popularity = spec_req_num(es@, "tmdb_popularity"@);
            let object_type = match spec_req_str(es@, "object_type"@) {
                Some(s) => spec_title_type_of(s),
                None => None,
            };
            let original_title = spec_req_str(es@, "original_title"@);
            let localized_release_date = spec_opt_str(es@, "localized_release_date"@);
            let offers = match spec_obj_get(es@, "offers"@) {
                None => Some(None),
                Some(Json::Null) => Some(None),
                Some(Json::Arr(v)) => match spec_decode_offers(v@) {
                    Some(s) => Some(Some(s)),
                    None => None,
                },
                Some(_) => None,
            };
            let scoring = match spec_obj_get(es@, "scoring"@) {
                Some(Json::Arr(v)) => spec_decode_scores(v@),
                _ => None,
            };
            let original_language = spec_opt_str(es@, "original_language"@);
            let age_certification = spec_opt_str(es@, "age_certification"@);
            let runtime = spec_opt_u64(es@, "runtime"@);
            let cinema_release_date = spec_opt_str(es@, "cinema_release_date"@);
            let cinema_release_week = spec_opt_str(es@, "cinema_release_week"@);
            if id is Some && title is Some && full_path is Some && poster is Some
                && short_description is Some && original_release_year is Some
                && tmdb_popularity is Some && object_type is Some && original_title is Some
                && localized_release_date is Some && offers is Some && scoring is Some
                && original_language is Some && age_certification is Some && runtime is Some
                && cinema_release_date is Some && cinema_release_week is Some {
                Some(
                    MovieModel {
                        id: id->0,
                        title: title->0,
                        full_path: full_path->0,
                        poster: poster->0,
                        short_description: short_description->0,
                        original_release_year: original_release_year->0,
                        tmdb_popularity: tmdb_popularity->0,
                        object_type: object_type->0,
                        original_title: original_title->0,
                        localized_release_date: localized_release_date->0,
                        offers: offers->0,
                        scoring: scoring->0,
                        original_language: original_language->0,
                        age_certification: age_certification->0,
                        runtime: runtime->0,
                        cinema_release_date: cinema_release_date->0,
                        cinema_release_week: cinema_release_week->0,
                    },
                )
            } else {
                None
            }
        },
        _ => None,
    }
}

pub fn decode_movie(j: &Json) -> (r: Option<Movie>)
    ensures
        match r {
            Some(m) => spec_decode_movie(*j) == Some(m@),
            None => spec_decode_movie(*j) is None,
        },
{
    match j {
        Json::Obj(es) => {
            let id = match req_u64(es, "id") {
                Some(u) => u,
                None => {
                    return None;
                },
            };
            let title = match req_str(es, "title") {
                Some(s) => s,
                None => {
                    return None;
                },
            };
            let full_path = match req_str(es, "full_path") {
                Some(s) => s,
                None => {
                    return None;
                },
            };
            let poster = match opt_str(es, "poster") {
                Some(o) => o,
                None => {
                    return None;
                },
            };
            let short_description = match opt_str(es, "short_description") {
                Some(o) => o,
                None => {
                    return None;
                },
            };
            let original_release_year = match opt_u64(es, "original_release_year") {
                Some(o) => o,
                None => {
                    return None;
                },
            };
            let tmdb_popularity = match req_num(es, "tmdb_popularity") {
                Some(n) => n,
                None => {
                    return None;
                },
            };
            let object_type = match req_str(es, "object_type") {
                Some(s) => match title_type_from_wire(s.as_str()) {
                    Some(t) => t,
                    None => {
                        return None;
                    },
                },
                None => {
                    return None;
                },
            };
            let original_title = match req_str(es, "original_title") {
                Some(s) => s,
                None => {
                    return None;
                },
            };
            let localized_release_date = match opt_str(es, "localized_release_date") {
                Some(o) => o,
                None => {
                    return None;
                },
            };
            let offers = match obj_get(es, "offers") {
                None => None,
                Some(Json::Null) => None,
                Some(Json::Arr(v)) => match decode_offers(v) {
                    Some(os) => Some(os),
                    None => {
                        return None;
                    },
                },
                Some(_) => {
                    return None;
                },
            };
            let scoring = match obj_get(es, "scoring") {
                Some(Json::Arr(v)) => match decode_scores(v) {
                    Some(ss) => ss,
                    None => {
                        return None;
                    },
                },
                _ => {
                    return None;
                },
            };
            let original_language = match opt_str(es, "original_language") {
                Some(o) => o,
                None => {
                    return None;
                },
            };
            let age_certification = match opt_str(es, "age_certification") {
                Some(o) => o,
                None => {
                    return None;
                },
            };
            let runtime = match opt_u64(es, "runtime") {
                Some(o) => o,
                None => {
                    return None;
                },
            };
            let cinema_release_date = match opt_str(es, "cinema_release_date") {
                Some(o) => o,
                None => {
                    return None;
                },
            };
            let cinema_release_week = match opt_str(es, "cinema_release_week") {
                Some(o) => o,
                None => {
                    return None;
                },
            };
            Some(
                Movie {
                    id,
                    title,
                    full_path,
                    poster,
                    short_description,
                    original_release_year,
                    tmdb_popularity,
                    object_type,
                    original_title,
                    localized_release_date,
                    offers,
                    scoring,
                    original_language,
                    age_certification,
                    runtime,
                    cinema_release_date,
                    cinema_release_week,
                },
            )
        },
        _ => None,
    }
}

/// Appends one member to an object under construction: the new member wins
/// lookups of its own key and leaves every other lookup as it was.
fn push_member(es: &mut Vec<(String, Json)>, key: &str, v: Json)
    ensures
        forall|k: Seq<char>|
            #[trigger] spec_obj_get(final(es)@, k) == if key@ == k {
                Some(v)
            } else {
                spec_obj_get(old(es)@, k)
            },
{
    let ks = String::from_str(key);
    let ghost e = (ks, v);
    proof {
        lemma_obj_get_push(es@, e);
    }
    es.push((ks, v));
}

/// Appends the member for an optional field: the field's text under the key
/// when set, nothing at all when not.
fn push_opt_member(es: &mut Vec<(String, Json)>, key: &str, v: &Option<String>)
    ensures
        forall|k: Seq<char>|
            #[trigger] spec_obj_get(final(es)@, k) == (if key@ == k && v is Some {
                Some(Json::Str(v->0))
            } else {
                spec_obj_get(old(es)@, k)
            }),
{
    match v {
        Some(s) => {
            push_member(es, key, Json::Str(s.clone()));
        },
        None => {},
    }
}

/// Encodes a score as an object under its wire alias. Decoding the result
/// gives the score back.
pub fn encode_score(s: &Score) -> (j: Json)
    ensures
        spec_decode_score(j) == Some(s@),
{
    let mut es: Vec<(String, Json)> = Vec::new();
    push_member(&mut es, "provider_type", Json::Str(score_type_wire(s.provider_type)));
    push_member(&mut es, "value", Json::Num(s.value.clone()));
    proof {
        lemma_score_type_wire_round_trip();
        reveal_strlit("provider_type");
        reveal_strlit("value");
        assert("provider_type"@.len() == 13);
        assert("value"@.len() == 5);
    }
    Json::Obj(es)
}

/// Encodes each score of a list; the list decodes back to the same scores.
pub fn encode_scores(ss: &Vec<Score>) -> (v: Vec<Json>)
    ensures
        spec_decode_scores(v@) == Some(ss.deep_view()),
{
    let mut out: Vec<Json> = Vec::new();
    let mut i: usize = 0;
    assert(ss.deep_view().take(0int) =~= Seq::<ScoreModel>::empty());
    while i < ss.len()
        invariant
            i <= ss.len(),
            spec_decode_scores(out@) == Some(ss.deep_view().take(i as int)),
        decreases ss.len() - i,
    {
        let ghost prev = out@;
        out.push(encode_score(&ss[i]));
        proof {
            assert(out@.drop_last() =~= prev);
            assert(ss.deep_view().take(i as int + 1) =~= ss.deep_view().take(i as int).push(
                ss@[i as int].deep_view(),
            ));
        }
        i = i + 1;
    }
    assert(ss.deep_view().take(ss.len() as int) =~= ss.deep_view());
    out
}

/// Encodes the link set of an offer, leaving unset deep links out entirely.
pub fn encode_offer_urls(u: &OfferUrls) -> (j: Json)
    ensures
        spec_decode_offer_urls(j) == Some(u@),
        spec_key_present(j, "deeplink_ios"@) == (u.deeplink_ios is Some),
        spec_key_present(j, "deeplink_android"@) == (u.deeplink_android is Some),
        spec_key_present(j, "deeplink_android_tv"@) == (u.deeplink_android_tv is Some),
{
    let mut es: Vec<(String, Json)> = Vec::new();
    push_member(&mut es, "standard_web", Json::Str(u.standard_web.clone()));
    if let Some(s) = &u.deeplink_ios {
        push_member(&mut es, "deeplink_ios", Json::Str(s.clone()));
    }
    if let Some(s) = &u.deeplink_android {
        push_member(&mut es, "deeplink_android", Json::Str(s.clone()));
    }
    if let Some(s) = &u.deeplink_android_tv {
        push_member(&mut es, "deeplink_android_tv", Json::Str(s.clone()));
    }
    proof {
        reveal_strlit("standard_web");
        reveal_strlit("deeplink_ios");
        reveal_strlit("deeplink_android");
        reveal_strlit("deeplink_android_tv");
        assert("standard_web"@.len() == 12);
        assert("deeplink_ios"@.len() == 12);
        assert("deeplink_android"@.len() == 16);
        assert("deeplink_android_tv"@.len() == 19);
        assert("standard_web"@[0] == 's');
        assert("deeplink_ios"@[0] == 'd');
    }
    Json::Obj(es)
}

/// Encodes an offer, leaving unset price and currency out entirely.
pub fn encode_offer(o: &Offer) -> (j: Json)
    ensures
        spec_decode_offer(j) == Some(o@),
        spec_key_present(j, "retail_price"@) == (o.retail_price is Some),
        spec_key_present(j, "currency"@) == (o.currency is Some),
{
    let mut es: Vec<(String, Json)> = Vec::new();
    push_member(&mut es, "monetization_type", Json::Str(o.monetization_type.clone()));
    push_member(&mut es, "provider_id", Json::Num(JsonNum::UInt(o.provider_id)));
    if let Some(n) = &o.retail_price {
        push_member(&mut es, "retail_price", Json::Num(n.clone()));
    }
    if let Some(s) = &o.currency {
        push_member(&mut es, "currency", Json::Str(s.clone()));
    }
    push_member(&mut es, "urls", encode_offer_urls(&o.urls));
    push_member(&mut es, "presentation_type", Json::Str(o.presentation_type.clone()));
    push_member(&mut es, "date_created_provider_id", Json::Str(o.date_created_provider_id.clone()));
    push_member(&mut es, "date_created", Json::Str(o.date_created.clone()));
    push_member(&mut es, "country", Json::Str(o.country.clone()));
    proof {
        reveal_strlit("monetization_type");
        reveal_strlit("provider_id");
        reveal_strlit("retail_price");
        reveal_strlit("currency");
        reveal_strlit("urls");
        reveal_strlit("presentation_type");
        reveal_strlit("date_created_provider_id");
        reveal_strlit("date_created");
        reveal_strlit("country");
        assert("monetization_type"@.len() == 17);
        assert("provider_id"@.len() == 11);
        assert("retail_price"@.len() == 12);
        assert("currency"@.len() == 8);
        assert("urls"@.len() == 4);
        assert("presentation_type"@.len() == 17);
        assert("date_created_provider_id"@.len() == 24);
        assert("date_created"@.len() == 12);
        assert("country"@.len() == 7);
        assert("monetization_type"@[0] == 'm');
        assert("presentation_type"@[0] == 'p');
        assert("retail_price"@[0] == 'r');
        assert("date_created"@[0] == 'd');
    }
    Json::Obj(es)
}

/// Encodes each offer of a list; the list decodes back to the same offers.
pub fn encode_offers(os: &Vec<Offer>) -> (v: Vec<Json>)
    ensures
        spec_decode_offers(v@) == Some(os.deep_view()),
{
    let mut out: Vec<Json> = Vec::new();
    let mut i: usize = 0;
    assert(os.deep_view().take(0int) =~= Seq::<OfferModel>::empty());
    while i < os.len()
        invariant
            i <= os.len(),
            spec_decode_offers(out@) == Some(os.deep_view().take(i as int)),
        decreases os.len() - i,
    {
        let ghost prev = out@;
        out.push(encode_offer(&os[i]));
        proof {
            assert(out@.drop_last() =~= prev);
            assert(os.deep_view().take(i as int + 1) =~= os.deep_view().take(i as int).push(
                os@[i as int].deep_view(),
            ));
        }
        i = i + 1;
    }
    assert(os.deep_view().take(os.len() as int) =~= os.deep_view());
    out
}

/// Encodes a title, set members only, in declaration order. Decoding the
/// result gives the title back, and a member stands in the object exactly
/// when the field is set.
#[verifier::rlimit(60)]
pub fn encode_movie(m: &Movie) -> (j: Json)
    ensures
        spec_decode_movie(j) == Some(m@),
        spec_key_present(j, "poster"@) == (m.poster is Some),
        spec_key_present(j, "short_description"@) == (m.short_description is Some),
        spec_key_present(j, "original_release_year"@) == (m.original_release_year is Some),
        spec_key_present(j, "localized_release_date"@) == (m.localized_release_date is Some),
        spec_key_present(j, "offers"@) == (m.offers is Some),
        spec_key_present(j, "original_language"@) == (m.original_language is Some),
        spec_key_present(j, "age_certification"@) == (m.age_certification is Some),
        spec_key_present(j, "runtime"@) == (m.runtime is Some),
        spec_key_present(j, "cinema_release_date"@) == (m.cinema_release_date is Some),
        spec_key_present(j, "cinema_release_week"@) == (m.cinema_release_week is Some),
{
    let mut es: Vec<(String, Json)> = Vec::new();
    push_member(&mut es, "id", Json::Num(JsonNum::UInt(m.id)));
    push_member(&mut es, "title", Json::Str(m.title.clone()));
    push_member(&mut es, "full_path", Json::Str(m.full_path.clone()));
    if let Some(s) = &m.poster {
        push_member(&mut es, "poster", Json::Str(s.clone()));
    }
    if let Some(s) = &m.short_description {
        push_member(&mut es, "short_description", Json::Str(s.clone()));
    }
    if let Some(y) = &m.original_release_year {
        push_member(&mut es, "original_release_year", Json::Num(JsonNum::UInt(*y)));
    }
    push_member(&mut es, "tmdb_popularity", Json::Num(m.tmdb_popularity.clone()));
    push_member(&mut es, "object_type", Json::Str(title_type_wire(m.object_type)));
    push_member(&mut es, "original_title", Json::Str(m.original_title.clone()));
    if let Some(s) = &m.localized_release_date {
        push_member(&mut es, "localized_release_date", Json::Str(s.clone()));
    }
    if let Some(v) = &m.offers {
        push_member(&mut es, "offers", Json::Arr(encode_offers(v)));
    }
    push_member(&mut es, "scoring", Json::Arr(encode_scores(&m.scoring)));
    if let Some(s) = &m.original_language {
        push_member(&mut es, "original_language", Json::Str(s.clone()));
    }
    if let Some(s) = &m.age_certification {
        push_member(&mut es, "age_certification", Json::Str(s.clone()));
    }
    if let Some(r) = &m.runtime {
        push_member(&mut es, "runtime", Json::Num(JsonNum::UInt(*r)));
    }
    if let Some(s) = &m.cinema_release_date {
        push_member(&mut es, "cinema_release_date", Json::Str(s.clone()));
    }
    if let Some(s) = &m.cinema_release_week {
        push_member(&mut es, "cinema_release_week", Json::Str(s.clone()));
    }
    proof {
        lemma_score_type_wire_round_trip();
        reveal_strlit("id");
        reveal_strlit("title");
        reveal_strlit("full_path");
        reveal_strlit("poster");
        reveal_strlit("short_description");
        reveal_strlit("original_release_year");
        reveal_strlit("tmdb_popularity");
        reveal_strlit("object_type");
        reveal_strlit("original_title");
        reveal_strlit("localized_release_date");
        reveal_strlit("offers");
        reveal_strlit("scoring");
        reveal_strlit("original_language");
        reveal_strlit("age_certification");
        reveal_strlit("runtime");
        reveal_strlit("cinema_release_date");
        reveal_strlit("cinema_release_week");
        assert("id"@.len() == 2);
        assert("title"@.len() == 5);
        assert("full_path"@.len() == 9);
        assert("poster"@.len() == 6);
        assert("short_description"@.len() == 17);
        assert("original_release_year"@.len() == 21);
        assert("tmdb_popularity"@.len() == 15);
        assert("object_type"@.len() == 11);
        assert("original_title"@.len() == 14);
        assert("localized_release_date"@.len() == 22);
        assert("offers"@.len() == 6);
        assert("scoring"@.len() == 7);
        assert("original_language"@.len() == 17);
        assert("age_certification"@.len() == 17);
        assert("runtime"@.len() == 7);
        assert("cinema_release_date"@.len() == 19);
        assert("cinema_release_week"@.len() == 19);
        assert("poster"@[0] == 'p');
        assert("offers"@[0] == 'o');
        assert("short_description"@[0] == 's');
        assert("original_language"@[0] == 'o');
        assert("age_certification"@[0] == 'a');
        assert("scoring"@[0] == 's');
        assert("runtime"@[0] == 'r');
        assert("cinema_release_date"@[15] == 'd');
        assert("cinema_release_week"@[15] == 'w');
    }
    Json::Obj(es)
}

/// The provider a JSON object decodes to: every member is required.
pub open spec fn spec_decode_provider(j: Json) -> Option<ProviderModel> {
    match j {
        Json::Obj(es) => {
            let id = spec_req_u64(es@, "id"@);
            let clear_name = spec_req_str(es@, "clear_name"@);
            let short_name = spec_req_str(es@, "short_name"@);
            let technical_name = spec_req_str(es@, "technical_name"@);
            let icon_url = spec_req_str(es@, "icon_url"@);
            if id is Some && clear_name is Some && short_name is Some && technical_name is Some
                && icon_url is Some {
                Some(
                    ProviderModel {
                        id: id->0,
                        clear_name: clear_name->0,
                        short_name: short_name->0,
                        technical_name: technical_name->0,
                        icon_url: icon_url->0,
                    },
                )
            } else {
                None
            }
        },
        _ => None,
    }
}

pub fn decode_provider(j: &Json) -> (r: Option<Provider>)
    ensures
        match r {
            Some(p) => spec_decode_provider(*j) == Some(p@),
            None => spec_decode_provider(*j) is None,
        },
{
    match j {
        Json::Obj(es) => {
            let id = match req_u64(es, "id") {
                Some(u) => u,
                None => {
                    return None;
                },
            };
            let clear_name = match req_str(es, "clear_name") {
                Some(s) => s,
                None => {
                    return None;
                },
            };
            let short_name = match req_str(es, "short_name") {
                Some(s) => s,
                None => {
                    return None;
                },
            };
            let technical_name = match req_str(es, "technical_name") {
                Some(s) => s,
                None => {
                    return None;
                },
            };
            let icon_url = match req_str(es, "icon_url") {
                Some(s) => s,
                None => {
                    return None;
                },
            };
            Some(Provider { id, clear_name, short_name, technical_name, icon_url })
        },
        _ => None,
    }
}

} // verus!

verus! {

/// Whether the object's member under the key is exactly the given optional
/// field: the field's text when it is set, no member at all when it is not.
pub open spec fn spec_params_member(j: Json, key: Seq<char>, v: Option<Seq<char>>) -> bool {
    match j {
        Json::Obj(es) => match v {
            Some(s) => spec_req_str(es@, key) == Some(s),
            None => spec_obj_get(es@, key) is None,
        },
        _ => false,
    }
}

/// A request body carries one string member per set field, under the field's
/// own name, and no member for an unset field.
pub open spec fn spec_params_json(p: ParamsModel, j: Json) -> bool {
    &&& spec_params_member(j, "content_types"@, p.content_types)
    &&& spec_params_member(j, "presentation_types"@, p.presentation_types)
    &&& spec_params_member(j, "providers"@, p.providers)
    &&& spec_params_member(j, "genres"@, p.genres)
    &&& spec_params_member(j, "languages"@, p.languages)
    &&& spec_params_member(j, "release_year_from"@, p.release_year_from)
    &&& spec_params_member(j, "release_year_until"@, p.release_year_until)
    &&& spec_params_member(j, "monetization_types"@, p.monetization_types)
    &&& spec_params_member(j, "min_price"@, p.min_price)
    &&& spec_params_member(j, "max_price"@, p.max_price)
    &&& spec_params_member(j, "scoring_filter_types"@, p.scoring_filter_types)
    &&& spec_params_member(j, "cinema_release"@, p.cinema_release)
    &&& spec_params_member(j, "query"@, p.query)
    &&& spec_params_member(j, "page"@, p.page)
    &&& spec_params_member(j, "page_size"@, p.page_size)
}

impl Params {
    /// Encodes the set fields, and only them, as the members of a JSON
    /// object, in declaration order.
    #[verifier::rlimit(60)]
    pub fn to_json(&self) -> (j: Json)
        ensures
            spec_params_json(self@, j),
    {
        let mut es: Vec<(String, Json)> = Vec::new();
        push_opt_member(&mut es, "content_types", &self.content_types);
        push_opt_member(&mut es, "presentation_types", &self.presentation_types);
        push_opt_member(&mut es, "providers", &self.providers);
        push_opt_member(&mut es, "genres", &self.genres);
        push_opt_member(&mut es, "languages", &self.languages);
        push_opt_member(&mut es, "release_year_from", &self.release_year_from);
        push_opt_member(&mut es, "release_year_until", &self.release_year_until);
        push_opt_member(&mut es, "monetization_types", &self.monetization_types);
        push_opt_member(&mut es, "min_price", &self.min_price);
        push_opt_member(&mut es, "max_price", &self.max_price);
        push_opt_member(&mut es, "scoring_filter_types", &self.scoring_filter_types);
        push_opt_member(&mut es, "cinema_release", &self.cinema_release);
        push_opt_member(&mut es, "query", &self.query);
        push_opt_member(&mut es, "page", &self.page);
        push_opt_member(&mut es, "page_size", &self.page_size);
        proof {
            reveal_strlit("content_types");
            reveal_strlit("presentation_types");
            reveal_strlit("providers");
            reveal_strlit("genres");
            reveal_strlit("languages");
            reveal_strlit("release_year_from");
            reveal_strlit("release_year_until");
            reveal_strlit("monetization_types");
            reveal_strlit("min_price");
            reveal_strlit("max_price");
            reveal_strlit("scoring_filter_types");
            reveal_strlit("cinema_release");
            reveal_strlit("query");
            reveal_strlit("page");
            reveal_strlit("page_size");
            assert("content_types"@.len() == 13);
            assert("presentation_types"@.len() == 18);
            assert("providers"@.len() == 9);
            assert("genres"@.len() == 6);
            assert("languages"@.len() == 9);
            assert("release_year_from"@.len() == 17);
            assert("release_year_until"@.len() == 18);
            assert("monetization_types"@.len() == 18);
            assert("min_price"@.len() == 9);
            assert("max_price"@.len() == 9);
            assert("scoring_filter_types"@.len() == 20);
            assert("cinema_release"@.len() == 14);
            assert("query"@.len() == 5);
            assert("page"@.len() == 4);
            assert("page_size"@.len() == 9);
            assert("presentation_types"@[0] == 'p');
            assert("release_year_until"@[0] == 'r');
            assert("monetization_types"@[0] == 'm');
            assert("providers"@[0] == 'p');
            assert("languages"@[0] == 'l');
            assert("min_price"@[0] == 'm');
            assert("max_price"@[0] == 'm');
            assert("page_size"@[0] == 'p');
            assert("min_price"@[1] == 'i');
            assert("max_price"@[1] == 'a');
            assert("providers"@[1] == 'r');
            assert("page_size"@[1] == 'a');
        }
        Json::Obj(es)
    }
}

} // verus!
