use can_i_stream::codec::{
    decode_movie, decode_provider, decode_score, encode_movie, encode_score,
};
use can_i_stream::model::{score_type_from_wire, score_type_wire, title_type_from_wire};
use can_i_stream::{Json, JsonNum, Movie, Offer, OfferUrls, Provider, Score, ScoreType, TitleType};

fn s(text: &str) -> String {
    text.to_string()
}

fn member(key: &str, v: Json) -> (String, Json) {
    (s(key), v)
}

fn full_movie() -> Movie {
    Movie {
        id: 42,
        title: s("Interstellar"),
        full_path: s("/us/movie/interstellar"),
        poster: Some(s("/poster/42.jpg")),
        short_description: Some(s("Space and time.")),
        original_release_year: Some(2014),
        tmdb_popularity: JsonNum::Other(s("13.7")),
        object_type: TitleType::Movie,
        original_title: s("Interstellar"),
        localized_release_date: Some(s("2014-11-05")),
        offers: Some(vec![Offer {
            monetization_type: s("rent"),
            provider_id: 2,
            retail_price: Some(JsonNum::Other(s("3.99"))),
            currency: Some(s("USD")),
            urls: OfferUrls {
                standard_web: s("https://example.org/watch/42"),
                deeplink_ios: Some(s("app://watch/42")),
                deeplink_android: None,
                deeplink_android_tv: None,
            },
            presentation_type: s("hd"),
            date_created_provider_id: s("2"),
            date_created: s("2020-01-01"),
            country: s("US"),
        }]),
        scoring: vec![
            Score { provider_type: ScoreType::ImdbScore, value: JsonNum::Other(s("8.6")) },
            Score { provider_type: ScoreType::TmdbID, value: JsonNum::UInt(157336) },
        ],
        original_language: Some(s("en")),
        age_certification: Some(s("PG-13")),
        runtime: Some(169),
        cinema_release_date: Some(s("2014-11-07")),
        cinema_release_week: Some(s("2014-45")),
    }
}

fn sparse_movie() -> Movie {
    Movie {
        id: 7,
        title: s("Alien"),
        full_path: s("/us/movie/alien"),
        poster: None,
        short_description: None,
        original_release_year: None,
        tmdb_popularity: JsonNum::UInt(50),
        object_type: TitleType::Show,
        original_title: s("Alien"),
        localized_release_date: None,
        offers: None,
        scoring: vec![],
        original_language: None,
        age_certification: None,
        runtime: None,
        cinema_release_date: None,
        cinema_release_week: None,
    }
}

#[test]
fn test_title_round_trip_full() {
    let m = full_movie();
    let j = encode_movie(&m);
    assert_eq!(decode_movie(&j), Some(m));
}

#[test]
fn test_title_round_trip_sparse_keeps_fields_absent() {
    let m = sparse_movie();
    let j = encode_movie(&m);
    match &j {
        Json::Obj(members) => {
            assert!(members.iter().all(|e| e.0 != "poster"));
            assert!(members.iter().all(|e| e.0 != "offers"));
            assert!(members.iter().all(|e| e.0 != "runtime"));
            assert!(members.iter().any(|e| e.0 == "scoring"));
        },
        other => panic!("encoded title is not an object: {:?}", other),
    }
    assert_eq!(decode_movie(&j), Some(m));
}

#[test]
fn test_score_round_trip() {
    let sc = Score { provider_type: ScoreType::TomatoUserMeter, value: JsonNum::UInt(85) };
    let j = encode_score(&sc);
    assert_eq!(decode_score(&j), Some(sc));
}

#[test]
fn test_score_type_wire_values() {
    assert_eq!(score_type_from_wire("imdb:score"), Some(ScoreType::ImdbScore));
    assert_eq!(score_type_from_wire("tomato_userrating:rating"), Some(ScoreType::TomatoUserRating));
    assert_eq!(score_type_from_wire("tmdb:popularity"), Some(ScoreType::TmdbPopularity));
    assert_eq!(score_type_from_wire("rotten:x"), None);
    assert_eq!(score_type_from_wire("ImdbScore"), None);
    assert_eq!(score_type_wire(ScoreType::TomatoMeter), "tomato:meter");
}

#[test]
fn test_title_type_wire_values() {
    assert_eq!(title_type_from_wire("movie"), Some(TitleType::Movie));
    assert_eq!(title_type_from_wire("show"), Some(TitleType::Show));
    assert_eq!(title_type_from_wire("Movie"), None);
    assert_eq!(title_type_from_wire("film"), None);
}

#[test]
fn test_decode_score_unknown_alias_fails() {
    let j = Json::Obj(vec![
        member("provider_type", Json::Str(s("rotten:x"))),
        member("value", Json::Num(JsonNum::UInt(3))),
    ]);
    assert_eq!(decode_score(&j), None);
}

#[test]
fn test_decode_movie_missing_required_member_fails() {
    let j = Json::Obj(vec![
        member("title", Json::Str(s("No id"))),
        member("full_path", Json::Str(s("/x"))),
        member("tmdb_popularity", Json::Num(JsonNum::UInt(1))),
        member("object_type", Json::Str(s("movie"))),
        member("original_title", Json::Str(s("No id"))),
        member("scoring", Json::Arr(vec![])),
    ]);
    assert_eq!(decode_movie(&j), None);
}

#[test]
fn test_decode_movie_bad_score_drops_whole_title() {
    let j = Json::Obj(vec![
        member("id", Json::Num(JsonNum::UInt(1))),
        member("title", Json::Str(s("T"))),
        member("full_path", Json::Str(s("/t"))),
        member("tmdb_popularity", Json::Num(JsonNum::UInt(1))),
        member("object_type", Json::Str(s("movie"))),
        member("original_title", Json::Str(s("T"))),
        member(
            "scoring",
            Json::Arr(vec![Json::Obj(vec![
                member("provider_type", Json::Str(s("rotten:x"))),
                member("value", Json::Num(JsonNum::UInt(3))),
            ])]),
        ),
    ]);
    assert_eq!(decode_movie(&j), None);
}

#[test]
fn test_decode_provider_all_members_required() {
    let good = Json::Obj(vec![
        member("id", Json::Num(JsonNum::UInt(8))),
        member("clear_name", Json::Str(s("Example Flix"))),
        member("short_name", Json::Str(s("exf"))),
        member("technical_name", Json::Str(s("exampleflix"))),
        member("icon_url", Json::Str(s("/icon/8"))),
    ]);
    assert_eq!(
        decode_provider(&good),
        Some(Provider {
            id: 8,
            clear_name: s("Example Flix"),
            short_name: s("exf"),
            technical_name: s("exampleflix"),
            icon_url: s("/icon/8"),
        })
    );
    let bad = Json::Obj(vec![member("id", Json::Num(JsonNum::UInt(8)))]);
    assert_eq!(decode_provider(&bad), None);
}
