use can_i_stream::{Json, Params};

fn empty() -> Params {
    Params::default()
}

#[test]
fn test_query_string_empty() {
    assert_eq!(empty().to_query_string(), "");
}

#[test]
fn test_query_string_single_field() {
    let mut p = empty();
    p.query = Some("Interstellar".to_string());
    assert_eq!(p.to_query_string(), "query=Interstellar");
}

#[test]
fn test_query_string_subset_of_fields() {
    let mut p = empty();
    p.content_types = Some("movie".to_string());
    p.query = Some("Alien".to_string());
    p.page = Some("2".to_string());
    assert_eq!(p.to_query_string(), "content_types=movie&query=Alien&page=2");
}

#[test]
fn test_query_string_all_fields_in_declaration_order() {
    let p = Params {
        content_types: Some("a".to_string()),
        presentation_types: Some("b".to_string()),
        providers: Some("c".to_string()),
        genres: Some("d".to_string()),
        languages: Some("e".to_string()),
        release_year_from: Some("f".to_string()),
        release_year_until: Some("g".to_string()),
        monetization_types: Some("h".to_string()),
        min_price: Some("i".to_string()),
        max_price: Some("j".to_string()),
        scoring_filter_types: Some("k".to_string()),
        cinema_release: Some("l".to_string()),
        query: Some("m".to_string()),
        page: Some("n".to_string()),
        page_size: Some("o".to_string()),
    };
    assert_eq!(
        p.to_query_string(),
        "content_types=a&presentation_types=b&providers=c&genres=d&languages=e&\
         release_year_from=f&release_year_until=g&monetization_types=h&min_price=i&\
         max_price=j&scoring_filter_types=k&cinema_release=l&query=m&page=n&page_size=o"
    );
}

#[test]
fn test_movie_title_sets_only_query() {
    let p = empty().movie_title("Dune");
    assert_eq!(p.query, Some("Dune".to_string()));
    assert_eq!(p.content_types, None);
    assert_eq!(p.page, None);
    assert_eq!(p.to_query_string(), "query=Dune");
}

#[test]
fn test_default_sets_nothing() {
    let p = empty();
    assert_eq!(p, Params {
        content_types: None,
        presentation_types: None,
        providers: None,
        genres: None,
        languages: None,
        release_year_from: None,
        release_year_until: None,
        monetization_types: None,
        min_price: None,
        max_price: None,
        scoring_filter_types: None,
        cinema_release: None,
        query: None,
        page: None,
        page_size: None,
    });
}

#[test]
fn test_params_json_body_holds_only_set_fields() {
    let mut p = empty();
    p.query = Some("Arrival".to_string());
    p.page_size = Some("30".to_string());
    let body = p.to_json();
    match body {
        Json::Obj(members) => {
            assert_eq!(members.len(), 2);
            assert_eq!(members[0].0, "query");
            assert_eq!(members[0].1, Json::Str("Arrival".to_string()));
            assert_eq!(members[1].0, "page_size");
            assert_eq!(members[1].1, Json::Str("30".to_string()));
        },
        other => panic!("body is not an object: {:?}", other),
    }
}
