use can_i_stream::{CanIStreamError, JsonNum, TitleType, base_url, providers_endpoint,
    providers_outcome, search_endpoint, search_outcome};

fn ok(body: &str) -> Result<String, String> {
    Ok(body.to_string())
}

#[test]
fn test_search_skips_malformed_title() {
    let body = r#"{"items": [
        {"id": 1, "title": "Good", "full_path": "/g", "tmdb_popularity": 13.7,
         "object_type": "movie", "original_title": "Good", "scoring": [
            {"provider_type": "imdb:score", "value": 8.6}]},
        {"title": "No id", "full_path": "/b", "tmdb_popularity": 1,
         "object_type": "movie", "original_title": "No id", "scoring": []}
    ]}"#;
    let movies = search_outcome(ok(body)).expect("whole call must not fail");
    assert_eq!(movies.len(), 1);
    assert_eq!(movies[0].id, 1);
    assert_eq!(movies[0].title, "Good");
    assert_eq!(movies[0].object_type, TitleType::Movie);
    assert_eq!(movies[0].tmdb_popularity, JsonNum::Other("13.7".to_string()));
    assert_eq!(movies[0].scoring.len(), 1);
    assert_eq!(movies[0].scoring[0].value, JsonNum::Other("8.6".to_string()));
}

#[test]
fn test_search_keeps_server_order() {
    let body = r#"{"items": [
        {"id": 2, "title": "B", "full_path": "/b", "tmdb_popularity": 2,
         "object_type": "show", "original_title": "B", "scoring": []},
        {"id": 1, "title": "A", "full_path": "/a", "tmdb_popularity": 1,
         "object_type": "movie", "original_title": "A", "scoring": []}
    ]}"#;
    let movies = search_outcome(ok(body)).unwrap();
    assert_eq!(movies.len(), 2);
    assert_eq!(movies[0].id, 2);
    assert_eq!(movies[1].id, 1);
}

#[test]
fn test_search_without_items_is_empty_success() {
    assert_eq!(search_outcome(ok("{}")).unwrap().len(), 0);
    assert_eq!(search_outcome(ok(r#"{"items": 5}"#)).unwrap().len(), 0);
    assert_eq!(search_outcome(ok("[1, 2]")).unwrap().len(), 0);
}

#[test]
fn test_search_transport_failure_is_request_error() {
    let r = search_outcome(Err("connection refused".to_string()));
    match r {
        Err(CanIStreamError::RequestError(m)) => assert_eq!(m, "connection refused"),
        other => panic!("expected a transport error, got {:?}", other),
    }
}

#[test]
fn test_providers_transport_failure_is_request_error() {
    let r = providers_outcome(Err("dns failure".to_string()));
    match r {
        Err(e @ CanIStreamError::RequestError(_)) => assert_eq!(e.message(), "dns failure"),
        other => panic!("expected a transport error, got {:?}", other),
    }
}

#[test]
fn test_search_bad_body_is_no_json_error() {
    let r = search_outcome(ok("<html>not json</html>"));
    match r {
        Err(CanIStreamError::NoJson(m)) => assert!(!m.is_empty()),
        other => panic!("expected a parse error, got {:?}", other),
    }
}

#[test]
fn test_providers_bad_body_is_no_json_error() {
    let r = providers_outcome(ok(""));
    match r {
        Err(CanIStreamError::NoJson(_)) => {},
        other => panic!("expected a parse error, got {:?}", other),
    }
}

fn provider_body(id: u64, name: &str) -> String {
    format!(
        r#"{{"id": {}, "clear_name": "{}", "short_name": "s{}", "technical_name": "t{}", "icon_url": "/i/{}"}}"#,
        id, name, id, id, id
    )
}

#[test]
fn test_providers_unique_ids_all_kept() {
    let body = format!(
        "[{}, {}, {}]",
        provider_body(8, "Netflix"),
        provider_body(9, "Prime"),
        provider_body(104, "Peacock")
    );
    let map = providers_outcome(Ok(body)).unwrap();
    assert_eq!(map.len(), 3);
    assert_eq!(map.get(&104).unwrap().clear_name, "Peacock");
    assert_eq!(map.get(&8).unwrap().technical_name, "t8");
}

#[test]
fn test_providers_duplicate_id_later_wins() {
    let body = format!(
        "[{}, {}, {}]",
        provider_body(8, "First"),
        provider_body(9, "Other"),
        provider_body(8, "Second")
    );
    let map = providers_outcome(Ok(body)).unwrap();
    assert_eq!(map.len(), 2);
    assert_eq!(map.get(&8).unwrap().clear_name, "Second");
}

#[test]
fn test_providers_skip_malformed_member() {
    let body = format!("[{}, {{\"id\": 3}}]", provider_body(5, "Kept"));
    let map = providers_outcome(Ok(body)).unwrap();
    assert_eq!(map.len(), 1);
    assert_eq!(map.get(&5).unwrap().clear_name, "Kept");
}

#[test]
fn test_providers_non_array_is_empty_success() {
    assert_eq!(providers_outcome(ok("{}")).unwrap().len(), 0);
}

#[test]
fn test_urls_and_endpoints() {
    assert_eq!(search_endpoint(), "/titles/en_US/popular");
    assert_eq!(providers_endpoint(), "/providers/locale/en_US");
    assert_eq!(
        base_url(search_endpoint().as_str()),
        "https://apis.justwatch.com/content/titles/en_US/popular"
    );
}

#[test]
fn test_search_nested_offer_parsed_from_text() {
    let body = r#"{"items": [
        {"id": 11, "title": "W", "full_path": "/w", "tmdb_popularity": 2.5,
         "object_type": "movie", "original_title": "W",
         "offers": [{"monetization_type": "buy", "provider_id": 3,
                     "retail_price": 9.99, "currency": "USD",
                     "urls": {"standard_web": "https://example.org/w"},
                     "presentation_type": "sd", "date_created_provider_id": "3",
                     "date_created": "2021-05-05", "country": "US"}],
         "scoring": []}
    ]}"#;
    let movies = search_outcome(ok(body)).unwrap();
    assert_eq!(movies.len(), 1);
    let offers = movies[0].offers.as_ref().unwrap();
    assert_eq!(offers.len(), 1);
    assert_eq!(offers[0].provider_id, 3);
    assert_eq!(offers[0].retail_price, Some(JsonNum::Other("9.99".to_string())));
    assert_eq!(offers[0].urls.standard_web, "https://example.org/w");
    assert_eq!(offers[0].urls.deeplink_ios, None);
}
