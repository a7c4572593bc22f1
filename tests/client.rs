use gmaps_client::{percent_encode, GMapsClient, GMapsClientError, Invalidated, Validated};

fn reply(text: &str) -> serde_json::Value {
    serde_json::from_str::<serde_json::Value>(text).unwrap()
}

fn query_pairs(url: &str) -> Vec<(String, String)> {
    let url = reqwest::Url::parse(url).unwrap();
    url.query_pairs().map(|(k, v)| (k.into_owned(), v.into_owned())).collect()
}

fn unvalidated(raw: &str) -> GMapsClient<Invalidated> {
    GMapsClient::new(Some(raw.to_string())).expect("Could not create gmaps api client")
}

fn validated(raw: &str) -> GMapsClient<Validated> {
    unvalidated(raw).validate_api_key(Some(reply("{\"status\":\"OK\"}"))).unwrap()
}

#[test]
fn test_validate_client() {
    let gmaps_client = unvalidated("\"abc123\"");
    let gmaps_client = gmaps_client.validate_api_key(Some(reply("{\"status\":\"OK\"}")));
    assert!(gmaps_client.is_ok());
}

#[test]
fn test_valid_single_place() {
    let gmaps = validated("\"abc123\"");
    let url = gmaps.text_search_url("pizza party alba iulia");
    assert_eq!(
        url,
        "https://maps.googleapis.com/maps/api/place/textsearch/json?query=pizza%20party%20alba%20iulia&radius=5000&key=abc123"
    );
    let response = reply("{\"results\":[{\"name\":\"Pizza Party\"}]}");
    let results = response["results"].clone();
    assert_eq!(results[0]["name"], "Pizza Party");
}

#[test]
fn quoted_key_loses_one_quote_on_each_side() {
    let key = GMapsClient::load_api_key(Some("\"abc123\"".to_string())).unwrap();
    assert_eq!(key, "abc123");
    let key = GMapsClient::load_api_key(Some("\"\"abc\"\"".to_string())).unwrap();
    assert_eq!(key, "\"abc\"");
}

#[test]
fn plain_key_is_kept() {
    let key = GMapsClient::load_api_key(Some("abc123".to_string())).unwrap();
    assert_eq!(key, "abc123");
}

#[test]
fn key_with_one_quote_is_kept() {
    assert_eq!(GMapsClient::load_api_key(Some("\"abc".to_string())).unwrap(), "\"abc");
    assert_eq!(GMapsClient::load_api_key(Some("abc\"".to_string())).unwrap(), "abc\"");
    assert_eq!(GMapsClient::load_api_key(Some("\"".to_string())).unwrap(), "\"");
}

#[test]
fn absent_key_fails_to_load() {
    assert_eq!(GMapsClient::load_api_key(None), Err(GMapsClientError::ApiKeyLoadingFailure));
    assert!(matches!(GMapsClient::new(None), Err(GMapsClientError::ApiKeyLoadingFailure)));
}

#[test]
fn empty_key_is_missing() {
    assert_eq!(GMapsClient::load_api_key(Some(String::new())), Err(GMapsClientError::MissingApiKey));
    assert_eq!(
        GMapsClient::load_api_key(Some("\"\"".to_string())),
        Err(GMapsClientError::MissingApiKey)
    );
    assert!(matches!(GMapsClient::new(Some("\"\"".to_string())), Err(GMapsClientError::MissingApiKey)));
}

#[test]
fn new_client_holds_the_unwrapped_key() {
    let client = unvalidated("\"abc123\"");
    assert_eq!(client.api_key(), "abc123");
}

#[test]
fn denied_reply_rejects_the_key() {
    let result = unvalidated("bad").validate_api_key(Some(reply("{\"status\":\"REQUEST_DENIED\"}")));
    assert!(matches!(result, Err(GMapsClientError::InvalidApiKey)));
}

#[test]
fn other_statuses_accept_the_key() {
    for status in ["{\"status\":\"OK\"}", "{\"status\":\"ZERO_RESULTS\"}", "{\"status\":\"INVALID_REQUEST\"}"] {
        let client = unvalidated("abc123").validate_api_key(Some(reply(status))).unwrap();
        assert_eq!(client.api_key(), "abc123");
    }
}

#[test]
fn reply_without_string_status_accepts_the_key() {
    for text in ["{}", "{\"status\":5}", "[\"REQUEST_DENIED\"]", "\"REQUEST_DENIED\"", "{\"other\":\"REQUEST_DENIED\"}"] {
        let result = unvalidated("abc123").validate_api_key(Some(reply(text)));
        assert!(result.is_ok());
    }
}

#[test]
fn failed_probe_is_a_request_failure() {
    let result = unvalidated("abc123").validate_api_key(None);
    assert!(matches!(result, Err(GMapsClientError::RequestFailure)));
}

#[test]
fn status_decides_validation() {
    assert!(matches!(
        unvalidated("k").accept_status(Some("REQUEST_DENIED")),
        Err(GMapsClientError::InvalidApiKey)
    ));
    assert!(unvalidated("k").accept_status(Some("REQUEST_DENIED ")).is_ok());
    assert!(unvalidated("k").accept_status(Some("ZERO_RESULTS")).is_ok());
    assert_eq!(unvalidated("k").accept_status(None).unwrap().api_key(), "k");
}

#[test]
fn validation_probe_address() {
    assert_eq!(
        unvalidated("abc123").validation_url(),
        "https://maps.googleapis.com/maps/api/place/findplacefromtext/json?input=bosfor%20alba&inputtype=textquery&fields=name,place_id,geometry,formatted_address&locationbias=point:50,10&key=abc123"
    );
}

#[test]
fn single_place_address_encodes_the_text() {
    assert_eq!(
        validated("abc123").single_place_url("pizza & beer"),
        "https://maps.googleapis.com/maps/api/place/findplacefromtext/json?input=pizza%20%26%20beer&inputtype=textquery&fields=name,place_id,geometry,formatted_address&locationbias=point:50,10&key=abc123"
    );
}

#[test]
fn text_search_address_encodes_the_query() {
    assert_eq!(
        validated("abc123").text_search_url("a&key=x"),
        "https://maps.googleapis.com/maps/api/place/textsearch/json?query=a%26key%3Dx&radius=5000&key=abc123"
    );
}

#[test]
fn percent_encoding_of_separators_and_spaces() {
    assert_eq!(percent_encode("a b&c"), "a%20b%26c");
    assert_eq!(percent_encode("#?=+/"), "%23%3F%3D%2B%2F");
    assert!(!percent_encode("fish & chips, london").contains('&'));
    assert!(!percent_encode("fish & chips, london").contains(' '));
}

#[test]
fn percent_encoding_keeps_unreserved_bytes() {
    assert_eq!(percent_encode("AZaz09-_.~"), "AZaz09-_.~");
    assert_eq!(percent_encode(""), "");
}

#[test]
fn percent_encoding_of_multibyte_characters() {
    assert_eq!(percent_encode("é"), "%C3%A9");
    assert_eq!(percent_encode("Alba Iulia \u{1F355}"), "Alba%20Iulia%20%F0%9F%8D%95");
}

#[test]
fn end_to_end_with_stub_replies() {
    let client = GMapsClient::new(Some("\"abc123\"".to_string())).unwrap();
    assert_eq!(client.api_key(), "abc123");
    let client = client.validate_api_key(Some(reply("{\"status\":\"OK\"}"))).unwrap();
    assert_eq!(client.api_key(), "abc123");
    assert_eq!(
        query_pairs(&client.text_search_url("pizza party alba iulia")),
        vec![
            ("query".to_string(), "pizza party alba iulia".to_string()),
            ("radius".to_string(), "5000".to_string()),
            ("key".to_string(), "abc123".to_string()),
        ]
    );
}

#[test]
fn single_place_query_keeps_its_parameters() {
    let url = validated("abc123").single_place_url("fish & chips");
    assert_eq!(
        query_pairs(&url),
        vec![
            ("input".to_string(), "fish & chips".to_string()),
            ("inputtype".to_string(), "textquery".to_string()),
            ("fields".to_string(), "name,place_id,geometry,formatted_address".to_string()),
            ("locationbias".to_string(), "point:50,10".to_string()),
            ("key".to_string(), "abc123".to_string()),
        ]
    );
}

#[test]
fn text_search_query_cannot_inject_parameters() {
    let url = validated("abc123").text_search_url("café&key=other&radius=1");
    assert_eq!(
        query_pairs(&url),
        vec![
            ("query".to_string(), "café&key=other&radius=1".to_string()),
            ("radius".to_string(), "5000".to_string()),
            ("key".to_string(), "abc123".to_string()),
        ]
    );
}

#[test]
fn nested_denial_does_not_reject_the_key() {
    let text = "{\"result\":{\"status\":\"REQUEST_DENIED\"}}";
    assert!(unvalidated("abc123").validate_api_key(Some(reply(text))).is_ok());
}
