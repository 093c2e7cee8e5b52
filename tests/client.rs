use iri_client::{
    decode_response, normalized_path, ApiClient, BlockingApiClient, BlockingIriClient,
    ClientError, IriClient, JsonBody,
};

#[test]
fn joins_paths_from_base_with_nested_prefix() {
    let client = ApiClient::new("https://example.com/api/v1").expect("valid url");
    let resolved = client.build_url("items").expect("valid path");
    assert_eq!(resolved.as_str(), "https://example.com/api/v1/items");
}

#[test]
fn base_url_with_trailing_slash_is_unchanged() {
    let client = ApiClient::new("https://example.com/api/v1/").expect("valid url");
    let resolved = client.build_url("items").expect("valid path");
    assert_eq!(resolved.as_str(), "https://example.com/api/v1/items");
}

#[test]
fn leading_slashes_are_stripped_before_joining() {
    let client = BlockingApiClient::new("https://example.com/api/v1", reqwest::blocking::Client::new()).expect("valid url");
    let resolved = client.build_url("//items/7").expect("valid path");
    assert_eq!(resolved.as_str(), "https://example.com/api/v1/items/7");
}

#[test]
fn normalized_path_adds_exactly_one_slash() {
    assert_eq!(normalized_path("/api/v1"), "/api/v1/");
    assert_eq!(normalized_path("/api/v1/"), "/api/v1/");
    assert_eq!(normalized_path(""), "/");
    assert_eq!(normalized_path(&normalized_path("/a")), "/a/");
}

#[test]
fn invalid_base_url_is_reported() {
    match ApiClient::new("not a url") {
        Err(ClientError::InvalidBaseUrl(url)) => assert_eq!(url, "not a url"),
        other => panic!("unexpected result: {:?}", other.map(|_| ())),
    }
    assert!(matches!(
        IriClient::new("/relative/only"),
        Err(ClientError::InvalidBaseUrl(_))
    ));
}

#[test]
fn unjoinable_path_is_invalid_path() {
    let client = ApiClient::new("https://example.com/api").expect("valid url");
    match client.build_url("http://[bad") {
        Err(ClientError::InvalidPath(path)) => assert_eq!(path, "http://[bad"),
        other => panic!("unexpected result: {other:?}"),
    }
}

#[test]
fn empty_success_body_is_null() {
    assert!(matches!(
        decode_response(200, String::new()),
        Ok(JsonBody::Null)
    ));
    assert!(matches!(
        decode_response(204, " \n\t ".to_owned()),
        Ok(JsonBody::Null)
    ));
}

#[test]
fn error_status_keeps_body_verbatim() {
    match decode_response(404, "{\"error\":\"not found\"}".to_owned()) {
        Err(ClientError::HttpStatus { status, body }) => {
            assert_eq!(status, 404);
            assert_eq!(body, "{\"error\":\"not found\"}");
        }
        other => panic!("unexpected result: {other:?}"),
    }
    assert!(matches!(
        decode_response(199, String::new()),
        Err(ClientError::HttpStatus { status: 199, .. })
    ));
    assert!(matches!(
        decode_response(300, String::new()),
        Err(ClientError::HttpStatus { status: 300, .. })
    ));
}

#[test]
fn success_body_is_parsed_as_json() {
    match decode_response(201, "{\"id\": 3}".to_owned()) {
        Ok(JsonBody::Value(body)) => assert_eq!(body["id"], 3),
        other => panic!("unexpected result: {other:?}"),
    }
}

#[test]
fn malformed_success_body_is_json_error() {
    assert!(matches!(
        decode_response(200, "{not json".to_owned()),
        Err(ClientError::Json(_))
    ));
}

#[test]
fn prepared_request_carries_token_query_and_body() {
    let client = ApiClient::new("https://example.com/api/v1")
        .expect("valid url")
        .with_authorization_token("SECRET-REDACTED".to_owned());
    let body = serde_json::Value::Bool(true);
    let req = client
        .prepare_request(
            "POST",
            "/items",
            &[("limit", "5"), ("offset", "0")],
            Some(body),
        )
        .expect("prepares");
    assert_eq!(req.method, "POST");
    assert_eq!(req.url.as_str(), "https://example.com/api/v1/items");
    assert_eq!(
        req.headers,
        vec![("Accept".to_owned(), "application/json".to_owned())]
    );
    assert_eq!(req.bearer_token, Some("SECRET-REDACTED".to_owned()));
    assert_eq!(
        req.query,
        Some(vec![
            ("limit".to_owned(), "5".to_owned()),
            ("offset".to_owned(), "0".to_owned()),
        ])
    );
    assert_eq!(req.body, Some(serde_json::Value::Bool(true)));
}

#[test]
fn prepared_request_without_token_or_query() {
    let client = ApiClient::new("https://example.com").expect("valid url");
    let req = client
        .prepare_request("GET", "status", &[], None)
        .expect("prepares");
    assert_eq!(req.url.as_str(), "https://example.com/status");
    assert_eq!(
        req.headers,
        vec![("Accept".to_owned(), "application/json".to_owned())]
    );
    assert_eq!(req.bearer_token, None);
    assert_eq!(req.query, None);
    assert_eq!(req.body, None);
}

#[test]
fn prepared_call_resolves_and_forwards_query() {
    let client = IriClient::new("https://example.com/base").expect("valid url");
    let req = client
        .prepare_call(
            "getSite",
            &[("site_id", "site-1")],
            &[("expand", "all")],
            None,
        )
        .expect("prepares");
    assert_eq!(req.method, "GET");
    assert_eq!(
        req.url.as_str(),
        "https://example.com/base/api/v1/facility/sites/site-1"
    );
    assert_eq!(
        req.query,
        Some(vec![("expand".to_owned(), "all".to_owned())])
    );
}

#[test]
fn prepared_call_reports_resolution_errors() {
    let client = BlockingIriClient::new("https://example.com", reqwest::blocking::Client::new()).expect("valid url");
    assert!(matches!(
        client.prepare_call("nope", &[], &[], None),
        Err(ClientError::UnknownOperation(_))
    ));
    assert!(matches!(
        client.prepare_call("getSite", &[], &[], None),
        Err(ClientError::MissingPathParameter { .. })
    ));
}

#[test]
fn default_server_client_builds() {
    let client = IriClient::from_openapi_default_server().expect("default server url is valid");
    let req = client
        .prepare_call("getFacility", &[], &[], None)
        .expect("prepares");
    assert_eq!(req.url.as_str(), "https://api.iri.nersc.gov/api/v1/facility");
    assert_eq!(iri_client::openapi_default_server_url(), "https://api.iri.nersc.gov");
}

#[test]
fn blocking_client_joins_like_async_client() {
    let blocking = BlockingApiClient::new("https://example.com/api/v1", reqwest::blocking::Client::new())
        .expect("valid url");
    let asynchronous = ApiClient::new("https://example.com/api/v1").expect("valid url");
    assert_eq!(
        blocking.build_url("/items").expect("joins"),
        asynchronous.build_url("items").expect("joins")
    );
    assert!(matches!(
        BlockingApiClient::new("::", reqwest::blocking::Client::new()),
        Err(ClientError::InvalidBaseUrl(_))
    ));
}

#[test]
fn base_url_query_is_kept_when_path_is_normalized() {
    let client = ApiClient::new("https://example.com/api?x=1").expect("valid url");
    let url = client.build_url("items").expect("joins");
    assert_eq!(url, "https://example.com/api/items");
}

#[test]
fn with_transport_normalizes_and_shares_pool() {
    let pool = reqwest::Client::new();
    let client = ApiClient::with_transport("https://example.com/api/v1", pool.clone())
        .expect("valid url");
    assert_eq!(
        client.build_url("items").expect("joins"),
        "https://example.com/api/v1/items"
    );
    assert!(matches!(
        IriClient::with_transport("no scheme", pool),
        Err(ClientError::InvalidBaseUrl(_))
    ));
}

#[test]
fn prepared_call_uses_the_catalog_method() {
    let client = IriClient::new("https://example.com").expect("valid url");
    let req = client
        .prepare_call("launchJob", &[("resource_id", "gpu")], &[], Some(serde_json::Value::Null))
        .expect("prepares");
    assert_eq!(req.method, "POST");
    assert_eq!(req.url, "https://example.com/api/v1/compute/job/gpu");
    let blocking = BlockingIriClient::new("https://example.com", reqwest::blocking::Client::new())
        .expect("valid url");
    let same = blocking
        .prepare_call("launchJob", &[("resource_id", "gpu")], &[], Some(serde_json::Value::Null))
        .expect("prepares");
    assert_eq!(same.method, req.method);
    assert_eq!(same.url, req.url);
}
