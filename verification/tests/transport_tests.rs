use octocrab::client::Octocrab;
use octocrab::error::Error;
use octocrab::etag::EntityTag;
use octocrab::response::Response;
use reqwest::header::{HeaderMap, HeaderValue, ACCEPT, ETAG, IF_NONE_MATCH};

#[test]
fn delivered_hands_the_response_back_untouched() {
    for status in [200u16, 304, 404, 500] {
        let mut headers = HeaderMap::new();
        headers.insert(ETAG, HeaderValue::from_static("\"v\""));
        let outcome = Octocrab::delivered(Ok(Response { status, headers: headers.clone(), body: "body".to_string() }));
        assert_eq!(outcome, Ok(Response { status, headers, body: "body".to_string() }));
    }
}

#[test]
fn delivered_reports_a_transport_failure_with_its_cause() {
    assert_eq!(
        Octocrab::delivered(Err("connection reset".to_string())),
        Err(Error::Transport { cause: "connection reset".to_string() })
    );
}

#[test]
fn the_request_of_the_events_is_serialized_with_the_set_parameters_only() {
    let crab = Octocrab::new(reqwest::Url::parse("https://api.example.com/").unwrap());
    let client = reqwest::Client::new();

    let sent = crab.events().per_page(2).page(1).request().unwrap();
    let built = client.get(sent.request.url.clone()).headers(sent.request.headers.clone()).query(&sent.request.query).build().unwrap();
    assert_eq!(built.url().as_str(), "https://api.example.com/events?per_page=2&page=1");
    assert!(built.headers().get(IF_NONE_MATCH).is_none());

    let sent = crab.events().page(0).etag(Some(EntityTag::Strong("v".to_string()))).request().unwrap();
    let built = client.get(sent.request.url.clone()).headers(sent.request.headers.clone()).query(&sent.request.query).build().unwrap();
    assert_eq!(built.url().as_str(), "https://api.example.com/events?page=0");
    assert_eq!(built.headers().get(IF_NONE_MATCH).unwrap().as_bytes(), b"\"v\"");

    let sent = crab.events().request().unwrap();
    let built = client.get(sent.request.url.clone()).headers(sent.request.headers.clone()).query(&sent.request.query).build().unwrap();
    assert_eq!(built.url().query(), None);
    assert!(built.headers().is_empty());
}

#[test]
fn the_request_to_create_is_serialized_with_the_set_fields_only() {
    let crab = Octocrab::new(reqwest::Url::parse("https://api.example.com/").unwrap());
    let handler = crab.current();
    let request = handler.create_repo("demo".to_string()).private(false).auto_init(true).request().unwrap();
    let client = reqwest::Client::new();
    let built = client
        .post(request.url.clone())
        .headers(request.headers.clone())
        .body(serde_json::to_string(&request.body).unwrap())
        .build()
        .unwrap();
    assert_eq!(built.url().as_str(), "https://api.example.com/user/repos");
    assert_eq!(built.headers().get(ACCEPT).unwrap().as_bytes(), b"application/vnd.github+json");
    assert_eq!(
        built.body().unwrap().as_bytes().unwrap(),
        b"{\"auto_init\":true,\"name\":\"demo\",\"private\":false}"
    );
}

#[test]
fn a_parsed_tag_is_inserted_byte_for_byte() {
    for value in ["\"33a64df5\"", "W/\"33a64df5\"", "\"\"", "\"a\"b\"", "\"\u{e9}t\u{e9}\"", "W/\"a b\tc\""] {
        let tag = EntityTag::parse(value).unwrap();
        let mut headers = HeaderMap::new();
        EntityTag::insert_if_none_match_header(&mut headers, tag).unwrap();
        assert_eq!(headers.get(IF_NONE_MATCH).unwrap().as_bytes(), value.as_bytes());
    }
}
