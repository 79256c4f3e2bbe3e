use octocrab::client::Octocrab;
use octocrab::conditional::Sent;
use octocrab::response::typed_result;
use octocrab::error::{ApiError, Error};
use octocrab::etag::{EntityTag, Etagged};
use octocrab::response::Response;
use reqwest::header::{HeaderMap, HeaderValue, ETAG, IF_NONE_MATCH};

/// A server that holds one resource in one version.
struct Server {
    version: &'static str,
    body: &'static str,
}

impl Server {
    fn answer(&self, sent: &Sent) -> Response {
        let mut headers = HeaderMap::new();
        headers.insert(ETAG, HeaderValue::from_str(&format!("\"{}\"", self.version)).unwrap());
        let current = format!("\"{}\"", self.version);
        match sent.request.headers.get(IF_NONE_MATCH) {
            Some(tag) if tag.as_bytes() == current.as_bytes() => {
                Response { status: 304, headers, body: String::new() }
            }
            _ => Response { status: 200, headers, body: self.body.to_string() },
        }
    }
}

fn decode(response: &Response) -> Result<Vec<u32>, String> {
    serde_json::from_str(&response.body).map_err(|e| e.to_string())
}

fn read(server: &Server, tag: Option<EntityTag>) -> Result<Etagged<Vec<u32>>, Error> {
    let crab = Octocrab::new(reqwest::Url::parse("https://api.example.com/").unwrap());
    let sent = crab.events().etag(tag).request().unwrap();
    let response = server.answer(&sent);
    let decoded = decode(&response);
    sent.receive(response, decoded)
}

fn response(status: u16, etag: Option<&'static str>, body: &str) -> Response {
    let mut headers = HeaderMap::new();
    if let Some(value) = etag {
        headers.insert(ETAG, HeaderValue::from_static(value));
    }
    Response { status, headers, body: body.to_string() }
}

fn sent_with(tag: Option<EntityTag>) -> Sent {
    let crab = Octocrab::new(reqwest::Url::parse("https://api.example.com/").unwrap());
    crab.events().etag(tag).request().unwrap()
}

#[test]
fn a_first_read_gives_the_value_and_its_tag() {
    let server = Server { version: "v1", body: "[1,2,3]" };
    assert_eq!(
        read(&server, None),
        Ok(Etagged { etag: Some(EntityTag::Strong("v1".to_string())), value: Some(vec![1, 2, 3]) })
    );
}

#[test]
fn a_stale_tag_gives_the_changed_resource_and_a_new_tag() {
    let server = Server { version: "v2", body: "[4,5]" };
    let stale = EntityTag::Strong("v1".to_string());
    let read = read(&server, Some(stale.clone())).unwrap();
    assert_eq!(read.value, Some(vec![4, 5]));
    assert_eq!(read.etag, Some(EntityTag::Strong("v2".to_string())));
    assert_ne!(read.etag, Some(stale));
}

#[test]
fn a_current_tag_gives_not_modified_and_no_value() {
    let server = Server { version: "v2", body: "[4,5]" };
    let current = EntityTag::Strong("v2".to_string());
    assert_eq!(read(&server, Some(current.clone())), Ok(Etagged { etag: Some(current), value: None }));
}

#[test]
fn not_modified_echoes_the_tag_of_the_request_where_the_response_has_none() {
    let tag = EntityTag::Weak("kept".to_string());
    let outcome: Result<Etagged<u32>, Error> =
        sent_with(Some(tag.clone())).receive(response(304, None, ""), Err("no body".to_string()));
    assert_eq!(outcome, Ok(Etagged { etag: Some(tag), value: None }));
}

#[test]
fn not_modified_prefers_the_tag_of_the_response() {
    let outcome: Result<Etagged<u32>, Error> = sent_with(Some(EntityTag::Weak("old".to_string())))
        .receive(response(304, Some("\"new\""), ""), Err("no body".to_string()));
    assert_eq!(outcome, Ok(Etagged { etag: Some(EntityTag::Strong("new".to_string())), value: None }));
}

#[test]
fn not_modified_without_any_tag_has_none() {
    let outcome: Result<Etagged<u32>, Error> = sent_with(None).receive(response(304, None, ""), Ok(1));
    assert_eq!(outcome, Ok(Etagged { etag: None, value: None }));
}

#[test]
fn a_success_without_a_tag_does_not_echo_the_request() {
    let outcome = sent_with(Some(EntityTag::Strong("old".to_string()))).receive(response(200, None, "7"), Ok(7u32));
    assert_eq!(outcome, Ok(Etagged { etag: None, value: Some(7) }));
}

#[test]
fn a_body_that_does_not_decode_is_a_deserialization_error() {
    let outcome: Result<Etagged<u32>, Error> =
        sent_with(None).receive(response(200, Some("\"v\""), "{"), Err("EOF while parsing".to_string()));
    assert_eq!(outcome, Err(Error::Deserialization { cause: "EOF while parsing".to_string() }));
}

#[test]
fn a_failure_status_is_mapped_whatever_was_decoded() {
    let outcome = sent_with(None).receive(response(404, Some("\"v\""), "{\"message\":\"Not Found\"}"), Ok(1u32));
    assert_eq!(
        outcome,
        Err(Error::Api {
            status: 404,
            source: ApiError { message: "Not Found".to_string(), documentation_url: None, errors: None },
        })
    );
    let outcome = sent_with(None).receive(response(500, None, "oops"), Ok(1u32));
    assert_eq!(outcome, Err(Error::Http { status: 500, raw_body: "oops".to_string() }));
}

#[test]
fn a_read_has_a_value_exactly_on_success_and_none_exactly_on_not_modified() {
    for status in [100u16, 199, 200, 201, 204, 299, 300, 301, 302, 303, 304, 305, 400, 404, 500] {
        let outcome = sent_with(Some(EntityTag::Strong("t".to_string())))
            .receive(response(status, Some("\"u\""), "1"), Ok(1u32));
        match outcome {
            Ok(read) => {
                assert_eq!(read.value.is_some(), (200..300).contains(&status), "{status}");
                assert_eq!(read.value.is_none(), status == 304, "{status}");
            }
            Err(_) => assert!(status != 304 && !(200..300).contains(&status), "{status}"),
        }
    }
}

#[test]
fn typed_result_gives_the_decoded_value_on_success() {
    assert_eq!(typed_result(response(201, None, "5"), Ok(5u32)), Ok(5));
    assert_eq!(
        typed_result::<u32>(response(201, None, "x"), Err("expected value".to_string())),
        Err(Error::Deserialization { cause: "expected value".to_string() })
    );
}

#[test]
fn typed_result_maps_every_other_status() {
    assert_eq!(
        typed_result(response(304, None, ""), Ok(5u32)),
        Err(Error::Http { status: 304, raw_body: String::new() })
    );
    assert_eq!(
        typed_result(response(422, None, "{\"message\":\"Validation Failed\",\"errors\":[]}"), Ok(5u32)),
        Err(Error::Api {
            status: 422,
            source: ApiError {
                message: "Validation Failed".to_string(),
                documentation_url: None,
                errors: Some(vec![]),
            },
        })
    );
}
