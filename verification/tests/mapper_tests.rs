use octocrab::error::{ApiError, Error};
use octocrab::response::{map_github_error, Response, NOT_MODIFIED};
use reqwest::header::{HeaderMap, HeaderValue, CONTENT_TYPE};

fn response(status: u16, body: &str) -> Response {
    let mut headers = HeaderMap::new();
    headers.insert(CONTENT_TYPE, HeaderValue::from_static("application/json"));
    Response { status, headers, body: body.to_string() }
}

#[test]
fn a_success_response_passes_unchanged() {
    for status in [200u16, 201, 204, 299] {
        let mapped = map_github_error(response(status, "{\"message\":\"ignored\"}"));
        assert_eq!(mapped, Ok(response(status, "{\"message\":\"ignored\"}")));
    }
}

#[test]
fn mapping_a_success_response_twice_changes_nothing() {
    let once = map_github_error(response(200, "[1,2]")).unwrap();
    let twice = map_github_error(response(200, "[1,2]")).and_then(map_github_error).unwrap();
    assert_eq!(once, twice);
    assert_eq!(twice, response(200, "[1,2]"));
}

#[test]
fn the_success_range_ends_at_299() {
    assert!(response(200, "").is_success());
    assert!(response(299, "").is_success());
    assert!(!response(199, "").is_success());
    assert!(!response(300, "").is_success());
    assert!(!response(NOT_MODIFIED, "").is_success());
    assert!(response(304, "").is_not_modified());
    assert!(!response(200, "").is_not_modified());
    assert_eq!(NOT_MODIFIED, 304);
}

#[test]
fn a_structured_error_body_gives_an_api_error() {
    let body = "{\"message\":\"Not Found\",\"documentation_url\":\"https://docs.example/rest\"}";
    assert_eq!(
        map_github_error(response(404, body)),
        Err(Error::Api {
            status: 404,
            source: ApiError {
                message: "Not Found".to_string(),
                documentation_url: Some("https://docs.example/rest".to_string()),
                errors: None,
            },
        })
    );
}

#[test]
fn the_detailed_errors_are_kept_as_json_text() {
    let body = "{ \"message\": \"Validation Failed\", \"errors\": [ {\"resource\": \"Issue\", \"code\": \"missing_field\"}, \"plain\", 7 ] }";
    assert_eq!(
        map_github_error(response(422, body)),
        Err(Error::Api {
            status: 422,
            source: ApiError {
                message: "Validation Failed".to_string(),
                documentation_url: None,
                errors: Some(vec![
                    "{\"code\":\"missing_field\",\"resource\":\"Issue\"}".to_string(),
                    "\"plain\"".to_string(),
                    "7".to_string(),
                ]),
            },
        })
    );
}

#[test]
fn a_message_is_decoded_with_its_escapes() {
    let body = "{\"message\":\"a\\\"b\\u00e9\\n\"}";
    assert_eq!(
        map_github_error(response(400, body)),
        Err(Error::Api {
            status: 400,
            source: ApiError { message: "a\"b\u{e9}\n".to_string(), documentation_url: None, errors: None },
        })
    );
}

#[test]
fn members_of_another_kind_are_left_out() {
    let body = "{\"message\":\"m\",\"documentation_url\":5,\"errors\":\"none\"}";
    assert_eq!(
        map_github_error(response(500, body)),
        Err(Error::Api {
            status: 500,
            source: ApiError { message: "m".to_string(), documentation_url: None, errors: None },
        })
    );
}

#[test]
fn an_unrecognized_body_gives_an_http_error_with_the_raw_body() {
    for body in ["", "Bad Gateway", "<html></html>", "[]", "\"message\"", "{\"message\":5}", "{\"error\":\"x\"}", "{\"message\":\"cut", "{\"message\":\"m\"} trailing", "null"] {
        assert_eq!(
            map_github_error(response(502, body)),
            Err(Error::Http { status: 502, raw_body: body.to_string() }),
            "{body:?}"
        );
    }
}

#[test]
fn every_status_outside_the_success_range_is_an_error() {
    for status in [100u16, 199, 300, 301, 304, 400, 403, 404, 429, 500, 599, 999] {
        assert!(map_github_error(response(status, "{}")).is_err(), "{status}");
    }
}

#[test]
fn mapping_a_failure_twice_gives_equal_errors() {
    for body in ["{\"message\":\"Not Found\"}", "plain text"] {
        let first = map_github_error(response(404, body)).unwrap_err();
        let second = map_github_error(response(404, body)).unwrap_err();
        assert_eq!(first, second);
    }
}

#[test]
fn from_object_needs_a_message() {
    let mut object = serde_json::Map::new();
    assert_eq!(ApiError::from_object(&object), None);
    object.insert("documentation_url".to_string(), serde_json::Value::String("u".to_string()));
    assert_eq!(ApiError::from_object(&object), None);
    object.insert("message".to_string(), serde_json::Value::Bool(true));
    assert_eq!(ApiError::from_object(&object), None);
    object.insert("message".to_string(), serde_json::Value::String("m".to_string()));
    assert_eq!(
        ApiError::from_object(&object),
        Some(ApiError { message: "m".to_string(), documentation_url: Some("u".to_string()), errors: None })
    );
    object.insert("errors".to_string(), serde_json::Value::Array(vec![serde_json::Value::Null]));
    assert_eq!(
        ApiError::from_object(&object),
        Some(ApiError {
            message: "m".to_string(),
            documentation_url: Some("u".to_string()),
            errors: Some(vec!["null".to_string()]),
        })
    );
}

#[test]
fn decode_reads_a_body_text() {
    assert_eq!(
        ApiError::decode("{\"message\":\"m\"}"),
        Some(ApiError { message: "m".to_string(), documentation_url: None, errors: None })
    );
    assert_eq!(ApiError::decode("{\"message\":null}"), None);
    assert_eq!(ApiError::decode("not json"), None);
}

#[test]
fn from_failure_picks_the_variant_by_the_decoding() {
    let decoded = ApiError { message: "m".to_string(), documentation_url: None, errors: None };
    assert_eq!(
        Error::from_failure(403, "raw".to_string(), Some(decoded.clone())),
        Error::Api { status: 403, source: decoded }
    );
    assert_eq!(
        Error::from_failure(403, "raw".to_string(), None),
        Error::Http { status: 403, raw_body: "raw".to_string() }
    );
}
