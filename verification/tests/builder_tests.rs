use octocrab::api::current::create::CreateUserRepositoryBuilder;
use octocrab::api::events::EventsBuilder;
use octocrab::client::{CurrentAuthHandler, Method, Octocrab};
use octocrab::error::Error;
use octocrab::etag::EntityTag;
use reqwest::header::{ACCEPT, IF_NONE_MATCH};

fn url(text: &str) -> reqwest::Url {
    reqwest::Url::parse(text).unwrap()
}

fn crab() -> Octocrab {
    Octocrab::new(url("https://api.example.com/"))
}

fn body_text(builder: &CreateUserRepositoryBuilder) -> String {
    serde_json::to_string(&builder.body()).unwrap()
}

#[test]
fn absolute_url_resolves_against_the_base() {
    assert_eq!(crab().absolute_url("user/repos"), Ok(url("https://api.example.com/user/repos")));
    assert_eq!(crab().absolute_url("events").unwrap().as_str(), "https://api.example.com/events");
    let nested = Octocrab::new(url("https://host.example/api/v3/"));
    assert_eq!(nested.absolute_url("events").unwrap().as_str(), "https://host.example/api/v3/events");
    assert_eq!(nested.absolute_url("/events").unwrap().as_str(), "https://host.example/events");
    assert_eq!(nested.absolute_url("a b").unwrap().as_str(), "https://host.example/api/v3/a%20b");
    assert_eq!(nested.absolute_url("https://other.example/x").unwrap().as_str(), "https://other.example/x");
    let bare = Octocrab::new(url("https://host.example/api"));
    assert_eq!(bare.absolute_url("events").unwrap().as_str(), "https://host.example/events");
}

#[test]
fn absolute_url_fails_where_the_path_does_not_resolve() {
    for base in ["mailto:someone@example.com", "data:text/plain,x"] {
        let crab = Octocrab::new(url(base));
        assert_eq!(
            crab.absolute_url("events"),
            Err(Error::UrlConstruction { path: "events".to_string() }),
            "{base:?}"
        );
    }
    assert_eq!(
        crab().absolute_url("https://[bad"),
        Err(Error::UrlConstruction { path: "https://[bad".to_string() })
    );
}

#[test]
fn url_or_error_keeps_a_resolved_url() {
    assert_eq!(Octocrab::url_or_error("p", Some(url("https://x.example/p"))), Ok(url("https://x.example/p")));
    assert_eq!(Octocrab::url_or_error("p", None), Err(Error::UrlConstruction { path: "p".to_string() }));
}

#[test]
fn events_without_parameters_send_none() {
    let crab = crab();
    let sent = EventsBuilder::new(&crab).request().unwrap();
    assert_eq!(sent.request.method, Method::Get);
    assert_eq!(sent.request.url.as_str(), "https://api.example.com/events");
    assert!(sent.request.headers.is_empty());
    assert!(sent.request.query.is_empty());
    assert!(sent.request.body.is_none());
    assert_eq!(sent.etag, None);
}

#[test]
fn events_send_exactly_the_parameters_that_were_set() {
    let crab = crab();
    let sent = crab.events().per_page(2).page(1).request().unwrap();
    assert_eq!(sent.request.query, vec![("per_page".to_string(), 2u32), ("page".to_string(), 1u32)]);
    let sent = crab.events().page(7).request().unwrap();
    assert_eq!(sent.request.query, vec![("page".to_string(), 7u32)]);
    let sent = crab.events().per_page(100).request().unwrap();
    assert_eq!(sent.request.query, vec![("per_page".to_string(), 100u32)]);
}

#[test]
fn events_send_a_zero_that_was_set() {
    let crab = crab();
    let builder = crab.events().page(0).per_page(0);
    assert_eq!(builder.query(), vec![("per_page".to_string(), 0u32), ("page".to_string(), 0u32)]);
}

#[test]
fn the_last_value_set_wins() {
    let crab = crab();
    let sent = crab.events().page(3).per_page(10).page(4).per_page(255).request().unwrap();
    assert_eq!(sent.request.query, vec![("per_page".to_string(), 255u32), ("page".to_string(), 4u32)]);
    let sent = crab
        .events()
        .etag(Some(EntityTag::Strong("a".to_string())))
        .etag(None)
        .request()
        .unwrap();
    assert!(sent.request.headers.is_empty());
    assert_eq!(sent.etag, None);
}

#[test]
fn events_send_the_tag_that_was_set() {
    let crab = crab();
    let tag = EntityTag::Weak("v1".to_string());
    let sent = crab.events().etag(Some(tag.clone())).request().unwrap();
    assert_eq!(sent.request.headers.len(), 1);
    assert_eq!(sent.request.headers.get(IF_NONE_MATCH).unwrap().as_bytes(), b"W/\"v1\"");
    assert_eq!(sent.etag, Some(tag));
    assert!(sent.request.query.is_empty());
}

#[test]
fn events_fail_on_a_tag_that_no_header_can_hold() {
    let crab = crab();
    let outcome = crab.events().etag(Some(EntityTag::Strong("a\nb".to_string()))).per_page(5).request();
    assert_eq!(outcome, Err(Error::HeaderConstruction { value: "\"a\nb\"".to_string() }));
}

#[test]
fn events_fail_on_a_base_that_is_no_url() {
    let crab = Octocrab::new(url("mailto:nobody@example.com"));
    let outcome = crab.events().etag(Some(EntityTag::Strong("a\nb".to_string()))).request();
    assert_eq!(outcome, Err(Error::UrlConstruction { path: "events".to_string() }));
}

#[test]
fn events_request_to_takes_the_url_as_it_is() {
    let crab = crab();
    let sent = crab.events().page(2).request_to(url("https://other.example/events?x=1")).unwrap();
    assert_eq!(sent.request.url.as_str(), "https://other.example/events?x=1");
    assert_eq!(sent.request.query, vec![("page".to_string(), 2u32)]);
}

#[test]
fn create_sends_only_the_name_when_nothing_is_set() {
    let crab = crab();
    let handler = crab.current();
    let builder = handler.create_repo("demo".to_string());
    assert_eq!(body_text(&builder), "{\"name\":\"demo\"}");
}

#[test]
fn create_sends_a_false_that_was_set() {
    let crab = crab();
    let handler = CurrentAuthHandler { crab: &crab };
    let builder = CreateUserRepositoryBuilder::new(&handler, "demo".to_string()).private(false);
    let body = builder.body();
    assert_eq!(body.get("private"), Some(&serde_json::Value::Bool(false)));
    assert_eq!(body.len(), 2);
    assert_eq!(body_text(&builder), "{\"name\":\"demo\",\"private\":false}");
}

#[test]
fn create_sends_every_field_that_was_set() {
    let crab = crab();
    let handler = crab.current();
    let builder = handler
        .create_repo("demo".to_string())
        .description("A \"quoted\" text".to_string())
        .homepage("https://demo.example".to_string())
        .has_issues(true)
        .has_projects(false)
        .has_wiki(true)
        .auto_init(false)
        .gitignore_template("Rust".to_string())
        .license_template("mit".to_string())
        .private(true);
    let body = builder.body();
    assert_eq!(body.len(), 10);
    assert_eq!(body.get("name"), Some(&serde_json::Value::String("demo".to_string())));
    assert_eq!(body.get("description"), Some(&serde_json::Value::String("A \"quoted\" text".to_string())));
    assert_eq!(body.get("homepage"), Some(&serde_json::Value::String("https://demo.example".to_string())));
    assert_eq!(body.get("has_issues"), Some(&serde_json::Value::Bool(true)));
    assert_eq!(body.get("has_projects"), Some(&serde_json::Value::Bool(false)));
    assert_eq!(body.get("has_wiki"), Some(&serde_json::Value::Bool(true)));
    assert_eq!(body.get("auto_init"), Some(&serde_json::Value::Bool(false)));
    assert_eq!(body.get("gitignore_template"), Some(&serde_json::Value::String("Rust".to_string())));
    assert_eq!(body.get("license_template"), Some(&serde_json::Value::String("mit".to_string())));
    assert_eq!(body.get("private"), Some(&serde_json::Value::Bool(true)));
}

#[test]
fn create_leaves_out_each_field_that_was_not_set() {
    let crab = crab();
    let handler = crab.current();
    let builder = handler.create_repo("demo".to_string()).has_wiki(false).description(String::new());
    let body = builder.body();
    let keys: Vec<&String> = body.keys().collect();
    assert_eq!(keys, vec!["description", "has_wiki", "name"]);
    assert_eq!(body.get("description"), Some(&serde_json::Value::String(String::new())));
    assert_eq!(body.get("has_wiki"), Some(&serde_json::Value::Bool(false)));
    let text = body_text(&builder);
    for absent in ["homepage", "has_issues", "has_projects", "auto_init", "gitignore_template", "license_template", "private", "null"] {
        assert!(!text.contains(absent), "{absent}");
    }
}

#[test]
fn create_keeps_the_last_value_set() {
    let crab = crab();
    let handler = crab.current();
    let builder = handler
        .create_repo("demo".to_string())
        .private(true)
        .description("one".to_string())
        .private(false)
        .description("two".to_string());
    assert_eq!(body_text(&builder), "{\"description\":\"two\",\"name\":\"demo\",\"private\":false}");
}

#[test]
fn create_posts_to_the_endpoint_of_the_user() {
    let crab = crab();
    let handler = crab.current();
    let request = handler.create_repo("demo".to_string()).private(false).request().unwrap();
    assert_eq!(request.method, Method::Post);
    assert_eq!(request.url.as_str(), "https://api.example.com/user/repos");
    assert_eq!(request.headers.len(), 1);
    assert_eq!(request.headers.get(ACCEPT).unwrap().as_bytes(), b"application/vnd.github+json");
    assert!(request.query.is_empty());
    assert_eq!(serde_json::to_string(&request.body).unwrap(), "{\"name\":\"demo\",\"private\":false}");
}

#[test]
fn create_fails_on_a_base_that_is_no_url() {
    let crab = Octocrab::new(url("mailto:nobody@example.com"));
    let handler = crab.current();
    let outcome = handler.create_repo("demo".to_string()).request();
    assert_eq!(outcome, Err(Error::UrlConstruction { path: "user/repos".to_string() }));
}

#[test]
fn create_request_to_takes_the_url_as_it_is() {
    let crab = crab();
    let handler = crab.current();
    let request = handler.create_repo("demo".to_string()).request_to(url("https://other.example/x"));
    assert_eq!(request.url.as_str(), "https://other.example/x");
    assert_eq!(request.method, Method::Post);
}
