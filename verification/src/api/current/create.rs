//! Creating a repository for the authenticated user.

use crate::client::{CurrentAuthHandler, Method, Request};
use crate::error::{text_view, Error, ErrorView};
use crate::header::{
    header_bytes_accepted, header_entries, header_map_new, header_map_put,
    header_value_from_str, no_headers,
};
use crate::json::{
    json_from_flag, json_from_text, json_members, json_object_new, json_put, no_members,
    JsonContent,
};
use crate::url::{joined_url, url_text};
use vstd::prelude::*;
use vstd::utf8::{encode_utf8, is_ascii_chars, is_ascii_chars_encode_utf8};

verus! {

/// Collects the fields of a repository to create, and issues the request.
/// Only the name is required; every other field is sent only if it was set.
pub struct CreateUserRepositoryBuilder<'octo, 'r> {
    handler: &'r CurrentAuthHandler<'octo>,
    name: String,
    description: Option<String>,
    homepage: Option<String>,
    has_issues: Option<bool>,
    has_projects: Option<bool>,
    has_wiki: Option<bool>,
    auto_init: Option<bool>,
    gitignore_template: Option<String>,
    license_template: Option<String>,
    private: Option<bool>,
}

/// What a [`CreateUserRepositoryBuilder`] has been given so far.
pub struct CreateView {
    pub base_url: Seq<char>,
    pub name: Seq<char>,
    pub description: Option<Seq<char>>,
    pub homepage: Option<Seq<char>>,
    pub has_issues: Option<bool>,
    pub has_projects: Option<bool>,
    pub has_wiki: Option<bool>,
    pub auto_init: Option<bool>,
    pub gitignore_template: Option<Seq<char>>,
    pub license_template: Option<Seq<char>>,
    pub private: Option<bool>,
}

impl<'octo, 'r> View for CreateUserRepositoryBuilder<'octo, 'r> {
    type V = CreateView;

    closed spec fn view(&self) -> CreateView {
        CreateView {
            base_url: url_text(self.handler.crab.base_url),
            name: self.name@,
            description: text_view(self.description),
            homepage: text_view(self.homepage),
            has_issues: self.has_issues,
            has_projects: self.has_projects,
            has_wiki: self.has_wiki,
            auto_init: self.auto_init,
            gitignore_template: text_view(self.gitignore_template),
            license_template: text_view(self.license_template),
            private: self.private,
        }
    }
}

/// A request to create `name` for the client at `base_url`, with nothing
/// else set.
pub open spec fn create_unset(base_url: Seq<char>, name: Seq<char>) -> CreateView {
    CreateView {
        base_url,
        name,
        description: None,
        homepage: None,
        has_issues: None,
        has_projects: None,
        has_wiki: None,
        auto_init: None,
        gitignore_template: None,
        license_template: None,
        private: None,
    }
}

/// The path of the endpoint.
pub open spec fn create_path() -> Seq<char> {
    "user/repos"@
}

/// The media type that the request asks for.
pub open spec fn accepted_media() -> Seq<char> {
    "application/vnd.github+json"@
}

/// `members` with the string `value` under `key`, if there is a value.
pub open spec fn with_text(
    members: Map<Seq<char>, JsonContent>,
    key: Seq<char>,
    value: Option<Seq<char>>,
) -> Map<Seq<char>, JsonContent> {
    match value {
        Some(text) => members.insert(key, JsonContent::Text(text)),
        None => members,
    }
}

/// `members` with the boolean `value` under `key`, if there is a value.
pub open spec fn with_flag(
    members: Map<Seq<char>, JsonContent>,
    key: Seq<char>,
    value: Option<bool>,
) -> Map<Seq<char>, JsonContent> {
    match value {
        Some(flag) => members.insert(key, JsonContent::Flag(flag)),
        None => members,
    }
}

/// The members of the body: the name, and each other field that was set.
pub open spec fn create_body(builder: CreateView) -> Map<Seq<char>, JsonContent> {
    let m = no_members().insert("name"@, JsonContent::Text(builder.name));
    let m = with_text(m, "description"@, builder.description);
    let m = with_text(m, "homepage"@, builder.homepage);
    let m = with_flag(m, "has_issues"@, builder.has_issues);
    let m = with_flag(m, "has_projects"@, builder.has_projects);
    let m = with_flag(m, "has_wiki"@, builder.has_wiki);
    let m = with_flag(m, "auto_init"@, builder.auto_init);
    let m = with_text(m, "gitignore_template"@, builder.gitignore_template);
    let m = with_text(m, "license_template"@, builder.license_template);
    with_flag(m, "private"@, builder.private)
}

/// The headers of the request: `accept` with the media type of the API.
pub open spec fn create_headers() -> Map<Seq<char>, Seq<u8>> {
    no_headers().insert("accept"@, encode_utf8(accepted_media()))
}

/// `request` is the request that the builder issues to `url`.
pub open spec fn create_request(builder: CreateView, url: Seq<char>, request: Request) -> bool {
    &&& request.method == Method::Post
    &&& url_text(request.url) == url
    &&& header_entries(request.headers) == create_headers()
    &&& request.query@.len() == 0
    &&& request.body matches Some(object) && json_members(object) == create_body(builder)
}

/// What a string member of the body must be for a field: there with the
/// value of the field if it was set, not there at all if it was not.
pub open spec fn text_member_matches(
    body: Map<Seq<char>, JsonContent>,
    key: Seq<char>,
    field: Option<Seq<char>>,
) -> bool {
    match field {
        Some(text) => body.contains_key(key) && body[key] == JsonContent::Text(text),
        None => !body.contains_key(key),
    }
}

/// What a boolean member of the body must be for a field: there with the
/// value of the field if it was set, `false` too, and not there at all if it
/// was not.
pub open spec fn flag_member_matches(
    body: Map<Seq<char>, JsonContent>,
    key: Seq<char>,
    field: Option<bool>,
) -> bool {
    match field {
        Some(flag) => body.contains_key(key) && body[key] == JsonContent::Flag(flag),
        None => !body.contains_key(key),
    }
}

/// The keys that the body can hold.
pub open spec fn create_keys() -> Set<Seq<char>> {
    set![
        "name"@,
        "description"@,
        "homepage"@,
        "has_issues"@,
        "has_projects"@,
        "has_wiki"@,
        "auto_init"@,
        "gitignore_template"@,
        "license_template"@,
        "private"@,
    ]
}

/// The ten keys of the body are different texts.
proof fn lemma_keys_differ()
    ensures
        "name"@.len() == 4,
        "description"@.len() == 11,
        "homepage"@.len() == 8 && "homepage"@[1] == 'o',
        "has_issues"@.len() == 10,
        "has_projects"@.len() == 12,
        "has_wiki"@.len() == 8 && "has_wiki"@[1] == 'a',
        "auto_init"@.len() == 9,
        "gitignore_template"@.len() == 18,
        "license_template"@.len() == 16,
        "private"@.len() == 7,
{
    reveal_strlit("name");
    reveal_strlit("description");
    reveal_strlit("homepage");
    reveal_strlit("has_issues");
    reveal_strlit("has_projects");
    reveal_strlit("has_wiki");
    reveal_strlit("auto_init");
    reveal_strlit("gitignore_template");
    reveal_strlit("license_template");
    reveal_strlit("private");
}

/// The body holds each field that was set, under its own key and with the
/// value it was set to, and holds nothing for a field that was not set: no
/// key of the body stands for anything else.
pub proof fn lemma_body_holds_what_was_set(builder: CreateView)
    ensures
        text_member_matches(create_body(builder), "name"@, Some(builder.name)),
        text_member_matches(create_body(builder), "description"@, builder.description),
        text_member_matches(create_body(builder), "homepage"@, builder.homepage),
        flag_member_matches(create_body(builder), "has_issues"@, builder.has_issues),
        flag_member_matches(create_body(builder), "has_projects"@, builder.has_projects),
        flag_member_matches(create_body(builder), "has_wiki"@, builder.has_wiki),
        flag_member_matches(create_body(builder), "auto_init"@, builder.auto_init),
        text_member_matches(
            create_body(builder),
            "gitignore_template"@,
            builder.gitignore_template,
        ),
        text_member_matches(create_body(builder), "license_template"@, builder.license_template),
        flag_member_matches(create_body(builder), "private"@, builder.private),
        create_body(builder).dom().subset_of(create_keys()),
{
    lemma_keys_differ();
}

/// The media type is made of bytes that a header value may hold.
proof fn lemma_media_accepted()
    ensures
        header_bytes_accepted(encode_utf8(accepted_media())),
{
    reveal_strlit("application/vnd.github+json");
    assert(is_ascii_chars(accepted_media()));
    is_ascii_chars_encode_utf8(accepted_media());
    let bytes = encode_utf8(accepted_media());
    assert forall|i: int| 0 <= i < bytes.len() implies crate::header::header_byte_accepted(
        #[trigger] bytes[i],
    ) by {
        assert(bytes[i] == accepted_media()[i] as u8);
    }
}

impl<'octo, 'r> CreateUserRepositoryBuilder<'octo, 'r> {
    /// A request to create the repository `name`, with nothing else set.
    pub fn new(handler: &'r CurrentAuthHandler<'octo>, name: String) -> (builder: Self)
        ensures
            builder@ == create_unset(url_text(handler.crab.base_url), name@),
    {
        Self {
            handler,
            name,
            description: None,
            homepage: None,
            has_issues: None,
            has_projects: None,
            has_wiki: None,
            auto_init: None,
            gitignore_template: None,
            license_template: None,
            private: None,
        }
    }

    /// A short description of the repository.
    pub fn description(self, description: String) -> (builder: Self)
        ensures
            builder@ == (CreateView { description: Some(description@), ..self@ }),
    {
        let mut builder = self;
        builder.description = Some(description);
        builder
    }

    /// A URL with more information about the repository.
    pub fn homepage(self, homepage: String) -> (builder: Self)
        ensures
            builder@ == (CreateView { homepage: Some(homepage@), ..self@ }),
    {
        let mut builder = self;
        builder.homepage = Some(homepage);
        builder
    }

    /// Whether issues are enabled.
    pub fn has_issues(self, has_issues: bool) -> (builder: Self)
        ensures
            builder@ == (CreateView { has_issues: Some(has_issues), ..self@ }),
    {
        let mut builder = self;
        builder.has_issues = Some(has_issues);
        builder
    }

    /// Whether projects are enabled.
    pub fn has_projects(self, has_projects: bool) -> (builder: Self)
        ensures
            builder@ == (CreateView { has_projects: Some(has_projects), ..self@ }),
    {
        let mut builder = self;
        builder.has_projects = Some(has_projects);
        builder
    }

    /// Whether the wiki is enabled.
    pub fn has_wiki(self, has_wiki: bool) -> (builder: Self)
        ensures
            builder@ == (CreateView { has_wiki: Some(has_wiki), ..self@ }),
    {
        let mut builder = self;
        builder.has_wiki = Some(has_wiki);
        builder
    }

    /// Whether the repository is initialized with a minimal README.
    pub fn auto_init(self, auto_init: bool) -> (builder: Self)
        ensures
            builder@ == (CreateView { auto_init: Some(auto_init), ..self@ }),
    {
        let mut builder = self;
        builder.auto_init = Some(auto_init);
        builder
    }

    /// The desired language or platform to apply to the .gitignore.
    pub fn gitignore_template(self, gitignore_template: String) -> (builder: Self)
        ensures
            builder@ == (CreateView { gitignore_template: Some(gitignore_template@), ..self@ }),
    {
        let mut builder = self;
        builder.gitignore_template = Some(gitignore_template);
        builder
    }

    /// The license keyword of the open source license for this repository.
    pub fn license_template(self, license_template: String) -> (builder: Self)
        ensures
            builder@ == (CreateView { license_template: Some(license_template@), ..self@ }),
    {
        let mut builder = self;
        builder.license_template = Some(license_template);
        builder
    }

    /// Whether the repository is private.
    pub fn private(self, private: bool) -> (builder: Self)
        ensures
            builder@ == (CreateView { private: Some(private), ..self@ }),
    {
        let mut builder = self;
        builder.private = Some(private);
        builder
    }

    /// The JSON object of the body: the name, and each field that was set,
    /// with the value it was set to. A field that was not set is left out.
    pub fn body(&self) -> (object: serde_json::Map<String, serde_json::Value>)
        ensures
            json_members(object) == create_body(self@),
    {
        let mut object = json_object_new();
        json_put(&mut object, "name", json_from_text(self.name.as_str()));
        if let Some(text) = &self.description {
            json_put(&mut object, "description", json_from_text(text.as_str()));
        }
        if let Some(text) = &self.homepage {
            json_put(&mut object, "homepage", json_from_text(text.as_str()));
        }
        if let Some(flag) = self.has_issues {
            json_put(&mut object, "has_issues", json_from_flag(flag));
        }
        if let Some(flag) = self.has_projects {
            json_put(&mut object, "has_projects", json_from_flag(flag));
        }
        if let Some(flag) = self.has_wiki {
            json_put(&mut object, "has_wiki", json_from_flag(flag));
        }
        if let Some(flag) = self.auto_init {
            json_put(&mut object, "auto_init", json_from_flag(flag));
        }
        if let Some(text) = &self.gitignore_template {
            json_put(&mut object, "gitignore_template", json_from_text(text.as_str()));
        }
        if let Some(text) = &self.license_template {
            json_put(&mut object, "license_template", json_from_text(text.as_str()));
        }
        if let Some(flag) = self.private {
            json_put(&mut object, "private", json_from_flag(flag));
        }
        object
    }

    /// Issues the request to `url`, which must be the resolved URL of the
    /// endpoint: a `POST` that accepts the media type of the API and carries
    /// the body of [`CreateUserRepositoryBuilder::body`].
    pub fn request_to(self, url: reqwest::Url) -> (request: Request)
        ensures
            create_request(self@, url_text(url), request),
            request.url == url,
    {
        let body = self.body();
        let mut headers = header_map_new();
        proof {
            lemma_media_accepted();
        }
        if let Some(value) = header_value_from_str("application/vnd.github+json") {
            let stored = header_map_put(&mut headers, "accept", value);
            assert(stored);
        }
        Request { method: Method::Post, url, headers, query: Vec::new(), body: Some(body) }
    }

    /// Issues the request: resolves `user/repos` against the base URL of the
    /// client and goes on as [`CreateUserRepositoryBuilder::request_to`].
    /// Fails with `UrlConstruction` exactly when the URL does not resolve.
    pub fn request(self) -> (outcome: Result<Request, Error>)
        ensures
            match joined_url(self@.base_url, create_path()) {
                Some(url) => outcome matches Ok(request) && create_request(self@, url, request),
                None => outcome matches Err(e) && e@ == (ErrorView::UrlConstruction {
                    path: create_path(),
                }),
            },
    {
        match self.handler.crab.absolute_url("user/repos") {
            Ok(url) => Ok(self.request_to(url)),
            Err(e) => Err(e),
        }
    }
}

} // verus!
