//! The Klondike adapters: what each store operation sends to a Klondike
//! server. The caller sends the request and reads the JSON answer.

use vstd::prelude::*;
use crate::ids::{uuid_text, uuid_to_string};
use crate::json::{
    encode_object, json_object, json_opt_string, json_quote, json_string, member_views,
    opt_string_text, opt_view,
};
use crate::channels::ChannelStore;
use crate::issues::IssueStore;
use crate::artifacts::ArtifactStore;

verus! {

/// The HTTP methods the adapters use.
#[derive(Clone, Copy, Debug, PartialEq, Eq, Structural)]
pub enum HttpMethod {
    Get,
    Post,
    Put,
}

/// A request to a Klondike server: method, full URL and, for writes, the
/// JSON body.
#[derive(Debug)]
pub struct HttpRequest {
    pub method: HttpMethod,
    pub url: String,
    pub body: Option<String>,
}

/// A request as plain values.
pub struct HttpRequestView {
    pub method: HttpMethod,
    pub url: Seq<char>,
    pub body: Option<Seq<char>>,
}

impl View for HttpRequest {
    type V = HttpRequestView;

    open spec fn view(&self) -> HttpRequestView {
        HttpRequestView {
            method: self.method,
            url: self.url@,
            body: match self.body {
                Some(b) => Some(b@),
                None => None,
            },
        }
    }
}

/// A `GET` of `url`.
pub open spec fn get_of(url: Seq<char>) -> HttpRequestView {
    HttpRequestView { method: HttpMethod::Get, url: url, body: None }
}

/// A `POST` of `body` to `url`.
pub open spec fn post_of(url: Seq<char>, body: Seq<char>) -> HttpRequestView {
    HttpRequestView { method: HttpMethod::Post, url: url, body: Some(body) }
}

/// A `PUT` of `body` to `url`.
pub open spec fn put_of(url: Seq<char>, body: Seq<char>) -> HttpRequestView {
    HttpRequestView { method: HttpMethod::Put, url: url, body: Some(body) }
}

/// `s` without the `/` characters at its end.
pub open spec fn trim_trailing_slashes(s: Seq<char>) -> Seq<char>
    decreases s.len(),
{
    if s.len() > 0 && s.last() == '/' {
        trim_trailing_slashes(s.drop_last())
    } else {
        s
    }
}

/// Trailing slashes make no difference to the server a store talks to:
/// trimming is idempotent, leaves no `/` at the end, and a base with one more
/// `/` gives the same address.
pub proof fn law_trailing_slashes(s: Seq<char>)
    ensures
        trim_trailing_slashes(trim_trailing_slashes(s)) == trim_trailing_slashes(s),
        trim_trailing_slashes(s).len() > 0 ==> trim_trailing_slashes(s).last() != '/',
        trim_trailing_slashes(s.push('/')) == trim_trailing_slashes(s),
    decreases s.len(),
{
    assert(s.push('/').drop_last() =~= s);
    if s.len() > 0 && s.last() == '/' {
        law_trailing_slashes(s.drop_last());
    }
}

/// The URL of `path` under the API root of the server at `base`.
pub open spec fn api_url(base: Seq<char>, path: Seq<char>) -> Seq<char> {
    base + "/api/v1"@ + path
}

/// `/channels`
pub open spec fn channels_path() -> Seq<char> {
    "/channels"@
}

/// `/channels/<id>`
pub open spec fn channel_path(id: u128) -> Seq<char> {
    "/channels/"@ + uuid_text(id)
}

/// `/channels/<id>/threads`
pub open spec fn channel_threads_path(id: u128) -> Seq<char> {
    channel_path(id) + "/threads"@
}

/// `/threads/<id>`
pub open spec fn thread_path(id: u128) -> Seq<char> {
    "/threads/"@ + uuid_text(id)
}

/// `/threads/<id>/posts`
pub open spec fn thread_posts_path(id: u128) -> Seq<char> {
    thread_path(id) + "/posts"@
}

/// `/issues`
pub open spec fn issues_path() -> Seq<char> {
    "/issues"@
}

/// `/issues/<id>`
pub open spec fn issue_path(id: u128) -> Seq<char> {
    "/issues/"@ + uuid_text(id)
}

/// `/issues/<id>/status`
pub open spec fn issue_status_path(id: u128) -> Seq<char> {
    issue_path(id) + "/status"@
}

/// `/issues/<id>/events`
pub open spec fn issue_events_path(id: u128) -> Seq<char> {
    issue_path(id) + "/events"@
}

/// `/artifacts`
pub open spec fn artifacts_path() -> Seq<char> {
    "/artifacts"@
}

/// `/artifacts/<id>`
pub open spec fn artifact_path(id: u128) -> Seq<char> {
    "/artifacts/"@ + uuid_text(id)
}

/// `s` without the `/` characters at its end.
pub fn trim_end_slashes(s: &str) -> (r: String)
    ensures
        r@ == trim_trailing_slashes(s@),
{
    let n = s.unicode_len();
    let mut k: usize = n;
    proof {
        assert(s@.subrange(0, k as int) =~= s@);
    }
    while k > 0 && s.get_char(k - 1) == '/'
        invariant
            k <= n,
            n == s@.len(),
            trim_trailing_slashes(s@) == trim_trailing_slashes(s@.subrange(0, k as int)),
        decreases k,
    {
        proof {
            let t = s@.subrange(0, k as int);
            assert(t.last() == '/');
            assert(t.drop_last() =~= s@.subrange(0, k - 1));
        }
        k = k - 1;
    }
    s.substring_char(0, k).to_owned()
}

/// The full URL of `path` under the API root of `base`.
fn api_url_of(base: &String, path: String) -> (r: String)
    ensures
        r@ == api_url(base@, path@),
{
    base.clone().concat("/api/v1").concat(path.as_str())
}

/// `<prefix><id>`
fn with_id(prefix: &str, id: u128) -> (r: String)
    ensures
        r@ == prefix@ + uuid_text(id),
{
    let id_text = uuid_to_string(id);
    prefix.to_owned().concat(id_text.as_str())
}

/// `<prefix><id><suffix>`
fn with_id_and(prefix: &str, id: u128, suffix: &str) -> (r: String)
    ensures
        r@ == prefix@ + uuid_text(id) + suffix@,
{
    with_id(prefix, id).concat(suffix)
}

fn get_request(url: String) -> (r: HttpRequest)
    ensures
        r@ == get_of(url@),
{
    HttpRequest { method: HttpMethod::Get, url, body: None }
}

fn post_request(url: String, body: String) -> (r: HttpRequest)
    ensures
        r@ == post_of(url@, body@),
{
    HttpRequest { method: HttpMethod::Post, url, body: Some(body) }
}

fn put_request(url: String, body: String) -> (r: HttpRequest)
    ensures
        r@ == put_of(url@, body@),
{
    HttpRequest { method: HttpMethod::Put, url, body: Some(body) }
}

/// The JSON object `{"<k1>":"<v1>","<k2>":"<v2>"}`.
fn object2(k1: &str, v1: &str, k2: &str, v2: &str) -> (r: String)
    ensures
        r@ == json_object(seq![(k1@, json_string(v1@)), (k2@, json_string(v2@))]),
{
    let mut fields: Vec<(&str, String)> = Vec::new();
    fields.push((k1, json_quote(v1)));
    fields.push((k2, json_quote(v2)));
    assert(member_views(fields@) =~= seq![(k1@, json_string(v1@)), (k2@, json_string(v2@))]);
    encode_object(&fields)
}

// ---------------------------------------------------------------------------
// Channels
// ---------------------------------------------------------------------------

/// The channel store of a Klondike server.
pub struct KlondikeChannelStore {
    base_url: String,
}

impl View for KlondikeChannelStore {
    type V = Seq<char>;

    /// The server's address, without trailing `/`.
    closed spec fn view(&self) -> Seq<char> {
        self.base_url@
    }
}

impl ChannelStore for KlondikeChannelStore {}

impl KlondikeChannelStore {
    /// A store for the server at `base_url`; trailing `/` are dropped.
    pub fn new(base_url: &str) -> (s: Self)
        ensures
            s@ == trim_trailing_slashes(base_url@),
    {
        KlondikeChannelStore { base_url: trim_end_slashes(base_url) }
    }

    /// `GET /api/v1/channels`
    pub fn list_channels_request(&self) -> (r: HttpRequest)
        ensures
            r@ == get_of(api_url(self@, channels_path())),
    {
        get_request(api_url_of(&self.base_url, "/channels".to_owned()))
    }

    /// `GET /api/v1/channels/<id>`
    pub fn get_channel_request(&self, id: u128) -> (r: HttpRequest)
        ensures
            r@ == get_of(api_url(self@, channel_path(id))),
    {
        get_request(api_url_of(&self.base_url, with_id("/channels/", id)))
    }

    /// `POST /api/v1/channels` with `{"description":..,"name":..}`
    pub fn create_channel_request(&self, name: &str, description: &str) -> (r: HttpRequest)
        ensures
            r@ == post_of(
                api_url(self@, channels_path()),
                json_object(
                    seq![
                        ("description"@, json_string(description@)),
                        ("name"@, json_string(name@)),
                    ],
                ),
            ),
    {
        let body = object2("description", description, "name", name);
        post_request(api_url_of(&self.base_url, "/channels".to_owned()), body)
    }

    /// `GET /api/v1/channels/<channel_id>/threads`
    pub fn list_threads_request(&self, channel_id: u128) -> (r: HttpRequest)
        ensures
            r@ == get_of(api_url(self@, channel_threads_path(channel_id))),
    {
        get_request(api_url_of(&self.base_url, with_id_and("/channels/", channel_id, "/threads")))
    }

    /// `GET /api/v1/threads/<id>`
    pub fn get_thread_request(&self, id: u128) -> (r: HttpRequest)
        ensures
            r@ == get_of(api_url(self@, thread_path(id))),
    {
        get_request(api_url_of(&self.base_url, with_id("/threads/", id)))
    }

    /// `POST /api/v1/channels/<channel_id>/threads` with
    /// `{"author":..,"title":..}`
    pub fn create_thread_request(&self, channel_id: u128, title: &str, author: &str) -> (r:
        HttpRequest)
        ensures
            r@ == post_of(
                api_url(self@, channel_threads_path(channel_id)),
                json_object(seq![("author"@, json_string(author@)), ("title"@, json_string(title@))]),
            ),
    {
        let body = object2("author", author, "title", title);
        post_request(
            api_url_of(&self.base_url, with_id_and("/channels/", channel_id, "/threads")),
            body,
        )
    }

    /// `GET /api/v1/threads/<thread_id>/posts`
    pub fn list_posts_request(&self, thread_id: u128) -> (r: HttpRequest)
        ensures
            r@ == get_of(api_url(self@, thread_posts_path(thread_id))),
    {
        get_request(api_url_of(&self.base_url, with_id_and("/threads/", thread_id, "/posts")))
    }

    /// `POST /api/v1/threads/<thread_id>/posts` with
    /// `{"author":..,"content":..}`
    pub fn create_post_request(&self, thread_id: u128, author: &str, content: &str) -> (r:
        HttpRequest)
        ensures
            r@ == post_of(
                api_url(self@, thread_posts_path(thread_id)),
                json_object(
                    seq![("author"@, json_string(author@)), ("content"@, json_string(content@))],
                ),
            ),
    {
        let body = object2("author", author, "content", content);
        post_request(
            api_url_of(&self.base_url, with_id_and("/threads/", thread_id, "/posts")),
            body,
        )
    }
}

// ---------------------------------------------------------------------------
// Issues
// ---------------------------------------------------------------------------

/// The issue store of a Klondike server.
pub struct KlondikeIssueStore {
    base_url: String,
}

impl View for KlondikeIssueStore {
    type V = Seq<char>;

    /// The server's address, without trailing `/`.
    closed spec fn view(&self) -> Seq<char> {
        self.base_url@
    }
}

impl IssueStore for KlondikeIssueStore {}

impl KlondikeIssueStore {
    /// A store for the server at `base_url`; trailing `/` are dropped.
    pub fn new(base_url: &str) -> (s: Self)
        ensures
            s@ == trim_trailing_slashes(base_url@),
    {
        KlondikeIssueStore { base_url: trim_end_slashes(base_url) }
    }

    /// `GET /api/v1/issues`
    pub fn list_issues_request(&self) -> (r: HttpRequest)
        ensures
            r@ == get_of(api_url(self@, issues_path())),
    {
        get_request(api_url_of(&self.base_url, "/issues".to_owned()))
    }

    /// `GET /api/v1/issues/<id>`
    pub fn get_issue_request(&self, id: u128) -> (r: HttpRequest)
        ensures
            r@ == get_of(api_url(self@, issue_path(id))),
    {
        get_request(api_url_of(&self.base_url, with_id("/issues/", id)))
    }

    /// `POST /api/v1/issues` with `{"description":..,"title":..}`
    pub fn create_issue_request(&self, title: &str, description: &str) -> (r: HttpRequest)
        ensures
            r@ == post_of(
                api_url(self@, issues_path()),
                json_object(
                    seq![
                        ("description"@, json_string(description@)),
                        ("title"@, json_string(title@)),
                    ],
                ),
            ),
    {
        let body = object2("description", description, "title", title);
        post_request(api_url_of(&self.base_url, "/issues".to_owned()), body)
    }

    /// `PUT /api/v1/issues/<id>/status` with `{"note":..,"status":..}`, the
    /// note being `null` where there is none.
    pub fn update_issue_status_request(&self, id: u128, status: &str, note: &Option<String>) -> (r:
        HttpRequest)
        ensures
            r@ == put_of(
                api_url(self@, issue_status_path(id)),
                json_object(
                    seq![
                        ("note"@, json_opt_string(opt_view(*note))),
                        ("status"@, json_string(status@)),
                    ],
                ),
            ),
    {
        let mut fields: Vec<(&str, String)> = Vec::new();
        fields.push(("note", opt_string_text(note)));
        fields.push(("status", json_quote(status)));
        assert(member_views(fields@) =~= seq![
            ("note"@, json_opt_string(opt_view(*note))),
            ("status"@, json_string(status@)),
        ]);
        let body = encode_object(&fields);
        put_request(api_url_of(&self.base_url, with_id_and("/issues/", id, "/status")), body)
    }

    /// `GET /api/v1/issues/<issue_id>/events`
    pub fn list_events_request(&self, issue_id: u128) -> (r: HttpRequest)
        ensures
            r@ == get_of(api_url(self@, issue_events_path(issue_id))),
    {
        get_request(api_url_of(&self.base_url, with_id_and("/issues/", issue_id, "/events")))
    }
}

// ---------------------------------------------------------------------------
// Artifacts
// ---------------------------------------------------------------------------

/// The artifact store of a Klondike server.
pub struct KlondikeArtifactStore {
    base_url: String,
}

impl View for KlondikeArtifactStore {
    type V = Seq<char>;

    /// The server's address, without trailing `/`.
    closed spec fn view(&self) -> Seq<char> {
        self.base_url@
    }
}

impl ArtifactStore for KlondikeArtifactStore {}

impl KlondikeArtifactStore {
    /// A store for the server at `base_url`; trailing `/` are dropped.
    pub fn new(base_url: &str) -> (s: Self)
        ensures
            s@ == trim_trailing_slashes(base_url@),
    {
        KlondikeArtifactStore { base_url: trim_end_slashes(base_url) }
    }

    /// `GET /api/v1/artifacts`
    pub fn list_artifacts_request(&self) -> (r: HttpRequest)
        ensures
            r@ == get_of(api_url(self@, artifacts_path())),
    {
        get_request(api_url_of(&self.base_url, "/artifacts".to_owned()))
    }

    /// `GET /api/v1/artifacts/<id>`
    pub fn get_artifact_request(&self, id: u128) -> (r: HttpRequest)
        ensures
            r@ == get_of(api_url(self@, artifact_path(id))),
    {
        get_request(api_url_of(&self.base_url, with_id("/artifacts/", id)))
    }

    /// `POST /api/v1/artifacts` with the five fields of the artifact, keys in
    /// alphabetical order.
    pub fn create_artifact_request(
        &self,
        name: &str,
        version: &str,
        source_type: &str,
        source_location: &str,
        content_type: &str,
    ) -> (r: HttpRequest)
        ensures
            r@ == post_of(
                api_url(self@, artifacts_path()),
                json_object(
                    seq![
                        ("content_type"@, json_string(content_type@)),
                        ("name"@, json_string(name@)),
                        ("source_location"@, json_string(source_location@)),
                        ("source_type"@, json_string(source_type@)),
                        ("version"@, json_string(version@)),
                    ],
                ),
            ),
    {
        let mut fields: Vec<(&str, String)> = Vec::new();
        fields.push(("content_type", json_quote(content_type)));
        fields.push(("name", json_quote(name)));
        fields.push(("source_location", json_quote(source_location)));
        fields.push(("source_type", json_quote(source_type)));
        fields.push(("version", json_quote(version)));
        assert(member_views(fields@) =~= seq![
            ("content_type"@, json_string(content_type@)),
            ("name"@, json_string(name@)),
            ("source_location"@, json_string(source_location@)),
            ("source_type"@, json_string(source_type@)),
            ("version"@, json_string(version@)),
        ]);
        let body = encode_object(&fields);
        post_request(api_url_of(&self.base_url, "/artifacts".to_owned()), body)
    }
}

} // verus!
