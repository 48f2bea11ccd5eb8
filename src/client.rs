//! The client: its construction and the request that each operation sends.
use vstd::prelude::*;
use vstd::string::{StringExecFns, StringSliceAdditionalSpecFns};
use reqwest::header::HeaderMap;
use url::Url;
use reqwest::Client as HttpClient;
use crate::error::QStashError;
use crate::headers::{
    empty_header_map, header_entries, insert_header, sensitive_names, valid_header_byte,
    valid_header_bytes,
};
use crate::message::{custom_fits, custom_sensitive, settings_entries, settings_valid, MessageSettings};
use crate::text::{decimal_of, decimal_text, lemma_encode_utf8_concat};

verus! {

#[verifier::external_type_specification]
#[verifier::external_body]
pub struct ExHttpClient(HttpClient);

#[verifier::external_type_specification]
#[verifier::external_body]
pub struct ExUrl(Url);

#[verifier::external_type_specification]
#[verifier::external_body]
pub struct ExJsonValue(serde_json::Value);

/// Address of the service's API: every endpoint is resolved against it.
pub const BASE_URL: &'static str = "https://qstash.upstash.io/v1/";

/// Header that carries the credentials of every request.
pub const AUTHORIZATION_HEADER: &'static str = "authorization";

/// The text of the address that `Url::parse` makes of `s`, where it accepts it.
pub uninterp spec fn url_parsed(s: Seq<char>) -> Option<Seq<char>>;

/// Relies on `Url::parse`; whether it succeeds, and the address it makes,
/// depend on the text alone.
#[verifier::external_body]
fn parse_url(s: &str) -> (r: Result<String, url::ParseError>)
    ensures
        r is Ok <==> url_parsed(s@) is Some,
        r is Ok ==> r->Ok_0@ == url_parsed(s@)->Some_0,
{
    Url::parse(s).map(String::from)
}

/// The text of the address that `Url::join` resolves the relative reference
/// `input` to against the address `base`, where both parse.
pub uninterp spec fn url_joined(base: Seq<char>, input: Seq<char>) -> Option<Seq<char>>;

/// Relies on `Url::join` of the address that `base` spells; the outcome
/// depends on the two texts alone.
#[verifier::external_body]
fn join_url(base: &str, input: &str) -> (r: Result<String, url::ParseError>)
    ensures
        r is Ok <==> url_joined(base@, input@) is Some,
        r is Ok ==> r->Ok_0@ == url_joined(base@, input@)->Some_0,
{
    Ok(Url::parse(base)?.join(input)?.into())
}

/// The text of the address `url` with its query replaced by `query`, where
/// `url` parses.
pub uninterp spec fn url_with_query(url: Seq<char>, query: Seq<char>) -> Option<Seq<char>>;

/// Relies on `Url::set_query` on the address that `url` spells; the outcome
/// depends on the two texts alone.
#[verifier::external_body]
fn set_url_query(url: &str, query: &str) -> (r: Result<String, url::ParseError>)
    ensures
        r is Ok <==> url_with_query(url@, query@) is Some,
        r is Ok ==> r->Ok_0@ == url_with_query(url@, query@)->Some_0,
{
    let mut u = Url::parse(url)?;
    u.set_query(Some(query));
    Ok(u.into())
}

/// Relies on `reqwest::ClientBuilder`: a transport that sends `headers` with
/// every request. Building it may fail, for reasons of the machine.
#[verifier::external_body]
fn build_http(headers: HeaderMap) -> (r: Result<HttpClient, reqwest::Error>) {
    HttpClient::builder().default_headers(headers).build()
}

/// The HTTP method of a request.
#[derive(Clone, Copy, Debug, PartialEq, Eq, Structural)]
pub enum Method {
    Get,
    Post,
    Delete,
}

/// One request to the service, ready to be sent: `url` is the text of the
/// address that `path` resolves to against the client's base address, with
/// `query` as its query.
#[derive(Debug)]
pub struct Request {
    pub method: Method,
    pub path: String,
    pub query: Option<String>,
    pub url: String,
    pub headers: HeaderMap,
    pub body: Option<serde_json::Value>,
}

pub open spec fn opt_view(o: Option<String>) -> Option<Seq<char>> {
    match o {
        Some(s) => Some(s@),
        None => None,
    }
}

pub open spec fn quota_path() -> Seq<char> {
    "quota"@
}

pub open spec fn message_path(id: Seq<char>) -> Seq<char> {
    "messages/"@ + id
}

pub open spec fn tasks_path(id: Seq<char>) -> Seq<char> {
    "messages/"@ + id + "/tasks"@
}

pub open spec fn publish_path(target: Seq<char>) -> Seq<char> {
    "publish/"@ + target
}

/// The query of a task listing: the cursor to go on from, if any.
pub open spec fn tasks_query(cursor: Option<i64>) -> Option<Seq<char>> {
    match cursor {
        Some(c) => Some("cursor="@ + decimal_of(c as int)),
        None => None,
    }
}

/// The bytes of the authorization value that a token gives.
pub open spec fn bearer_bytes(token: &str) -> Seq<u8> {
    vstd::utf8::encode_utf8("Bearer "@ + token@)
}

/// The address that `path` resolves to against `base`, with `query`.
pub open spec fn resolved(base: Seq<char>, path: Seq<char>, query: Option<Seq<char>>) -> Option<
    Seq<char>,
> {
    match url_joined(base, path) {
        Some(u) => match query {
            Some(q) => url_with_query(u, q),
            None => Some(u),
        },
        None => None,
    }
}

/// The request asked for, addressed to `path` resolved against `base` with
/// `query`; a `UrlError` exactly when that address cannot be formed.
pub open spec fn planned(
    r: Result<Request, QStashError>,
    base: Seq<char>,
    method: Method,
    path: Seq<char>,
    query: Option<Seq<char>>,
) -> bool {
    match resolved(base, path, query) {
        Some(u) => r is Ok && r->Ok_0.method == method && r->Ok_0.path@ == path && opt_view(
            r->Ok_0.query,
        ) == query && r->Ok_0.url@ == u,
        None => r is Err && r->Err_0 is UrlError,
    }
}

/// Two requests built to one plan are one request: the same method,
/// endpoint, query and address, or the same failure to form the address.
pub proof fn lemma_plan_determined(
    r1: Result<Request, QStashError>,
    r2: Result<Request, QStashError>,
    base: Seq<char>,
    method: Method,
    path: Seq<char>,
    query: Option<Seq<char>>,
)
    requires
        planned(r1, base, method, path, query),
        planned(r2, base, method, path, query),
    ensures
        r1 is Ok <==> r2 is Ok,
        r1 is Ok ==> r1->Ok_0.method == r2->Ok_0.method && r1->Ok_0.path@ == r2->Ok_0.path@
            && opt_view(r1->Ok_0.query) == opt_view(r2->Ok_0.query) && r1->Ok_0.url@
            == r2->Ok_0.url@,
{
}

/// The request has no body and no headers beyond the client's own.
pub open spec fn bare(r: Result<Request, QStashError>) -> bool {
    r is Ok ==> header_entries(r->Ok_0.headers) =~= Map::empty() && r->Ok_0.body is None
}

/// Whether a response status reports success: 200 to 299.
pub fn is_success_status(status: u16) -> (r: bool)
    ensures
        r == (200 <= status && status <= 299),
{
    200 <= status && status <= 299
}

/// QStash client
pub struct Client {
    http: HttpClient,
    api_base_url: String,
}

/// The authorization header of a token: `Bearer <token>`, marked sensitive.
/// Fails with `InvalidHeaderValue` exactly when the token holds a byte that
/// cannot stand in a header value.
pub fn auth_headers(token: &str) -> (r: Result<HeaderMap, QStashError>)
    ensures
        r is Ok <==> valid_header_bytes(token.spec_bytes()),
        r is Ok ==> header_entries(r->Ok_0) == map![AUTHORIZATION_HEADER@ => seq![bearer_bytes(token)]],
        r is Ok ==> sensitive_names(r->Ok_0) == set![AUTHORIZATION_HEADER@],
        r is Err ==> r->Err_0 is InvalidHeaderValue,
{
    let mut auth = "Bearer ".to_owned();
    auth.append(token);
    proof {
        reveal_strlit("Bearer ");
        reveal_strlit("authorization");
        lemma_bearer_valid(token);
    }
    let mut headers = empty_header_map();
    match insert_header(&mut headers, AUTHORIZATION_HEADER, auth.as_str().as_bytes(), true) {
        Ok(()) => {},
        Err(e) => {
            return Err(QStashError::InvalidHeaderValue(e));
        },
    }
    assert(header_entries(headers) =~= map![AUTHORIZATION_HEADER@ => seq![bearer_bytes(token)]]);
    assert(sensitive_names(headers) =~= set![AUTHORIZATION_HEADER@]);
    Ok(headers)
}

impl Client {
    /// The text of the address against which every endpoint is resolved.
    pub closed spec fn base_text(&self) -> Seq<char> {
        self.api_base_url@
    }

    /// A client that authenticates with the account's token: its transport
    /// sends the headers of `auth_headers(token)` with every request, and its
    /// base address is `BASE_URL` as parsed. Fails with `InvalidHeaderValue`
    /// exactly when the token holds a byte that cannot stand in a header
    /// value, with `ClientError` when the transport cannot be built, and with
    /// `UrlError` only if `BASE_URL` does not parse.
    pub fn new(token: &str) -> (r: Result<Client, QStashError>)
        ensures
            (r is Err && r->Err_0 is InvalidHeaderValue) <==> !valid_header_bytes(token.spec_bytes()),
            r is Err && r->Err_0 is UrlError ==> url_parsed(BASE_URL@) is None,
            r is Err ==> r->Err_0 is InvalidHeaderValue || r->Err_0 is ClientError || r->Err_0 is UrlError,
            r is Ok ==> url_parsed(BASE_URL@) == Some(r->Ok_0.base_text()),
    {
        let headers = auth_headers(token)?;
        let http = match build_http(headers) {
            Ok(h) => h,
            Err(e) => {
                return Err(QStashError::ClientError(e));
            },
        };
        let api_base_url = match parse_url(BASE_URL) {
            Ok(u) => u,
            Err(e) => {
                return Err(QStashError::UrlError(e));
            },
        };
        Ok(Client { http, api_base_url })
    }

    /// The transport that sends this client's requests, with its credentials.
    pub fn http(&self) -> &HttpClient {
        &self.http
    }

    /// The address against which every endpoint is resolved.
    pub fn base_url(&self) -> (r: &str)
        ensures
            r@ == self.base_text(),
    {
        self.api_base_url.as_str()
    }

    /// Resolves `path` against the base address and completes the request.
    fn plan(
        &self,
        method: Method,
        path: String,
        query: Option<String>,
        headers: HeaderMap,
        body: Option<serde_json::Value>,
    ) -> (r: Result<Request, QStashError>)
        ensures
            planned(r, self.base_text(), method, path@, opt_view(query)),
            r is Ok ==> r->Ok_0.headers == headers && r->Ok_0.body == body,
    {
        let joined = match join_url(self.api_base_url.as_str(), path.as_str()) {
            Ok(u) => u,
            Err(e) => {
                return Err(QStashError::UrlError(e));
            },
        };
        let url = match &query {
            Some(q) => match set_url_query(joined.as_str(), q.as_str()) {
                Ok(u) => u,
                Err(e) => {
                    return Err(QStashError::UrlError(e));
                },
            },
            None => joined,
        };
        Ok(Request { method, path, query, url, headers, body })
    }

    /// The request for the account's current quota: `GET quota`.
    pub fn quota_request(&self) -> (r: Result<Request, QStashError>)
        ensures
            planned(r, self.base_text(), Method::Get, quota_path(), None),
            bare(r),
    {
        self.plan(Method::Get, "quota".to_owned(), None, empty_header_map(), None)
    }

    /// The request for the message with the given id: `GET messages/<id>`.
    pub fn message_request(&self, message_id: &str) -> (r: Result<Request, QStashError>)
        ensures
            planned(r, self.base_text(), Method::Get, message_path(message_id@), None),
            bare(r),
    {
        let mut path = "messages/".to_owned();
        path.append(message_id);
        self.plan(Method::Get, path, None, empty_header_map(), None)
    }

    /// The request that cancels a message and all its scheduled deliveries:
    /// `DELETE messages/<id>`.
    pub fn cancel_request(&self, message_id: &str) -> (r: Result<Request, QStashError>)
        ensures
            planned(r, self.base_text(), Method::Delete, message_path(message_id@), None),
            bare(r),
    {
        let mut path = "messages/".to_owned();
        path.append(message_id);
        self.plan(Method::Delete, path, None, empty_header_map(), None)
    }

    /// The request for the tasks of a message, newest first:
    /// `GET messages/<id>/tasks`, with `cursor=<n>` as its query where a
    /// cursor is given.
    pub fn tasks_request(&self, message_id: &str, cursor: Option<i64>) -> (r: Result<
        Request,
        QStashError,
    >)
        ensures
            planned(r, self.base_text(), Method::Get, tasks_path(message_id@), tasks_query(cursor)),
            bare(r),
    {
        let mut path = "messages/".to_owned();
        path.append(message_id);
        path.append("/tasks");
        let query = match cursor {
            Some(c) => {
                let mut q = "cursor=".to_owned();
                let n = decimal_text(c);
                q.append(n.as_str());
                Some(q)
            },
            None => None,
        };
        self.plan(Method::Get, path, query, empty_header_map(), None)
    }

    /// The request that publishes `body` to a URL or a topic:
    /// `POST publish/<target>`, with the headers of the settings, if any.
    /// Fails as `MessageSettings::as_headers` does on the settings.
    pub fn publish_request(
        &self,
        url_or_topic: &str,
        body: serde_json::Value,
        message_settings: Option<MessageSettings>,
    ) -> (r: Result<Request, QStashError>)
        ensures
            match message_settings {
                Some(s) => {
                    &&& !settings_valid(s) ==> r is Err && r->Err_0 is InvalidHeaderValue
                    &&& settings_valid(s) && !custom_fits(s) ==> r is Err && r->Err_0 is Unknown
                    &&& settings_valid(s) && custom_fits(s) ==> planned(
                        r,
                        self.base_text(),
                        Method::Post,
                        publish_path(url_or_topic@),
                        None,
                    )
                    &&& r is Ok ==> header_entries(r->Ok_0.headers) == settings_entries(s)
                    &&& r is Ok ==> sensitive_names(r->Ok_0.headers) == custom_sensitive(s)
                },
                None => planned(r, self.base_text(), Method::Post, publish_path(url_or_topic@), None) && (r is Ok
                    ==> header_entries(r->Ok_0.headers) =~= Map::empty() && sensitive_names(
                    r->Ok_0.headers,
                ) =~= Set::empty()),
            },
            r is Ok ==> r->Ok_0.body == Some(body),
    {
        let headers = match message_settings {
            Some(s) => s.as_headers()?,
            None => empty_header_map(),
        };
        let mut path = "publish/".to_owned();
        path.append(url_or_topic);
        self.plan(Method::Post, path, None, headers, Some(body))
    }
}

/// The authorization value that a token gives may stand in a header exactly
/// when the token may.
proof fn lemma_bearer_valid(token: &str)
    ensures
        valid_header_bytes(bearer_bytes(token)) <==> valid_header_bytes(token.spec_bytes()),
{
    reveal_strlit("Bearer ");
    let p = "Bearer "@;
    lemma_encode_utf8_concat(p, token@);
    assert(vstd::utf8::is_ascii_chars(p));
    vstd::utf8::is_ascii_chars_encode_utf8(p);
    let pb = vstd::utf8::encode_utf8(p);
    let tb = token.spec_bytes();
    assert forall|i: int| 0 <= i < pb.len() implies valid_header_byte(#[trigger] pb[i]) by {
        assert(p[i] as u8 == pb[i]);
    }
    let all = pb + tb;
    if valid_header_bytes(tb) {
        assert forall|i: int| 0 <= i < all.len() implies valid_header_byte(#[trigger] all[i]) by {
            if i < pb.len() {
                assert(all[i] == pb[i]);
            } else {
                assert(all[i] == tb[i - pb.len()]);
            }
        }
    }
    if valid_header_bytes(all) {
        assert forall|i: int| 0 <= i < tb.len() implies valid_header_byte(#[trigger] tb[i]) by {
            assert(all[i + pb.len()] == tb[i]);
        }
    }
}

} // verus!
