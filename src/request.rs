use vstd::prelude::*;
use vstd::string::*;

use crate::text::{append_url, join_url};

verus! {

/// HTTP verbs the bot uses.
#[derive(Clone, Copy, PartialEq, Eq, Structural, Debug)]
pub enum Method {
    Get,
    Post,
    Delete,
    Patch,
}

/// One HTTP request, ready to be performed: each header is a complete
/// `Name: value` line.
#[derive(Debug)]
pub struct Request {
    pub method: Method,
    pub url: String,
    pub headers: Vec<String>,
    pub body: Option<String>,
}

/// What a request says, as text.
pub struct RequestView {
    pub method: Method,
    pub url: Seq<char>,
    pub headers: Seq<Seq<char>>,
    pub body: Option<Seq<char>>,
}

impl View for Request {
    type V = RequestView;

    open spec fn view(&self) -> RequestView {
        RequestView {
            method: self.method,
            url: self.url@,
            headers: self.headers.deep_view(),
            body: match self.body {
                Some(b) => Some(b@),
                None => None,
            },
        }
    }
}

pub open spec fn travis_base() -> Seq<char> {
    "https://api.travis-ci.com"@
}

pub open spec fn appveyor_base() -> Seq<char> {
    "https://ci.appveyor.com/api"@
}

pub open spec fn azure_base() -> Seq<char> {
    "https://dev.azure.com"@
}

/// The header that names the bot; it leads every request.
pub open spec fn agent_header() -> Seq<char> {
    "User-Agent: cancelbot (github.com/rust-lang/rust-central-station)"@
}

pub open spec fn json_accept() -> Seq<char> {
    "Accept: application/json"@
}

pub open spec fn travis_accept() -> Seq<char> {
    "Accept: application/vnd.travis-ci.2+json"@
}

pub open spec fn json_content() -> Seq<char> {
    "Content-Type: application/json"@
}

pub open spec fn travis_headers_of(token: Seq<char>) -> Seq<Seq<char>> {
    seq!["Authorization: token "@ + token, travis_accept()]
}

pub open spec fn appveyor_headers_of(token: Seq<char>) -> Seq<Seq<char>> {
    seq!["Authorization: Bearer "@ + token, json_accept()]
}

/// HTTP Basic credentials with an empty user name and the token as password.
pub open spec fn azure_credentials(token: Seq<char>) -> Seq<char> {
    base64_of(seq![':'] + token)
}

pub open spec fn azure_headers_of(token: Seq<char>) -> Seq<Seq<char>> {
    seq!["Authorization: Basic "@ + azure_credentials(token), json_accept()]
}

pub open spec fn request_of(
    method: Method,
    url: Seq<char>,
    headers: Seq<Seq<char>>,
    body: Option<Seq<char>>,
) -> RequestView {
    RequestView { method, url, headers: seq![agent_header()] + headers, body }
}

/// Standard, padded base64 text of the UTF-8 bytes of `s`.
pub uninterp spec fn base64_of(s: Seq<char>) -> Seq<char>;

/// Relies on `base64::encode`, which encodes the UTF-8 bytes of its input with
/// the standard alphabet and padding; it panics only when the output length
/// overflows `usize`, which no string that fits in memory reaches.
#[verifier::external_body]
fn base64_encode(s: &str) -> (r: String)
    ensures
        r@ == base64_of(s@),
{
    base64::encode(s)
}

fn text(s: &str) -> (r: String)
    ensures
        r@ == s@,
{
    String::from_str(s)
}

fn agent() -> (r: String)
    ensures
        r@ == agent_header(),
{
    text("User-Agent: cancelbot (github.com/rust-lang/rust-central-station)")
}

/// The header list of a request: the agent line, then `headers`.
fn with_agent(headers: &Vec<String>) -> (r: Vec<String>)
    ensures
        r.deep_view() == seq![agent_header()] + headers.deep_view(),
{
    let mut r: Vec<String> = Vec::new();
    r.push(agent());
    let mut i: usize = 0;
    while i < headers.len()
        invariant
            0 <= i <= headers@.len(),
            r@.len() == i + 1,
            r.deep_view() == seq![agent_header()] + headers.deep_view().take(i as int),
        decreases headers@.len() - i,
    {
        let h = headers[i].clone();
        let ghost before = r.deep_view();
        r.push(h);
        let ghost want = seq![agent_header()] + headers.deep_view().take(i + 1);
        assert forall|j: int| 0 <= j < r@.len() implies r.deep_view()[j] == want[j] by {
            if j < r@.len() - 1 {
                assert(r.deep_view()[j] == before[j]);
            }
        }
        assert(r.deep_view() =~= want);
        i = i + 1;
    }
    assert(headers.deep_view().take(i as int) =~= headers.deep_view());
    r
}

/// A GET of `url`.
pub fn get(url: &str, headers: &Vec<String>) -> (r: Request)
    ensures
        r@ == request_of(Method::Get, url@, headers.deep_view(), None),
{
    Request { method: Method::Get, url: text(url), headers: with_agent(headers), body: None }
}

/// A DELETE of `url`.
pub fn delete(url: &str, headers: &Vec<String>) -> (r: Request)
    ensures
        r@ == request_of(Method::Delete, url@, headers.deep_view(), None),
{
    Request { method: Method::Delete, url: text(url), headers: with_agent(headers), body: None }
}

/// A POST of `url` with no body.
pub fn post(url: &str, headers: &Vec<String>) -> (r: Request)
    ensures
        r@ == request_of(Method::Post, url@, headers.deep_view(), None),
{
    Request { method: Method::Post, url: text(url), headers: with_agent(headers), body: None }
}

/// A PATCH of `url` that sends `body`.
pub fn patch(url: &str, headers: &Vec<String>, body: &str) -> (r: Request)
    ensures
        r@ == request_of(Method::Patch, url@, headers.deep_view(), Some(body@)),
{
    Request {
        method: Method::Patch,
        url: text(url),
        headers: with_agent(headers),
        body: Some(text(body)),
    }
}

/// The `Authorization` line of HTTP Basic, from already encoded credentials.
pub fn basic_authorization(encoded: &str) -> (r: String)
    ensures
        r@ == "Authorization: Basic "@ + encoded@,
{
    text("Authorization: Basic ").concat(encoded)
}

fn travis_headers(token: &str) -> (r: Vec<String>)
    ensures
        r.deep_view() == travis_headers_of(token@),
{
    let r = vec![
        text("Authorization: token ").concat(token),
        text("Accept: application/vnd.travis-ci.2+json"),
    ];
    assert(r.deep_view() =~= travis_headers_of(token@));
    r
}

fn appveyor_headers(token: &str) -> (r: Vec<String>)
    ensures
        r.deep_view() == appveyor_headers_of(token@),
{
    let r = vec![text("Authorization: Bearer ").concat(token), text("Accept: application/json")];
    assert(r.deep_view() =~= appveyor_headers_of(token@));
    r
}

fn azure_headers(token: &str) -> (r: Vec<String>)
    ensures
        r.deep_view() == azure_headers_of(token@),
{
    let credentials = text(":").concat(token);
    proof {
        reveal_strlit(":");
    }
    assert(credentials@ == seq![':'] + token@);
    let encoded = base64_encode(credentials.as_str());
    let r = vec![basic_authorization(encoded.as_str()), text("Accept: application/json")];
    assert(r.deep_view() =~= azure_headers_of(token@));
    r
}

/// A GET of a Travis API path, authorised by `token`.
pub fn travis_get(url: &str, token: &str) -> (r: Request)
    ensures
        r@ == request_of(Method::Get, join_url(travis_base(), url@), travis_headers_of(token@), None),
{
    let full = append_url("https://api.travis-ci.com", url);
    get(full.as_str(), &travis_headers(token))
}

/// A POST to a Travis API path, authorised by `token`.
pub fn travis_post(url: &str, token: &str) -> (r: Request)
    ensures
        r@ == request_of(Method::Post, join_url(travis_base(), url@), travis_headers_of(token@), None),
{
    let full = append_url("https://api.travis-ci.com", url);
    post(full.as_str(), &travis_headers(token))
}

/// A GET of an AppVeyor API path, authorised by `token`.
pub fn appveyor_get(url: &str, token: &str) -> (r: Request)
    ensures
        r@ == request_of(
            Method::Get,
            join_url(appveyor_base(), url@),
            appveyor_headers_of(token@),
            None,
        ),
{
    let full = append_url("https://ci.appveyor.com/api", url);
    get(full.as_str(), &appveyor_headers(token))
}

/// A DELETE of an AppVeyor API path, authorised by `token`.
pub fn appveyor_delete(url: &str, token: &str) -> (r: Request)
    ensures
        r@ == request_of(
            Method::Delete,
            join_url(appveyor_base(), url@),
            appveyor_headers_of(token@),
            None,
        ),
{
    let full = append_url("https://ci.appveyor.com/api", url);
    delete(full.as_str(), &appveyor_headers(token))
}

/// A GET of an Azure Pipelines path or absolute link, authorised by `token`.
pub fn azure_pipelines_get(url: &str, token: &str) -> (r: Request)
    ensures
        r@ == request_of(Method::Get, join_url(azure_base(), url@), azure_headers_of(token@), None),
{
    let full = append_url("https://dev.azure.com", url);
    get(full.as_str(), &azure_headers(token))
}

/// A PATCH of an Azure Pipelines path with a JSON `body`, authorised by
/// `token`.
pub fn azure_patch(url: &str, token: &str, body: &str) -> (r: Request)
    ensures
        r@ == request_of(
            Method::Patch,
            join_url(azure_base(), url@),
            azure_headers_of(token@).push(json_content()),
            Some(body@),
        ),
{
    let full = append_url("https://dev.azure.com", url);
    let mut headers = azure_headers(token);
    headers.push(text("Content-Type: application/json"));
    assert(headers.deep_view() =~= azure_headers_of(token@).push(json_content()));
    patch(full.as_str(), &headers, body)
}

/// Whether a response status counts as success: 200 and 204 do, any other
/// code is an error.
pub fn status_accepted(code: u32) -> (r: bool)
    ensures
        r == (code == 200 || code == 204),
{
    code == 200 || code == 204
}

} // verus!
