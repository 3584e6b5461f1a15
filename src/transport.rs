use crate::header::{append_header, header_key, header_name_valid, header_value_valid, string_pairs};
use crate::request::Method;
use reqwest::header::{HeaderMap, HeaderName, HeaderValue, InvalidHeaderName, InvalidHeaderValue};
use reqwest::Client as HttpClient;
use reqwest_cookie_store::CookieStoreMutex;
use std::sync::Arc;
use vstd::prelude::*;

verus! {

#[verifier::external_type_specification]
#[verifier::external_body]
pub struct ExHttpClient(HttpClient);

/// Relies on `Clone` for `reqwest::Client`: a second handle on the same
/// transport, which shares its connection pool and cookie store.
pub assume_specification[ <HttpClient as Clone>::clone ](c: &HttpClient) -> HttpClient;

#[verifier::external_type_specification]
#[verifier::external_body]
pub struct ExClientBuilder(reqwest::ClientBuilder);

#[verifier::external_type_specification]
#[verifier::external_body]
pub struct ExRequestBuilder(reqwest::RequestBuilder);

#[verifier::external_type_specification]
#[verifier::external_body]
pub struct ExReqwestError(reqwest::Error);

#[verifier::external_type_specification]
#[verifier::external_body]
pub struct ExHeaderName(HeaderName);

#[verifier::external_type_specification]
#[verifier::external_body]
pub struct ExHeaderValue(HeaderValue);

#[verifier::external_type_specification]
#[verifier::external_body]
#[verifier::reject_recursive_types(T)]
pub struct ExHeaderMap<T>(HeaderMap<T>);

#[verifier::external_type_specification]
#[verifier::external_body]
pub struct ExInvalidHeaderName(InvalidHeaderName);

#[verifier::external_type_specification]
#[verifier::external_body]
pub struct ExInvalidHeaderValue(InvalidHeaderValue);

#[verifier::external_type_specification]
#[verifier::external_body]
pub struct ExCookieStoreMutex(CookieStoreMutex);

/// The settings of a transport, or of a transport configuration, that this
/// library relies on.
pub struct TransportSettings {
    /// gzip bodies are asked for and decoded.
    pub gzip: bool,
    /// deflate bodies are asked for and decoded.
    pub deflate: bool,
    /// brotli bodies are asked for and decoded.
    pub brotli: bool,
    /// The cookie store read and written on every exchange, if any.
    pub cookie_jar: Option<Arc<CookieStoreMutex>>,
    /// The headers sent with every request: lower-case name to value.
    pub headers: Map<Seq<char>, Seq<char>>,
}

/// What a request of the transport holds before it is sent.
pub struct OutgoingRequest {
    pub method: Method,
    /// The address, written out without its query.
    pub address: Seq<char>,
    /// The query pairs, decoded, in order.
    pub query: Seq<(Seq<char>, Seq<char>)>,
    /// The request's own header values by lower-case name, each name's values
    /// in the order they were added.
    pub headers: Map<Seq<char>, Seq<Seq<char>>>,
    pub body: Option<Seq<char>>,
}

/// No header at all.
pub open spec fn no_headers() -> Map<Seq<char>, Seq<char>> {
    Map::empty()
}

/// The headers a configuration gets when it is made: `accept: */*`.
pub open spec fn initial_headers() -> Map<Seq<char>, Seq<char>> {
    map![seq!['a', 'c', 'c', 'e', 'p', 't'] => seq!['*', '/', '*']]
}

/// What reqwest makes of an address text when it starts a request.
pub struct ParsedAddress {
    /// The address written out without its query (and without user info).
    pub address: Seq<char>,
    /// The query pairs of the address, decoded, in order.
    pub query: Seq<(Seq<char>, Seq<char>)>,
    /// The headers the address brings: a basic-auth `authorization` header where
    /// it holds a user name or password.
    pub headers: Map<Seq<char>, Seq<Seq<char>>>,
}

/// What reqwest makes of an address text when it starts a request: `None`
/// where it refuses it (it does not parse, or names no host).
pub uninterp spec fn parsed_url(s: Seq<char>) -> Option<ParsedAddress>;

/// No header value at all.
pub open spec fn no_header_values() -> Map<Seq<char>, Seq<Seq<char>>> {
    Map::empty()
}

/// The text of a header name (lower case).
pub uninterp spec fn header_name_text(h: HeaderName) -> Seq<char>;

/// The text of a header value.
pub uninterp spec fn header_value_text(v: HeaderValue) -> Seq<char>;

/// What a header map holds: lower-case name to value.
pub uninterp spec fn header_map_entries(m: HeaderMap<HeaderValue>) -> Map<Seq<char>, Seq<char>>;

/// The settings of a transport configuration.
pub uninterp spec fn builder_settings(b: reqwest::ClientBuilder) -> TransportSettings;

/// The settings of a transport.
pub uninterp spec fn transport_settings(c: HttpClient) -> TransportSettings;

/// Whether a request builder holds a request (and not the error that made one fail).
pub uninterp spec fn holds_request(rb: reqwest::RequestBuilder) -> bool;

/// The request a request builder holds.
pub uninterp spec fn outgoing(rb: reqwest::RequestBuilder) -> OutgoingRequest;

/// Relies on http's `HeaderName::from_bytes` (re-exported by reqwest): it accepts
/// 1 to 65535 bytes, each of them a token character; anything else, and so any
/// non-ASCII character, is refused.
#[verifier::external_body]
pub(crate) fn parse_header_name(name: &str) -> (r: Result<HeaderName, InvalidHeaderName>)
    ensures
        r is Ok <==> header_name_valid(name@),
        r is Ok ==> header_name_text(r->Ok_0) == header_key(name@),
{
    HeaderName::from_bytes(name.as_bytes())
}

/// Relies on http's `HeaderValue::from_bytes`: every byte must be a tab, or at
/// least 32 and not 127. A non-ASCII character encodes to bytes of 128 and over.
#[verifier::external_body]
pub(crate) fn parse_header_value(value: &str) -> (r: Result<HeaderValue, InvalidHeaderValue>)
    ensures
        r is Ok <==> header_value_valid(value@),
        r is Ok ==> header_value_text(r->Ok_0) == value@,
{
    HeaderValue::from_bytes(value.as_bytes())
}

/// Relies on `CookieStoreMutex::default` of reqwest_cookie_store: an empty
/// cookie store behind a mutex, here shared through an `Arc`.
#[verifier::external_body]
pub(crate) fn empty_cookie_jar() -> Arc<CookieStoreMutex> {
    Arc::new(CookieStoreMutex::default())
}

/// Relies on `reqwest::Client::builder` (`ClientBuilder::new`): a transport
/// configuration with no cookie store and `accept: */*` as its only header.
#[verifier::external_body]
pub(crate) fn transport_builder() -> (r: reqwest::ClientBuilder)
    ensures
        builder_settings(r).cookie_jar is None,
        builder_settings(r).headers == initial_headers(),
{
    HttpClient::builder()
}

/// Relies on `reqwest::ClientBuilder::deflate`: negotiate deflate compression.
#[verifier::external_body]
pub(crate) fn enable_deflate(b: reqwest::ClientBuilder) -> (r: reqwest::ClientBuilder)
    ensures
        builder_settings(r) == (TransportSettings { deflate: true, ..builder_settings(b) }),
{
    b.deflate(true)
}

/// Relies on `reqwest::ClientBuilder::gzip`: negotiate gzip compression.
#[verifier::external_body]
pub(crate) fn enable_gzip(b: reqwest::ClientBuilder) -> (r: reqwest::ClientBuilder)
    ensures
        builder_settings(r) == (TransportSettings { gzip: true, ..builder_settings(b) }),
{
    b.gzip(true)
}

/// Relies on `reqwest::ClientBuilder::brotli`: negotiate brotli compression.
#[verifier::external_body]
pub(crate) fn enable_brotli(b: reqwest::ClientBuilder) -> (r: reqwest::ClientBuilder)
    ensures
        builder_settings(r) == (TransportSettings { brotli: true, ..builder_settings(b) }),
{
    b.brotli(true)
}

/// Relies on `reqwest::ClientBuilder::cookie_provider`: the transport reads and
/// writes the given cookie store on every exchange. It holds its own handle on
/// the store.
#[verifier::external_body]
pub(crate) fn attach_cookie_jar(
    b: reqwest::ClientBuilder,
    jar: &Arc<CookieStoreMutex>,
) -> (r: reqwest::ClientBuilder)
    ensures
        builder_settings(r) == (TransportSettings { cookie_jar: Some(*jar), ..builder_settings(b) }),
{
    b.cookie_provider(Arc::clone(jar))
}

/// Relies on `HeaderMap::new`: an empty header map.
#[verifier::external_body]
pub(crate) fn empty_header_map() -> (r: HeaderMap<HeaderValue>)
    ensures
        header_map_entries(r) == no_headers(),
{
    HeaderMap::new()
}

/// Relies on `HeaderMap::insert`: sets the value under the name, replacing an
/// earlier one. The map panics once it would grow past 32768 entries, so it is
/// kept well under that.
#[verifier::external_body]
pub(crate) fn insert_header(map: &mut HeaderMap<HeaderValue>, name: HeaderName, value: HeaderValue)
    requires
        header_map_entries(*old(map)).dom().finite(),
        header_map_entries(*old(map)).dom().len() < 4096,
    ensures
        header_map_entries(*final(map)) == header_map_entries(*old(map)).insert(
            header_name_text(name),
            header_value_text(value),
        ),
{
    map.insert(name, value);
}

/// Relies on `reqwest::ClientBuilder::default_headers`: these headers go with
/// every request of the transport; each is inserted into the configuration's
/// headers, replacing one of the same name. The configuration's map panics once
/// it would grow past 32768 entries, so it is kept well under that.
#[verifier::external_body]
pub(crate) fn set_default_headers(
    b: reqwest::ClientBuilder,
    headers: HeaderMap<HeaderValue>,
) -> (r: reqwest::ClientBuilder)
    requires
        builder_settings(b).headers.dom().finite(),
        header_map_entries(headers).dom().finite(),
        builder_settings(b).headers.dom().len() + header_map_entries(headers).dom().len() < 4096,
    ensures
        builder_settings(r) == (TransportSettings {
            headers: builder_settings(b).headers.union_prefer_right(header_map_entries(headers)),
            ..builder_settings(b)
        }),
{
    b.default_headers(headers)
}

/// Relies on `reqwest::ClientBuilder::build`: the transport, or the error that
/// kept it from being built. A transport keeps the configuration's compression
/// settings, cookie store and headers.
#[verifier::external_body]
pub(crate) fn build_transport(b: reqwest::ClientBuilder) -> (r: Result<HttpClient, reqwest::Error>)
    ensures
        r is Ok ==> transport_settings(r->Ok_0) == builder_settings(b),
{
    b.build()
}

/// Relies on `reqwest::Client::request`: a request of the given method to the
/// given address, sent through this transport. Where the address is refused the
/// builder holds the error instead. User info in the address is taken out of it
/// and becomes a basic-auth `authorization` header (`RequestBuilder::new`); the
/// new request has no other header and no body. An address text without `?` has
/// no query, one without `@` no user info.
#[verifier::external_body]
pub(crate) fn start_request(
    transport: &HttpClient,
    method: Method,
    url: String,
) -> (r: reqwest::RequestBuilder)
    ensures
        holds_request(r) <==> parsed_url(url@) is Some,
        holds_request(r) ==> outgoing(r) == (OutgoingRequest {
            method,
            address: parsed_url(url@)->Some_0.address,
            query: parsed_url(url@)->Some_0.query,
            headers: parsed_url(url@)->Some_0.headers,
            body: None,
        }),
        holds_request(r) ==> outgoing(r).headers.dom().finite(),
        holds_request(r) ==> outgoing(r).headers.dom().len() <= 1,
        holds_request(r) && !url@.contains('?') ==> outgoing(r).query.len() == 0,
        holds_request(r) && !url@.contains('@') ==> outgoing(r).headers == no_header_values(),
{
    let method = match method {
        Method::Get => reqwest::Method::GET,
        Method::Post => reqwest::Method::POST,
        Method::Put => reqwest::Method::PUT,
        Method::Patch => reqwest::Method::PATCH,
        Method::Delete => reqwest::Method::DELETE,
    };
    transport.request(method, url)
}

/// Relies on `reqwest::RequestBuilder::query`: the pairs are appended to the
/// address's query string, in order (encoding string pairs cannot fail).
#[verifier::external_body]
pub(crate) fn add_query(rb: reqwest::RequestBuilder, pairs: &Vec<(String, String)>) -> (r:
    reqwest::RequestBuilder)
    ensures
        holds_request(r) == holds_request(rb),
        holds_request(r) ==> outgoing(r) == (OutgoingRequest {
            query: outgoing(rb).query + string_pairs(pairs@),
            ..outgoing(rb)
        }),
{
    rb.query(pairs)
}

/// Relies on `reqwest::RequestBuilder::header`: the value is appended to the
/// request's header map (`HeaderMap::append`), after any earlier value of the
/// same name. A builder that holds an error is left as it is. The request's
/// header map panics once it would grow past 32768 entries, so the number of
/// names is kept well under that.
#[verifier::external_body]
pub(crate) fn add_header(
    rb: reqwest::RequestBuilder,
    name: HeaderName,
    value: HeaderValue,
) -> (r: reqwest::RequestBuilder)
    requires
        holds_request(rb) ==> outgoing(rb).headers.dom().finite(),
        holds_request(rb) ==> outgoing(rb).headers.dom().len() < 4096,
    ensures
        holds_request(r) == holds_request(rb),
        holds_request(r) ==> outgoing(r) == (OutgoingRequest {
            headers: append_header(
                outgoing(rb).headers,
                header_name_text(name),
                header_value_text(value),
            ),
            ..outgoing(rb)
        }),
{
    rb.header(name, value)
}

/// Relies on `reqwest::RequestBuilder::body`: the text becomes the request's body.
#[verifier::external_body]
pub(crate) fn set_body(rb: reqwest::RequestBuilder, body: String) -> (r: reqwest::RequestBuilder)
    ensures
        holds_request(r) == holds_request(rb),
        holds_request(r) ==> outgoing(r) == (OutgoingRequest { body: Some(body@), ..outgoing(rb) }),
{
    rb.body(body)
}

} // verus!
