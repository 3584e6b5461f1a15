use crate::client::{Client, ClientView};
use crate::error::RequestError;
use crate::header::{
    header_fault, header_values, lemma_first_fault_stays, lemma_header_values_size, str_pairs,
    string_pairs, HeaderFault,
};
use crate::transport::{
    add_header, add_query, holds_request, outgoing, parse_header_name, parse_header_value,
    no_header_values, parsed_url, set_body, start_request, OutgoingRequest, ParsedAddress,
};
use vstd::prelude::*;
use vstd::string::StringExecFns;

verus! {

/// The HTTP method of a request; fixed when the request is begun.
#[derive(Clone, Copy, Debug, PartialEq, Eq, Structural)]
pub enum Method {
    Get,
    Post,
    Put,
    Patch,
    Delete,
}

/// A one-shot request: it collects query pairs, headers, a body and the status
/// code that counts as success, and is used up by the step that dispatches it.
#[derive(Debug)]
pub struct Request<'a> {
    client: &'a Client,
    method: Method,
    relative_url: String,
    query: Vec<(String, String)>,
    headers: Vec<(String, String)>,
    body: Option<String>,
    validate_statuscode: Option<u16>,
}

/// What a request holds, as plain values.
pub struct RequestView {
    /// The base address of the context it was begun from.
    pub home: Seq<char>,
    pub method: Method,
    pub relative_url: Seq<char>,
    /// Query pairs in the order they were added, repeated keys included.
    pub query: Seq<(Seq<char>, Seq<char>)>,
    /// Header pairs in the order they were added, repeated names included.
    pub headers: Seq<(Seq<char>, Seq<char>)>,
    pub body: Option<Seq<char>>,
    pub validate_statuscode: Option<u16>,
}

impl RequestView {
    /// A request just begun: nothing added yet.
    pub open spec fn fresh(client: ClientView, method: Method, relative_url: Seq<char>) -> RequestView {
        RequestView {
            home: client.home,
            method,
            relative_url,
            query: seq![],
            headers: seq![],
            body: None,
            validate_statuscode: None,
        }
    }

    /// What the transport is handed for this request, given what it made of the
    /// address: the method; the address; the address's own query pairs followed
    /// by the request's; the headers the address brings, then the request's
    /// headers, each name's values in order; the body.
    pub open spec fn sent(self, parsed: ParsedAddress) -> OutgoingRequest {
        OutgoingRequest {
            method: self.method,
            address: parsed.address,
            query: parsed.query + self.query,
            headers: header_values(parsed.headers, self.headers),
            body: self.body,
        }
    }

    /// The absolute address: the base address, a slash, the relative path.
    pub open spec fn url(self) -> Seq<char> {
        self.home + seq!['/'] + self.relative_url
    }
}

impl<'a> View for Request<'a> {
    type V = RequestView;

    closed spec fn view(&self) -> RequestView {
        RequestView {
            home: self.client@.home,
            method: self.method,
            relative_url: self.relative_url@,
            query: string_pairs(self.query@),
            headers: string_pairs(self.headers@),
            body: match self.body {
                Some(b) => Some(b@),
                None => None,
            },
            validate_statuscode: self.validate_statuscode,
        }
    }
}

impl<'a> Request<'a> {
    /// The context the request was begun from.
    pub closed spec fn context(&self) -> &'a Client {
        self.client
    }

    fn init(client: &'a Client, method: Method, relative_url: &str) -> (r: Self)
        ensures
            r@ == RequestView::fresh(client@, method, relative_url@),
            r.context() == client,
    {
        let r = Self {
            client,
            method,
            relative_url: relative_url.to_owned(),
            query: Vec::new(),
            headers: Vec::new(),
            body: None,
            validate_statuscode: None,
        };
        assert(r@.query =~= seq![]);
        assert(r@.headers =~= seq![]);
        r
    }

    /// A GET request to `relative_url` under the context's base address.
    pub fn get(client: &'a Client, relative_url: &str) -> (r: Self)
        ensures
            r@ == RequestView::fresh(client@, Method::Get, relative_url@),
            r.context() == client,
    {
        Self::init(client, Method::Get, relative_url)
    }

    /// A PATCH request to `relative_url` under the context's base address.
    pub fn patch(client: &'a Client, relative_url: &str) -> (r: Self)
        ensures
            r@ == RequestView::fresh(client@, Method::Patch, relative_url@),
            r.context() == client,
    {
        Self::init(client, Method::Patch, relative_url)
    }

    /// A POST request to `relative_url` under the context's base address.
    pub fn post(client: &'a Client, relative_url: &str) -> (r: Self)
        ensures
            r@ == RequestView::fresh(client@, Method::Post, relative_url@),
            r.context() == client,
    {
        Self::init(client, Method::Post, relative_url)
    }

    /// A PUT request to `relative_url` under the context's base address.
    pub fn put(client: &'a Client, relative_url: &str) -> (r: Self)
        ensures
            r@ == RequestView::fresh(client@, Method::Put, relative_url@),
            r.context() == client,
    {
        Self::init(client, Method::Put, relative_url)
    }

    /// A DELETE request to `relative_url` under the context's base address.
    pub fn delete(client: &'a Client, relative_url: &str) -> (r: Self)
        ensures
            r@ == RequestView::fresh(client@, Method::Delete, relative_url@),
            r.context() == client,
    {
        Self::init(client, Method::Delete, relative_url)
    }

    /// The absolute address of the request.
    fn url(&self) -> (r: String)
        ensures
            r@ == self@.url(),
    {
        let mut url = self.client.home().to_owned();
        url.append("/");
        url.append(self.relative_url.as_str());
        proof {
            reveal_strlit("/");
        }
        url
    }

    /// Turns the request into one of the transport, ready to send: the
    /// absolute address, the query pairs in order, each header in order, and the
    /// body if there is one. Each header name and value is checked here; the
    /// first illegal one fails the whole step. Where the transport refuses the
    /// address, the builder it returns holds that error, which sending reports.
    /// A request's header map cannot grow past 32768 names, so a request is held
    /// to 4000 headers.
    pub fn build(self) -> (r: Result<reqwest::RequestBuilder, RequestError>)
        requires
            self@.headers.len() <= 4000,
        ensures
            r is Ok <==> header_fault(self@.headers) is None,
            (r matches Err(RequestError::InvalidHeaderName(_))) <==> header_fault(self@.headers)
                == Some(HeaderFault::Name),
            (r matches Err(RequestError::InvalidHeaderValue(_))) <==> header_fault(self@.headers)
                == Some(HeaderFault::Value),
            r is Ok ==> (holds_request(r->Ok_0) <==> parsed_url(self@.url()) is Some),
            r is Ok && parsed_url(self@.url()) is Some ==> outgoing(r->Ok_0) == self@.sent(
                parsed_url(self@.url())->Some_0,
            ),
            parsed_url(self@.url()) is Some && !self@.url().contains('?') ==> parsed_url(
                self@.url(),
            )->Some_0.query.len() == 0,
            parsed_url(self@.url()) is Some && !self@.url().contains('@') ==> parsed_url(
                self@.url(),
            )->Some_0.headers == no_header_values(),
    {
        let url = self.url();
        let ghost parsed = parsed_url(self@.url());
        let mut req = start_request(self.client.inner(), self.method, url);
        assert(parsed is Some && !self@.url().contains('?') ==> parsed->Some_0.query.len() == 0);
        assert(parsed is Some && !self@.url().contains('@') ==> parsed->Some_0.headers
            == no_header_values());
        req = add_query(req, &self.query);
        let ghost view = self@;
        assert(view.headers.take(0) =~= seq![]);
        let mut i: usize = 0;
        while i < self.headers.len()
            invariant
                0 <= i <= self.headers@.len(),
                self@ == view,
                view.headers.len() <= 4000,
                header_fault(view.headers.take(i as int)) is None,
                holds_request(req) <==> parsed is Some,
                parsed == parsed_url(view.url()),
                parsed is Some && !view.url().contains('?') ==> parsed->Some_0.query.len() == 0,
                parsed is Some && !view.url().contains('@') ==> parsed->Some_0.headers
                    == no_header_values(),
                parsed is Some ==> parsed->Some_0.headers.dom().finite(),
                parsed is Some ==> parsed->Some_0.headers.dom().len() <= 1,
                parsed is Some ==> outgoing(req) == (OutgoingRequest {
                    headers: header_values(parsed->Some_0.headers, view.headers.take(i as int)),
                    body: None,
                    ..view.sent(parsed->Some_0)
                }),
            decreases self.headers@.len() - i,
        {
            let ghost hs = view.headers;
            assert(hs.take(i + 1).drop_last() =~= hs.take(i as int));
            assert(hs.take(i + 1).last() == (self.headers@[i as int].0@, self.headers@[i as int].1@));
            let name = match parse_header_name(self.headers[i].0.as_str()) {
                Ok(k) => k,
                Err(e) => {
                    proof { lemma_first_fault_stays(hs, i + 1); }
                    return Err(RequestError::InvalidHeaderName(e));
                },
            };
            let header_value = match parse_header_value(self.headers[i].1.as_str()) {
                Ok(v) => v,
                Err(e) => {
                    proof { lemma_first_fault_stays(hs, i + 1); }
                    return Err(RequestError::InvalidHeaderValue(e));
                },
            };
            proof {
                if parsed is Some {
                    lemma_header_values_size(parsed->Some_0.headers, hs.take(i as int));
                }
            }
            req = add_header(req, name, header_value);
            i = i + 1;
        }
        assert(view.headers.take(self.headers@.len() as int) =~= view.headers);
        if let Some(b) = self.body {
            req = set_body(req, b);
        }
        Ok(req)
    }
}

impl<'a> Request<'a> {
    /// Adds a query pair after those already there; an earlier pair with the
    /// same name stays.
    pub fn query(self, name: &str, value: &str) -> (r: Self)
        ensures
            r@ == (RequestView { query: self@.query.push((name@, value@)), ..self@ }),
            r.context() == self.context(),
    {
        let mut req = self;
        let ghost before = req.query@;
        req.query.push((name.to_owned(), value.to_owned()));
        assert(string_pairs(req.query@) =~= string_pairs(before).push((name@, value@)));
        req
    }

    /// Adds the query pairs in order, as that many calls of `query` would.
    pub fn queries(self, queries: &[(&str, &str)]) -> (r: Self)
        ensures
            r@ == (RequestView { query: self@.query + str_pairs(queries@), ..self@ }),
            r.context() == self.context(),
    {
        let ghost start = self@;
        let ghost ctx = self.context();
        let mut req = self;
        let mut i: usize = 0;
        while i < queries.len()
            invariant
                0 <= i <= queries@.len(),
                req@ == (RequestView { query: start.query + str_pairs(queries@).take(i as int), ..start }),
                req.context() == ctx,
            decreases queries@.len() - i,
        {
            let (k, v) = queries[i];
            req = req.query(k, v);
            assert(start.query + str_pairs(queries@).take(i + 1) =~= (start.query + str_pairs(
                queries@,
            ).take(i as int)).push((k@, v@)));
            i = i + 1;
        }
        assert(str_pairs(queries@).take(queries@.len() as int) =~= str_pairs(queries@));
        req
    }

    /// Adds a header after those already there; an earlier header with the
    /// same name stays. It is checked only when the request is built.
    pub fn header(self, name: &str, value: &str) -> (r: Self)
        ensures
            r@ == (RequestView { headers: self@.headers.push((name@, value@)), ..self@ }),
            r.context() == self.context(),
    {
        let mut req = self;
        let ghost before = req.headers@;
        req.headers.push((name.to_owned(), value.to_owned()));
        assert(string_pairs(req.headers@) =~= string_pairs(before).push((name@, value@)));
        req
    }

    /// Adds the headers in order, as that many calls of `header` would.
    pub fn headers(self, headers: &[(&str, &str)]) -> (r: Self)
        ensures
            r@ == (RequestView { headers: self@.headers + str_pairs(headers@), ..self@ }),
            r.context() == self.context(),
    {
        let ghost start = self@;
        let ghost ctx = self.context();
        let mut req = self;
        let mut i: usize = 0;
        while i < headers.len()
            invariant
                0 <= i <= headers@.len(),
                req@ == (RequestView { headers: start.headers + str_pairs(headers@).take(i as int), ..start }),
                req.context() == ctx,
            decreases headers@.len() - i,
        {
            let (k, v) = headers[i];
            req = req.header(k, v);
            assert(start.headers + str_pairs(headers@).take(i + 1) =~= (start.headers + str_pairs(
                headers@,
            ).take(i as int)).push((k@, v@)));
            i = i + 1;
        }
        assert(str_pairs(headers@).take(headers@.len() as int) =~= str_pairs(headers@));
        req
    }

    /// Sets the body, replacing one set before.
    pub fn body(self, body: String) -> (r: Self)
        ensures
            r@ == (RequestView { body: Some(body@), ..self@ }),
            r.context() == self.context(),
    {
        let mut req = self;
        req.body = Some(body);
        req
    }

    /// Sets the status code that counts as success when the response is decoded.
    pub fn validate_statuscode(self, statuscode: u16) -> (r: Self)
        ensures
            r@ == (RequestView { validate_statuscode: Some(statuscode), ..self@ }),
            r.context() == self.context(),
    {
        let mut req = self;
        req.validate_statuscode = Some(statuscode);
        req
    }

    /// The number of headers added so far.
    pub fn header_count(&self) -> (r: usize)
        ensures
            r == self@.headers.len(),
    {
        self.headers.len()
    }

    /// The status code that counts as success, if one was set.
    pub fn expected_statuscode(&self) -> (r: Option<u16>)
        ensures
            r == self@.validate_statuscode,
    {
        self.validate_statuscode
    }
}

/// A request with neither a header nor a body passes the header check when it
/// is built, and the transport is handed no header and no body of its own for
/// it: its only headers are those its address brings (none for an address
/// without user info), and, when it is sent, the transport's, that is the
/// context's default headers.
pub proof fn law_plain_request_adds_nothing(v: RequestView, parsed: ParsedAddress)
    requires
        v.headers.len() == 0,
        v.body is None,
    ensures
        header_fault(v.headers) is None,
        v.sent(parsed).headers == parsed.headers,
        v.sent(parsed).body is None,
{
}

/// The query pairs of a request reach the transport in the order they were
/// added, repeats kept, after those of its address; an address text without
/// `?` has none, so they are exactly the request's own.
pub proof fn law_query_pairs_kept(v: RequestView, parsed: ParsedAddress)
    requires
        parsed.query.len() == 0,
    ensures
        v.sent(parsed).query == v.query,
{
    assert(v.sent(parsed).query =~= v.query);
}

} // verus!
