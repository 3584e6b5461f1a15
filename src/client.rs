use crate::error::RequestError;
use crate::header::{
    header_fault, header_map_of, lemma_first_fault_stays, lemma_header_map_size, str_pairs,
    HeaderFault,
};
use crate::request::{Method, Request, RequestView};
use crate::transport::{
    builder_settings, header_map_entries, initial_headers, transport_settings, TransportSettings,
    attach_cookie_jar, build_transport, empty_cookie_jar, empty_header_map, enable_brotli,
    enable_deflate, enable_gzip, insert_header, parse_header_name, parse_header_value,
    set_default_headers, transport_builder,
};
use reqwest::Client as HttpClient;
use reqwest_cookie_store::CookieStoreMutex;
use std::sync::Arc;
use vstd::prelude::*;

verus! {

/// A client context: the base address that every relative path is joined to,
/// a cookie jar shared by every request made from it, and the transport.
#[derive(Debug, Clone)]
pub struct Client {
    home: String,
    cookie_store: Arc<CookieStoreMutex>,
    client: HttpClient,
}

/// What a client context holds that requests are built from.
pub struct ClientView {
    pub home: Seq<char>,
}

impl View for Client {
    type V = ClientView;

    closed spec fn view(&self) -> ClientView {
        ClientView { home: self.home@ }
    }
}

impl Client {
    /// The transport that requests from this context go through.
    pub closed spec fn transport(&self) -> HttpClient {
        self.client
    }

    /// The cookie jar that the transport reads and fills.
    pub closed spec fn cookie_jar(&self) -> Arc<CookieStoreMutex> {
        self.cookie_store
    }

    /// The settings a context's transport is built with: all three compressions
    /// negotiated, the context's own jar attached, and `accept: */*` followed by
    /// the default headers, a later pair replacing an earlier one of the same name.
    pub open spec fn settings_for(
        jar: Arc<CookieStoreMutex>,
        default_headers: Seq<(Seq<char>, Seq<char>)>,
    ) -> TransportSettings {
        TransportSettings {
            gzip: true,
            deflate: true,
            brotli: true,
            cookie_jar: Some(jar),
            headers: initial_headers().union_prefer_right(header_map_of(default_headers)),
        }
    }

    fn new_raw(home: &str, default_headers: Option<&[(&str, &str)]>) -> (r: Result<Self, RequestError>)
        requires
            default_headers matches Some(dh) ==> dh@.len() <= 4000,
        ensures
            r is Ok ==> r->Ok_0@.home == home@,
            r is Ok ==> transport_settings(r->Ok_0.transport()) == Client::settings_for(
                r->Ok_0.cookie_jar(),
                match default_headers {
                    Some(dh) => str_pairs(dh@),
                    None => seq![],
                },
            ),
            (r matches Err(RequestError::InvalidHeaderName(_))) <==> (default_headers is Some
                && header_fault(str_pairs(default_headers->Some_0@)) == Some(HeaderFault::Name)),
            (r matches Err(RequestError::InvalidHeaderValue(_))) <==> (default_headers is Some
                && header_fault(str_pairs(default_headers->Some_0@)) == Some(HeaderFault::Value)),
            !(r matches Err(RequestError::Unparsable { .. })),
    {
        let cookie_store = empty_cookie_jar();
        let mut res = transport_builder();
        res = enable_deflate(res);
        res = enable_gzip(res);
        res = enable_brotli(res);
        res = attach_cookie_jar(res, &cookie_store);
        let ghost configured = builder_settings(res);
        assert(initial_headers().dom() =~= Set::empty().insert(seq!['a', 'c', 'c', 'e', 'p', 't']));
        if let Some(dh) = default_headers {
            let mut headers = empty_header_map();
            assert(header_map_entries(headers) =~= header_map_of(str_pairs(dh@).take(0)));
            let mut i: usize = 0;
            while i < dh.len()
                invariant
                    0 <= i <= dh@.len(),
                    dh@.len() <= 4000,
                    default_headers == Some(dh),
                    builder_settings(res) == configured,
                    header_fault(str_pairs(dh@).take(i as int)) is None,
                    header_map_entries(headers) == header_map_of(str_pairs(dh@).take(i as int)),
                decreases dh@.len() - i,
            {
                let (key, value) = dh[i];
                let ghost pre = str_pairs(dh@).take(i as int);
                let ghost next = str_pairs(dh@).take(i + 1);
                assert(next.drop_last() =~= pre);
                assert(str_pairs(dh@)[i as int] == (key@, value@));
                let name = match parse_header_name(key) {
                    Ok(n) => n,
                    Err(e) => {
                        proof { lemma_first_fault_stays(str_pairs(dh@), i + 1); }
                        return Err(RequestError::InvalidHeaderName(e));
                    },
                };
                let value = match parse_header_value(value) {
                    Ok(v) => v,
                    Err(e) => {
                        proof { lemma_first_fault_stays(str_pairs(dh@), i + 1); }
                        return Err(RequestError::InvalidHeaderValue(e));
                    },
                };
                proof { lemma_header_map_size(pre); }
                insert_header(&mut headers, name, value);
                i = i + 1;
            }
            assert(str_pairs(dh@).take(dh@.len() as int) =~= str_pairs(dh@));
            proof { lemma_header_map_size(str_pairs(dh@)); }
            res = set_default_headers(res, headers);
        } else {
            assert(initial_headers().union_prefer_right(header_map_of(seq![])) =~= initial_headers());
        }
        let client = match build_transport(res) {
            Ok(c) => c,
            Err(e) => {
                return Err(RequestError::Reqwest(e));
            },
        };
        Ok(Self { home: home.to_owned(), cookie_store, client })
    }

    /// A context for the given base address, with its own new cookie jar
    /// attached to the transport and compression negotiated. Fails only when the
    /// transport cannot be built.
    pub fn new(home: &str) -> (r: Result<Self, RequestError>)
        ensures
            r is Ok ==> r->Ok_0@.home == home@,
            r is Ok ==> transport_settings(r->Ok_0.transport()) == Client::settings_for(
                r->Ok_0.cookie_jar(),
                seq![],
            ),
            r is Err ==> r matches Err(RequestError::Reqwest(_)),
    {
        Self::new_raw(home, None)
    }

    /// A context like `new`, whose transport also sends the given headers with
    /// every request (a later pair replaces an earlier one of the same name).
    /// Fails on the first illegal name or value, or when the transport cannot be
    /// built. The transport's header map cannot grow past 32768 names, so the
    /// list is held to 4000 pairs.
    pub fn with_default_headers(home: &str, default_headers: &[(&str, &str)]) -> (r: Result<
        Self,
        RequestError,
    >)
        requires
            default_headers@.len() <= 4000,
        ensures
            r is Ok ==> r->Ok_0@.home == home@,
            r is Ok ==> transport_settings(r->Ok_0.transport()) == Client::settings_for(
                r->Ok_0.cookie_jar(),
                str_pairs(default_headers@),
            ),
            (r matches Err(RequestError::InvalidHeaderName(_))) <==> header_fault(
                str_pairs(default_headers@),
            ) == Some(HeaderFault::Name),
            (r matches Err(RequestError::InvalidHeaderValue(_))) <==> header_fault(
                str_pairs(default_headers@),
            ) == Some(HeaderFault::Value),
            !(r matches Err(RequestError::Unparsable { .. })),
    {
        Self::new_raw(home, Some(default_headers))
    }

    /// The transport.
    pub fn inner(&self) -> (r: &HttpClient)
        ensures
            *r == self.transport(),
    {
        &self.client
    }

    /// The shared cookie jar.
    pub fn cookies(&self) -> (r: &Arc<CookieStoreMutex>)
        ensures
            *r == self.cookie_jar(),
    {
        &self.cookie_store
    }

    /// Replaces the transport by what `f` makes of it; the base address and the
    /// cookie jar stay. Needs exclusive access: no request of this context may be
    /// in flight.
    pub fn manipulate(&mut self, f: impl Fn(&HttpClient) -> HttpClient)
        requires
            forall|c: &HttpClient| f.requires((c,)),
        ensures
            final(self)@ == old(self)@,
            final(self).cookie_jar() == old(self).cookie_jar(),
            f.ensures((&old(self).transport(),), final(self).transport()),
    {
        self.client = f(&self.client);
    }

    /// Like `manipulate`, but `f` may fail: then its error is returned and the
    /// context is left as it was.
    pub fn try_manipulate<E>(&mut self, f: impl Fn(&HttpClient) -> Result<HttpClient, E>) -> (r:
        Result<(), E>)
        requires
            forall|c: &HttpClient| f.requires((c,)),
        ensures
            final(self)@ == old(self)@,
            final(self).cookie_jar() == old(self).cookie_jar(),
            match r {
                Ok(()) => f.ensures((&old(self).transport(),), Ok(final(self).transport())),
                Err(e) => f.ensures((&old(self).transport(),), Err(e)) && final(self).transport()
                    == old(self).transport(),
            },
    {
        match f(&self.client) {
            Ok(c) => {
                self.client = c;
                Ok(())
            },
            Err(e) => Err(e),
        }
    }

    /// The base address.
    pub fn home(&self) -> (r: &str)
        ensures
            r@ == self@.home,
    {
        self.home.as_str()
    }

    /// A GET request to `relative_url` under the base address.
    pub fn get<'a>(&'a self, relative_url: &str) -> (r: Request<'a>)
        ensures
            r@ == RequestView::fresh(self@, Method::Get, relative_url@),
            r.context() == self,
    {
        Request::get(self, relative_url)
    }

    /// A PATCH request to `relative_url` under the base address.
    pub fn patch<'a>(&'a self, relative_url: &str) -> (r: Request<'a>)
        ensures
            r@ == RequestView::fresh(self@, Method::Patch, relative_url@),
            r.context() == self,
    {
        Request::patch(self, relative_url)
    }

    /// A POST request to `relative_url` under the base address.
    pub fn post<'a>(&'a self, relative_url: &str) -> (r: Request<'a>)
        ensures
            r@ == RequestView::fresh(self@, Method::Post, relative_url@),
            r.context() == self,
    {
        Request::post(self, relative_url)
    }

    /// A PUT request to `relative_url` under the base address.
    pub fn put<'a>(&'a self, relative_url: &str) -> (r: Request<'a>)
        ensures
            r@ == RequestView::fresh(self@, Method::Put, relative_url@),
            r.context() == self,
    {
        Request::put(self, relative_url)
    }

    /// A DELETE request to `relative_url` under the base address.
    pub fn delete<'a>(&'a self, relative_url: &str) -> (r: Request<'a>)
        ensures
            r@ == RequestView::fresh(self@, Method::Delete, relative_url@),
            r.context() == self,
    {
        Request::delete(self, relative_url)
    }
}

} // verus!
