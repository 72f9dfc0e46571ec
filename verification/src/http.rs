//! The structured shape of an HTTP exchange.
//!
//! The contract's `http_request` operation carries a structured request
//! (method, target URI, header sequence, body bytes) and yields a structured
//! response (status, header sequence, body bytes). Headers are an ordered
//! sequence of name/value pairs: the contract promises that a backend loses
//! and reorders nothing the transport itself preserved, so the order is part
//! of the model. Encoding, addressing and protocol details belong to each
//! backend, not to these types.

use vstd::prelude::*;

verus! {

/// An HTTP request method.
#[derive(Clone, Copy, Debug, PartialEq, Eq, Structural)]
pub enum HttpMethod {
    Get,
    Head,
    Post,
    Put,
    Delete,
    Connect,
    Options,
    Trace,
    Patch,
}

/// The standard spelling of each request method.
pub open spec fn method_name(m: HttpMethod) -> Seq<char> {
    match m {
        HttpMethod::Get => "GET"@,
        HttpMethod::Head => "HEAD"@,
        HttpMethod::Post => "POST"@,
        HttpMethod::Put => "PUT"@,
        HttpMethod::Delete => "DELETE"@,
        HttpMethod::Connect => "CONNECT"@,
        HttpMethod::Options => "OPTIONS"@,
        HttpMethod::Trace => "TRACE"@,
        HttpMethod::Patch => "PATCH"@,
    }
}

impl HttpMethod {
    /// The method's standard spelling, for handing to a transport.
    pub fn as_str(&self) -> (r: &'static str)
        ensures
            r@ == method_name(*self),
    {
        match self {
            HttpMethod::Get => "GET",
            HttpMethod::Head => "HEAD",
            HttpMethod::Post => "POST",
            HttpMethod::Put => "PUT",
            HttpMethod::Delete => "DELETE",
            HttpMethod::Connect => "CONNECT",
            HttpMethod::Options => "OPTIONS",
            HttpMethod::Trace => "TRACE",
            HttpMethod::Patch => "PATCH",
        }
    }
}

/// The abstract value of a header sequence: each name as its characters,
/// each value as its bytes, in the order the headers were set.
pub open spec fn header_views(hs: Seq<(String, Vec<u8>)>) -> Seq<(Seq<char>, Seq<u8>)> {
    hs.map_values(|p: (String, Vec<u8>)| (p.0@, p.1@))
}

/// The abstract value of an [`HttpRequest`].
#[verifier::ext_equal]
pub struct HttpRequestView {
    pub method: HttpMethod,
    pub uri: Seq<char>,
    pub headers: Seq<(Seq<char>, Seq<u8>)>,
    pub body: Seq<u8>,
}

/// A structured HTTP request: method, target URI, ordered headers, body.
pub struct HttpRequest {
    pub method: HttpMethod,
    pub uri: String,
    pub headers: Vec<(String, Vec<u8>)>,
    pub body: Vec<u8>,
}

impl View for HttpRequest {
    type V = HttpRequestView;

    open spec fn view(&self) -> HttpRequestView {
        HttpRequestView {
            method: self.method,
            uri: self.uri@,
            headers: header_views(self.headers@),
            body: self.body@,
        }
    }
}

impl HttpRequest {
    /// A request with the given method and target, no headers and an empty
    /// body.
    pub fn new(method: HttpMethod, uri: String) -> (r: HttpRequest)
        ensures
            r@.method == method,
            r@.uri == uri@,
            r@.headers == Seq::<(Seq<char>, Seq<u8>)>::empty(),
            r@.body == Seq::<u8>::empty(),
    {
        let r = HttpRequest { method, uri, headers: Vec::new(), body: Vec::new() };
        proof {
            assert(r@.headers =~= Seq::<(Seq<char>, Seq<u8>)>::empty());
            assert(r@.body =~= Seq::<u8>::empty());
        }
        r
    }

    /// Appends one header; every header already present keeps its place.
    pub fn add_header(&mut self, name: String, value: Vec<u8>)
        ensures
            final(self)@.method == old(self)@.method,
            final(self)@.uri == old(self)@.uri,
            final(self)@.headers == old(self)@.headers.push((name@, value@)),
            final(self)@.body == old(self)@.body,
    {
        let ghost n = name@;
        let ghost v = value@;
        self.headers.push((name, value));
        proof {
            assert(self@.headers =~= old(self)@.headers.push((n, v)));
        }
    }

    /// Replaces the request body.
    pub fn set_body(&mut self, body: Vec<u8>)
        ensures
            final(self)@.method == old(self)@.method,
            final(self)@.uri == old(self)@.uri,
            final(self)@.headers == old(self)@.headers,
            final(self)@.body == body@,
    {
        self.body = body;
    }
}

/// Whether a number is a legal HTTP status code.
pub open spec fn valid_status(s: int) -> bool {
    100 <= s <= 599
}

/// The abstract value of an [`HttpResponse`].
#[verifier::ext_equal]
pub struct HttpResponseView {
    pub status: int,
    pub headers: Seq<(Seq<char>, Seq<u8>)>,
    pub body: Seq<u8>,
}

/// A structured HTTP response: status code, ordered headers, body.
pub struct HttpResponse {
    pub status: u16,
    pub headers: Vec<(String, Vec<u8>)>,
    pub body: Vec<u8>,
}

impl View for HttpResponse {
    type V = HttpResponseView;

    open spec fn view(&self) -> HttpResponseView {
        HttpResponseView {
            status: self.status as int,
            headers: header_views(self.headers@),
            body: self.body@,
        }
    }
}

impl HttpResponse {
    /// Whether the response carries a legal status code.
    pub open spec fn wf(&self) -> bool {
        valid_status(self@.status)
    }

    /// Assembles a response from what a transport returned, keeping status,
    /// headers and body exactly as given: nothing is lost or reordered.
    /// Succeeds if and only if the status code is a legal one.
    pub fn build(status: u16, headers: Vec<(String, Vec<u8>)>, body: Vec<u8>) -> (r: Option<
        HttpResponse,
    >)
        ensures
            r is Some <==> valid_status(status as int),
            r matches Some(resp) ==> {
                &&& resp@.status == status as int
                &&& resp@.headers == header_views(headers@)
                &&& resp@.body == body@
                &&& resp.wf()
            },
    {
        if 100 <= status && status <= 599 {
            Some(HttpResponse { status, headers, body })
        } else {
            None
        }
    }

    /// A copy of this response with the same abstract value.
    pub fn duplicate(&self) -> (r: HttpResponse)
        ensures
            r@ == self@,
            r.wf() == self.wf(),
    {
        let mut headers: Vec<(String, Vec<u8>)> = Vec::new();
        let mut i: usize = 0;
        while i < self.headers.len()
            invariant
                i <= self.headers.len(),
                headers@.len() == i,
                forall|k: int|
                    0 <= k < i ==> #[trigger] header_views(headers@)[k] == header_views(
                        self.headers@,
                    )[k],
            decreases self.headers.len() - i,
        {
            let ghost prev = headers@;
            let name = self.headers[i].0.clone();
            let value = self.headers[i].1.clone();
            proof {
                assert forall|j: int|
                    0 <= j < value@.len() implies value@[j] == self.headers[i as int].1@[j] by {
                    assert(cloned::<u8>(self.headers[i as int].1[j], value[j]));
                }
                assert(value@ =~= self.headers[i as int].1@);
            }
            let ghost gname = name;
            let ghost gvalue = value;
            headers.push((name, value));
            proof {
                assert forall|k: int|
                    0 <= k < i + 1 implies #[trigger] header_views(headers@)[k] == header_views(
                        self.headers@,
                    )[k] by {
                    if k < i {
                        assert(headers@[k] == prev[k]);
                        assert(header_views(prev)[k] == header_views(self.headers@)[k]);
                    } else {
                        assert(headers@[k] == (gname, gvalue));
                        assert(header_views(headers@)[k] == (gname@, gvalue@));
                        assert(gname@ == self.headers[k].0@);
                        assert(gvalue@ == self.headers[k].1@);
                    }
                }
            }
            i = i + 1;
        }
        proof {
            assert(header_views(headers@) =~= header_views(self.headers@));
        }
        let mut body: Vec<u8> = Vec::new();
        let mut j: usize = 0;
        while j < self.body.len()
            invariant
                j <= self.body.len(),
                body@ =~= self.body@.take(j as int),
            decreases self.body.len() - j,
        {
            body.push(self.body[j]);
            j = j + 1;
        }
        proof {
            assert(body@ =~= self.body@);
        }
        let r = HttpResponse { status: self.status, headers, body };
        proof {
            assert(r@ =~= self@);
        }
        r
    }
}

} // verus!
