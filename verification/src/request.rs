//! The request as the verification reads it: method, URL and headers.

use crate::bytes::eq_ignore_case;
use crate::bytes::slice_eq_ignore_case;
use crate::error::HttpAuthError;
use crate::error::Rejection;
use vstd::prelude::*;
use vstd::string::StringSliceAdditionalSpecFns;
use vstd::utf8::encode_utf8;

verus! {

/// A header: its name and its value.
pub type HeaderField = (String, String);

/// An HTTP request, as far as its authentication is concerned.
///
/// The headers stand in the order in which they were received. A name may
/// occur more than once; a lookup takes the first.
#[derive(Debug)]
pub struct HttpRequest {
    /// The request method, a token such as `GET`.
    pub method: String,
    /// The request target: a path with an optional query, or a whole URL.
    pub url: String,
    /// The headers, in order.
    pub headers: Vec<HeaderField>,
}

/// The mathematical form of an [`HttpRequest`]: method and headers as the
/// bytes of their UTF-8 encoding, the URL as text.
pub struct RequestView {
    pub method: Seq<u8>,
    pub url: Seq<char>,
    pub headers: Seq<(Seq<u8>, Seq<u8>)>,
}

/// The names and values of `headers` as bytes.
pub open spec fn headers_view(headers: Seq<HeaderField>) -> Seq<(Seq<u8>, Seq<u8>)> {
    Seq::new(headers.len(), |i: int| (encode_utf8(headers[i].0@), encode_utf8(headers[i].1@)))
}

impl View for HttpRequest {
    type V = RequestView;

    open spec fn view(&self) -> RequestView {
        RequestView {
            method: encode_utf8(self.method@),
            url: self.url@,
            headers: headers_view(self.headers@),
        }
    }
}

/// The value of the first of `headers` whose name is `name`, where names
/// are compared without regard to the case of ASCII letters.
pub open spec fn header_value(headers: Seq<(Seq<u8>, Seq<u8>)>, name: Seq<u8>) -> Option<Seq<u8>>
    decreases headers.len(),
{
    if headers.len() == 0 {
        None
    } else if eq_ignore_case(headers[0].0, name) {
        Some(headers[0].1)
    } else {
        header_value(headers.drop_first(), name)
    }
}

/// The path of the request target `url` with its percent-escapes resolved,
/// or the description of why `url` has none.
pub uninterp spec fn request_path(url: Seq<char>) -> Result<Seq<char>, Seq<char>>;

/// The query of the request target `url`, if it has one, or the description
/// of why `url` is no request target.
pub uninterp spec fn request_query(url: Seq<char>) -> Result<Option<Seq<char>>, Seq<char>>;

/// The path of `url` as bytes, or `None` where `url` has none.
pub open spec fn path_bytes(url: Seq<char>) -> Option<Seq<u8>> {
    match request_path(url) {
        Ok(path) => Some(encode_utf8(path)),
        Err(_) => None,
    }
}

/// The query of `url` as bytes if it has one, or `None` where `url` is no
/// request target.
pub open spec fn query_bytes(url: Seq<char>) -> Option<Option<Seq<u8>>> {
    match request_query(url) {
        Ok(Some(query)) => Some(Some(encode_utf8(query))),
        Ok(None) => Some(None),
        Err(_) => None,
    }
}

/// Takes the path out of a request target.
///
/// Trusted: calls `get_path` of `ic_http_certification::HttpRequest` on a
/// request built from `url`, and renders its error as text. The contract
/// claims only that the result is a function of `url`, which it names
/// [`request_path`].
#[verifier::external_body]
pub(crate) fn url_path(url: &str) -> (r: Result<String, String>)
    ensures
        match r {
            Ok(path) => request_path(url@) == Ok::<Seq<char>, Seq<char>>(path@),
            Err(reason) => request_path(url@) == Err::<Seq<char>, Seq<char>>(reason@),
        },
{
    ic_http_certification::HttpRequest::get(url).build().get_path().map_err(|e| e.to_string())
}

/// Takes the query out of a request target.
///
/// Trusted: calls `get_query` of `ic_http_certification::HttpRequest` on a
/// request built from `url`, and renders its error as text. The contract
/// claims only that the result is a function of `url`, which it names
/// [`request_query`].
#[verifier::external_body]
pub(crate) fn url_query(url: &str) -> (r: Result<Option<String>, String>)
    ensures
        match r {
            Ok(Some(query)) => request_query(url@) == Ok::<Option<Seq<char>>, Seq<char>>(
                Some(query@),
            ),
            Ok(None) => request_query(url@) == Ok::<Option<Seq<char>>, Seq<char>>(None),
            Err(reason) => request_query(url@) == Err::<Option<Seq<char>>, Seq<char>>(reason@),
        },
{
    ic_http_certification::HttpRequest::get(url).build().get_query().map_err(|e| e.to_string())
}

impl HttpRequest {
    /// A request with the given method, target and headers.
    pub fn new(method: String, url: String, headers: Vec<HeaderField>) -> (r: HttpRequest)
        ensures
            r.method == method,
            r.url == url,
            r.headers == headers,
    {
        HttpRequest { method, url, headers }
    }

    /// The request method.
    pub fn method(&self) -> (r: &str)
        ensures
            r@ == self.method@,
    {
        self.method.as_str()
    }

    /// The headers, in order.
    pub fn headers(&self) -> (r: &[HeaderField])
        ensures
            r@ == self.headers@,
    {
        self.headers.as_slice()
    }

    /// The path of the request target, with its percent-escapes resolved.
    pub fn get_path(&self) -> (r: Result<String, HttpAuthError>)
        ensures
            match r {
                Ok(path) => path_bytes(self.url@) == Some(encode_utf8(path@)),
                Err(e) => path_bytes(self.url@).is_none() && e.kind() == Rejection::MalformedUrl,
            },
    {
        match url_path(self.url.as_str()) {
            Ok(path) => Ok(path),
            Err(reason) => Err(HttpAuthError::HttpCertificationError(reason)),
        }
    }

    /// The query of the request target, if it has one.
    pub fn get_query(&self) -> (r: Result<Option<String>, HttpAuthError>)
        ensures
            match r {
                Ok(Some(query)) => query_bytes(self.url@) == Some(Some(encode_utf8(query@))),
                Ok(None) => query_bytes(self.url@) == Some(None::<Seq<u8>>),
                Err(e) => query_bytes(self.url@).is_none() && e.kind() == Rejection::MalformedUrl,
            },
    {
        match url_query(self.url.as_str()) {
            Ok(query) => Ok(query),
            Err(reason) => Err(HttpAuthError::HttpCertificationError(reason)),
        }
    }
}

/// Looks up the value of the first header called `key`, without regard to
/// the case of ASCII letters.
pub fn find_header<'a>(headers: &'a [HeaderField], key: &[u8]) -> (r: Option<&'a str>)
    ensures
        match r {
            Some(value) => header_value(headers_view(headers@), key@) == Some(
                value.spec_bytes(),
            ),
            None => header_value(headers_view(headers@), key@).is_none(),
        },
{
    let ghost all = headers_view(headers@);
    proof {
        assert(all.skip(0) =~= all);
    }
    let mut i: usize = 0;
    while i < headers.len()
        invariant
            i <= headers@.len(),
            all == headers_view(headers@),
            header_value(all, key@) == header_value(all.skip(i as int), key@),
        decreases headers@.len() - i,
    {
        proof {
            assert(all.skip(i as int).drop_first() =~= all.skip(i + 1));
            assert(all.skip(i as int)[0] == all[i as int]);
        }
        if slice_eq_ignore_case(headers[i].0.as_str().as_bytes(), key) {
            return Some(headers[i].1.as_str());
        }
        i += 1;
    }
    None
}

} // verus!
