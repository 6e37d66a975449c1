use vstd::prelude::*;
use vstd::std_specs::convert::FromSpec;
use vstd::string::StringSliceAdditionalSpecFns;

use crate::general::{CR, LF, SP};
use crate::header::{Header, HeaderKey, HeaderValue};
use crate::headers::{headers_bytes, max_nat, without_key, Headers};
use crate::request::header_is;
use crate::status_code::StatusCode;

verus! {

/// The head of a response on the wire: the status line, the header lines
/// and the blank line that ends them.
pub open spec fn response_head<'a>(
    protocol: Seq<char>,
    status_code: StatusCode,
    headers: Seq<Header<'a>>,
) -> Seq<u8> {
    vstd::utf8::encode_utf8(protocol) + seq![SP] + vstd::utf8::encode_utf8(status_code.spec_text())
        + seq![CR, LF] + headers_bytes(headers) + seq![CR, LF]
}

/// Represents a single HTTP-Response
#[derive(Debug, PartialEq)]
pub struct Response<'a> {
    status_code: StatusCode,
    protocol: &'a str,
    headers: Headers<'a>,
    body: Vec<u8>,
}

impl<'a> Response<'a> {
    /// The response's status code.
    pub closed spec fn spec_status_code(&self) -> StatusCode {
        self.status_code
    }

    /// The response's protocol.
    pub closed spec fn spec_protocol(&self) -> Seq<char> {
        self.protocol@
    }

    /// The response's headers.
    pub closed spec fn spec_headers(&self) -> Headers<'a> {
        self.headers
    }

    /// The response's body.
    pub closed spec fn spec_body(&self) -> Seq<u8> {
        self.body@
    }

    /// Creates a new Response with the given
    /// Data as its inital State
    pub fn new(protocol: &'a str, status_code: StatusCode, headers: Headers<'a>, body: Vec<u8>) -> (r:
        Self)
        ensures
            r.spec_status_code() == status_code,
            r.spec_protocol() == protocol@,
            r.spec_headers() == headers,
            r.spec_body() == body@,
    {
        Self { status_code, protocol, headers, body }
    }

    /// Serialzes the Response and returns the Data as
    /// a tuple of form (HTTP-Head, HTTP-Body)
    pub fn serialize(&self) -> (r: (Vec<u8>, &[u8]))
        ensures
            r.0@ == response_head(self.spec_protocol(), self.spec_status_code(), self.spec_headers()@),
            r.1@ == self.spec_body(),
    {
        let protocol = self.protocol;
        let status_code = self.status_code.serialize();
        let mut result: Vec<u8> = Vec::new();
        result.extend_from_slice(protocol.as_bytes());
        result.push(SP);
        result.extend_from_slice(status_code.as_bytes());
        result.push(CR);
        result.push(LF);
        self.headers.serialize(&mut result);
        result.push(CR);
        result.push(LF);
        assert(result@ =~= response_head(
            self.spec_protocol(),
            self.spec_status_code(),
            self.spec_headers()@,
        ));
        (result, self.body.as_slice())
    }

    /// Returns the Protocol of the Response
    pub fn protocol(&self) -> (r: &str)
        ensures
            r@ == self.spec_protocol(),
    {
        self.protocol
    }

    /// Returns the StatusCode of the Response
    pub fn status_code(&self) -> (r: &StatusCode)
        ensures
            *r == self.spec_status_code(),
    {
        &self.status_code
    }

    /// Returns the Headers of the Response
    pub fn headers(&self) -> (r: &Headers<'a>)
        ensures
            *r == self.spec_headers(),
    {
        &self.headers
    }

    /// Returns the Body of the Response
    pub fn body(&self) -> (r: &[u8])
        ensures
            r@ == self.spec_body(),
    {
        self.body.as_slice()
    }

    /// Adds the Key-Value Pair as a new Header to
    /// the Response or replaces the old Value of the
    /// Header if it already existed on the Response
    pub fn add_header<K, V>(&mut self, key: K, value: V) where
        HeaderKey<'a>: From<K>,
        HeaderValue<'a>: From<V>,

        requires
            <HeaderKey<'a> as FromSpec<K>>::obeys_from_spec(),
            <HeaderValue<'a> as FromSpec<V>>::obeys_from_spec(),
        ensures
            final(self).spec_headers()@ == without_key(
                old(self).spec_headers()@,
                HeaderKey::<'a>::from_spec(key)@,
            ).push(
                (Header { key: HeaderKey::<'a>::from_spec(key), value: HeaderValue::<'a>::from_spec(value) }),
            ),
            final(self).spec_headers().max_len() == max_nat(
                old(self).spec_headers().max_len(),
                HeaderValue::<'a>::from_spec(value).spec_bytes().len(),
            ),
            final(self).spec_status_code() == old(self).spec_status_code(),
            final(self).spec_protocol() == old(self).spec_protocol(),
            final(self).spec_body() == old(self).spec_body(),
    {
        self.headers.set(key, value);
    }

    /// Replaces the old Body of the Response with the
    /// new given Body and updates the Content-Length
    /// Header as well with the new Length
    pub fn set_body(&mut self, n_body: Vec<u8>)
        ensures
            final(self).spec_body() == n_body@,
            final(self).spec_headers()@ == without_key(
                old(self).spec_headers()@,
                "Content-Length"@,
            ).push(
                (Header {
                    key: HeaderKey::StrRef("Content-Length"),
                    value: HeaderValue::NumberUsize(n_body@.len() as usize),
                }),
            ),
            final(self).spec_status_code() == old(self).spec_status_code(),
            final(self).spec_protocol() == old(self).spec_protocol(),
    {
        let len = n_body.len();
        self.body = n_body;
        self.add_header("Content-Length", len);
    }

    /// Checks if the Response is send using
    /// `Transfer-Encoding: Chunked`
    pub fn is_chunked(&self) -> (r: bool)
        ensures
            r == header_is(self.spec_headers()@, "Transfer-Encoding"@, "Chunked"@),
    {
        match self.headers.get("Transfer-Encoding") {
            None => false,
            Some(value) => value.eq_ignore_case(&HeaderValue::StrRef("Chunked")),
        }
    }
}

} // verus!
