//! Requests and responses as plain values, and the transport that carries
//! them.

use crate::auth::{CredentialType, CredentialView};
use crate::text::{eq_ignoring_case, same_ignoring_case};
use vstd::prelude::*;
use vstd::string::StringSliceAdditionalSpecFns;

verus! {

/// The request methods that the table interface uses.
#[derive(Debug, Clone, Copy, PartialEq, Eq, Structural)]
pub enum Method {
    Get,
    Post,
    Put,
}

/// One request to the remote instance. The transport adds the
/// `Authorization` header that `credentials` calls for.
#[derive(Debug)]
pub struct Request {
    pub method: Method,
    pub url: String,
    /// Header fields, each as name and value, in the order to send them.
    pub headers: Vec<(String, String)>,
    pub credentials: CredentialType,
    pub body: Option<String>,
}

/// What a `Request` holds, as text.
pub struct RequestView {
    pub method: Method,
    pub url: Seq<char>,
    pub headers: Seq<(Seq<char>, Seq<char>)>,
    pub credentials: CredentialView,
    pub body: Option<Seq<char>>,
}

impl View for Request {
    type V = RequestView;

    open spec fn view(&self) -> RequestView {
        RequestView {
            method: self.method,
            url: self.url@,
            headers: Seq::new(
                self.headers@.len(),
                |i: int| (self.headers@[i].0@, self.headers@[i].1@),
            ),
            credentials: self.credentials@,
            body: match self.body {
                Some(text) => Some(text@),
                None => None,
            },
        }
    }
}

/// The header fields that every request carries.
pub open spec fn json_headers() -> Seq<(Seq<char>, Seq<char>)> {
    seq![("Accept"@, "application/json"@), ("Content-Type"@, "application/json"@)]
}

impl Request {
    /// A request for JSON: `method` on `url`, with the two JSON header
    /// fields, the given credentials and the given body.
    pub fn json(method: Method, url: String, credentials: CredentialType, body: Option<String>) -> (request:
        Request)
        ensures
            request@ == (RequestView {
                method,
                url: url@,
                headers: json_headers(),
                credentials: credentials@,
                body: match body {
                    Some(text) => Some(text@),
                    None => None,
                },
            }),
    {
        let mut headers: Vec<(String, String)> = Vec::new();
        headers.push((String::from_str("Accept"), String::from_str("application/json")));
        headers.push((String::from_str("Content-Type"), String::from_str("application/json")));
        let request = Request { method, url, headers, credentials, body };
        assert(request@.headers =~= json_headers());
        request
    }
}

/// One header field of a response.
#[derive(Debug)]
pub struct Header {
    pub name: Vec<u8>,
    pub value: Vec<u8>,
}

/// What came back for a request.
#[derive(Debug)]
pub struct Response {
    pub status: u16,
    /// The header fields in the order in which they were received.
    pub headers: Vec<Header>,
    pub body: Vec<u8>,
}

/// What a `Response` holds, as byte strings.
pub struct ResponseView {
    pub status: u16,
    pub headers: Seq<(Seq<u8>, Seq<u8>)>,
    pub body: Seq<u8>,
}

impl View for Response {
    type V = ResponseView;

    open spec fn view(&self) -> ResponseView {
        ResponseView {
            status: self.status,
            headers: Seq::new(
                self.headers@.len(),
                |i: int| (self.headers@[i].name@, self.headers@[i].value@),
            ),
            body: self.body@,
        }
    }
}

/// The value of the first of `headers` whose name is `name` up to the case of
/// ASCII letters.
pub open spec fn header_value(headers: Seq<(Seq<u8>, Seq<u8>)>, name: Seq<u8>) -> Option<Seq<u8>>
    decreases headers.len(),
{
    if headers.len() == 0 {
        None
    } else if same_ignoring_case(headers[0].0, name) {
        Some(headers[0].1)
    } else {
        header_value(headers.drop_first(), name)
    }
}

impl Response {
    /// A response with the given status and body and no header fields.
    pub fn new(status: u16, body: Vec<u8>) -> (response: Response)
        ensures
            response@ == (ResponseView {
                status,
                headers: Seq::<(Seq<u8>, Seq<u8>)>::empty(),
                body: body@,
            }),
    {
        let response = Response { status, headers: Vec::new(), body };
        assert(response@.headers =~= Seq::<(Seq<u8>, Seq<u8>)>::empty());
        response
    }

    /// Adds a header field after those that the response has.
    pub fn add_header(&mut self, name: &str, value: &str)
        ensures
            final(self)@ == (ResponseView {
                headers: old(self)@.headers.push((name.spec_bytes(), value.spec_bytes())),
                ..old(self)@
            }),
    {
        self.headers.push(Header { name: name.as_bytes_vec(), value: value.as_bytes_vec() });
        assert(self@.headers =~= old(self)@.headers.push((name.spec_bytes(), value.spec_bytes())));
    }

    /// The value of the first header field named `name`; the case of ASCII
    /// letters in the name does not matter.
    pub fn header(&self, name: &str) -> (value: Option<&Vec<u8>>)
        ensures
            match header_value(self@.headers, name.spec_bytes()) {
                Some(bytes) => value matches Some(found) && found@ == bytes,
                None => value is None,
            },
    {
        let wanted = name.as_bytes();
        let mut i: usize = 0;
        assert(self@.headers.subrange(0, self@.headers.len() as int) =~= self@.headers);
        while i < self.headers.len()
            invariant
                i <= self.headers@.len(),
                wanted@ == name.spec_bytes(),
                header_value(self@.headers, name.spec_bytes()) == header_value(
                    self@.headers.subrange(i as int, self@.headers.len() as int),
                    name.spec_bytes(),
                ),
            decreases self.headers@.len() - i,
        {
            let ghost rest = self@.headers.subrange(i as int, self@.headers.len() as int);
            assert(rest[0] == self@.headers[i as int]);
            assert(rest.drop_first() =~= self@.headers.subrange(
                i as int + 1,
                self@.headers.len() as int,
            ));
            if eq_ignoring_case(self.headers[i].name.as_slice(), wanted) {
                return Some(&self.headers[i].value);
            }
            i = i + 1;
        }
        None
    }
}

/// The transport could not deliver a request or its response.
#[derive(Debug, Clone, Copy, PartialEq, Eq, Structural)]
pub struct TransportError;

/// Something that sends a request to the remote instance and brings back
/// what the instance answered. Nothing is assumed of what comes back.
pub trait Transport {
    /// Sends `request` and waits for the response.
    fn send(&self, request: &Request) -> Result<Response, TransportError>;
}

} // verus!
