//! Transport-neutral HTTP value types used by the workflows: the request a
//! workflow wants sent and the response it is handed back.
use std::collections::HashMap;
use std::time::Duration;
use vstd::prelude::*;

verus! {

/// The request methods the service issues.
#[derive(Debug, Clone, Copy, PartialEq, Eq, Structural, Hash, PartialOrd, Ord)]
pub enum HttpMethod {
    GET,
    POST,
    PUT,
    DELETE,
    PATCH,
    OPTIONS,
}

/// A single header value, kept as text.
pub struct HeaderValue(String);

impl View for HeaderValue {
    type V = Seq<char>;

    closed spec fn view(&self) -> Seq<char> {
        self.0@
    }
}

impl HeaderValue {
    pub fn new(value: String) -> (header: Self)
        ensures
            header@ == value@,
    {
        Self(value)
    }

    pub fn as_str(&self) -> (text: &str)
        ensures
            text@ == self@,
    {
        self.0.as_str()
    }

    pub fn into_string(self) -> (text: String)
        ensures
            text@ == self@,
    {
        self.0
    }
}

/// Header names mapped to their values.
pub type Headers = HashMap<String, HeaderValue>;

/// Query parameters.
pub type Params = HashMap<String, String>;

/// An HTTP status code.
pub struct Status {
    code: u16,
}

impl View for Status {
    type V = u16;

    closed spec fn view(&self) -> u16 {
        self.code
    }
}

/// The 2xx class.
pub open spec fn is_success_code(code: u16) -> bool {
    200 <= code < 300
}

/// The 4xx class.
pub open spec fn is_client_error_code(code: u16) -> bool {
    400 <= code < 500
}

/// The 5xx class.
pub open spec fn is_server_error_code(code: u16) -> bool {
    500 <= code < 600
}

impl Status {
    pub fn new(code: u16) -> (status: Self)
        ensures
            status@ == code,
    {
        Self { code }
    }

    pub fn is_success(&self) -> (b: bool)
        ensures
            b == is_success_code(self@),
            b <==> 200 <= self@ && self@ <= 299,
    {
        self.code >= 200 && self.code < 300
    }

    pub fn is_client_error(&self) -> (b: bool)
        ensures
            b == is_client_error_code(self@),
            b <==> 400 <= self@ && self@ <= 499,
    {
        self.code >= 400 && self.code < 500
    }

    pub fn is_server_error(&self) -> (b: bool)
        ensures
            b == is_server_error_code(self@),
            b <==> 500 <= self@ && self@ <= 599,
    {
        self.code >= 500 && self.code < 600
    }
}

/// The success class is exactly the codes 200 to 299, the client-error
/// class exactly 400 to 499, the server-error class exactly 500 to 599.
pub proof fn lemma_status_class_ranges(code: u16)
    ensures
        is_success_code(code) <==> 200 <= code && code <= 299,
        is_client_error_code(code) <==> 400 <= code && code <= 499,
        is_server_error_code(code) <==> 500 <= code && code <= 599,
{
}

/// No status code lies in more than one of the success, client-error and
/// server-error classes.
pub proof fn lemma_status_classes_disjoint(code: u16)
    ensures
        !(is_success_code(code) && is_client_error_code(code)),
        !(is_success_code(code) && is_server_error_code(code)),
        !(is_client_error_code(code) && is_server_error_code(code)),
{
}

/// A request that a workflow asks to have sent.
pub struct HttpRequest<T> {
    pub method: HttpMethod,
    pub url: String,
    pub params: Option<Params>,
    pub headers: Option<Headers>,
    pub body: Option<T>,
    pub timeout: Option<Duration>,
}

impl<T> HttpRequest<T> {
    pub fn new(
        method: HttpMethod,
        url: String,
        headers: Option<Headers>,
        params: Option<Params>,
        body: Option<T>,
        timeout: Option<Duration>,
    ) -> (request: Self)
        ensures
            request.method == method,
            request.url == url,
            request.headers == headers,
            request.params == params,
            request.body == body,
            request.timeout == timeout,
    {
        Self { method, url, params, headers, body, timeout }
    }
}

/// A response handed back to a workflow.
pub struct HttpResponse<T = ()> {
    pub status: Status,
    pub headers: Headers,
    pub body: Option<T>,
}

impl<T> HttpResponse<T> {
    pub fn new(status: Status, headers: Headers, body: Option<T>) -> (response: Self)
        ensures
            response.status == status,
            response.headers == headers,
            response.body == body,
    {
        Self { status, headers, body }
    }
}

} // verus!
