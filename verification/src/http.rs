//! HTTP requests and replies as plain values.

use crate::json::{Json, JsonView};
use crate::text::without_digits;
use vstd::prelude::*;

verus! {

/// What `reqwest` reports when a request gets no reply.
#[verifier::external_type_specification]
#[verifier::external_body]
pub struct ExTransportError(reqwest::Error);

/// Whether `reqwest` finds an error related to connecting.
pub uninterp spec fn is_connect_error(error: reqwest::Error) -> bool;

/// Whether `reqwest` finds an error related to a timeout.
pub uninterp spec fn is_timeout_error(error: reqwest::Error) -> bool;

/// Whether `reqwest` finds an error related to the request.
pub uninterp spec fn is_request_error(error: reqwest::Error) -> bool;

/// How an error of `reqwest` displays itself.
pub uninterp spec fn transport_error_text(error: reqwest::Error) -> Seq<char>;

/// The words that `http` puts behind the number of a status when it displays it.
pub uninterp spec fn reason_phrase(status: u16) -> Seq<char>;

/// `reqwest::Error::is_connect`: the answer depends on the error alone.
pub assume_specification[ reqwest::Error::is_connect ](error: &reqwest::Error) -> (yes: bool)
    ensures
        yes == is_connect_error(*error),
;

/// `reqwest::Error::is_timeout`: the answer depends on the error alone.
pub assume_specification[ reqwest::Error::is_timeout ](error: &reqwest::Error) -> (yes: bool)
    ensures
        yes == is_timeout_error(*error),
;

/// `reqwest::Error::is_request`: the answer depends on the error alone.
pub assume_specification[ reqwest::Error::is_request ](error: &reqwest::Error) -> (yes: bool)
    ensures
        yes == is_request_error(*error),
;

/// `Display` of `reqwest::Error`: the text depends on the error alone.
#[verifier::external_body]
fn transport_error_message(error: &reqwest::Error) -> (text: String)
    ensures
        text@ == transport_error_text(*error),
{
    error.to_string()
}

/// `Display` of `reqwest::StatusCode`: the three digits of the status, a space, and words that
/// depend on the status alone and hold no digit. `StatusCode::from_u16` takes the statuses from
/// 100 to 999.
#[verifier::external_body]
fn display_status(status: u16) -> (text: String)
    requires
        100 <= status <= 999,
    ensures
        text@ == status_digits(status) + seq![' '] + reason_phrase(status),
        without_digits(text@.skip(4)),
{
    reqwest::StatusCode::from_u16(status).unwrap().to_string()
}

/// The decimal digit of a number below ten.
pub open spec fn digit(n: int) -> char {
    ('0' as int + n) as char
}

/// The three decimal digits of a status.
pub open spec fn status_digits(status: u16) -> Seq<char> {
    seq![digit(status as int / 100), digit(status as int / 10 % 10), digit(status as int % 10)]
}

/// A status as an error message shows it, such as `404 Not Found`.
pub open spec fn status_text(status: u16) -> Seq<char> {
    status_digits(status) + seq![' '] + reason_phrase(status)
}

/// Why a request got no reply, or a reply no body.
#[derive(Debug)]
pub struct HttpError {
    /// The failure has to do with connecting.
    pub connect: bool,
    /// The failure has to do with a timeout.
    pub timeout: bool,
    /// The failure has to do with the request.
    pub request: bool,
    /// The failure in words.
    pub message: String,
}

/// What an `HttpError` says.
pub struct HttpErrorView {
    pub connect: bool,
    pub timeout: bool,
    pub request: bool,
    pub message: Seq<char>,
}

impl View for HttpError {
    type V = HttpErrorView;

    open spec fn view(&self) -> HttpErrorView {
        HttpErrorView {
            connect: self.connect,
            timeout: self.timeout,
            request: self.request,
            message: self.message@,
        }
    }
}

impl HttpError {
    /// What an error of `reqwest` says.
    pub fn of(error: &reqwest::Error) -> (plain: HttpError)
        ensures
            plain.connect == is_connect_error(*error),
            plain.timeout == is_timeout_error(*error),
            plain.request == is_request_error(*error),
            plain.message@ == transport_error_text(*error),
    {
        HttpError {
            connect: error.is_connect(),
            timeout: error.is_timeout(),
            request: error.is_request(),
            message: transport_error_message(error),
        }
    }
}

/// The reply to a request.
#[derive(Debug)]
pub struct HttpReply {
    /// The status, from 100 to 999.
    pub status: u16,
    /// The headers, each with its name and the bytes of its value.
    pub headers: Vec<(String, Vec<u8>)>,
    /// The body, or why it could not be read.
    pub body: Result<String, HttpError>,
}

/// What an `HttpReply` says.
pub struct HttpReplyView {
    pub status: u16,
    pub headers: Seq<(Seq<char>, Seq<u8>)>,
    pub body: Result<Seq<char>, HttpErrorView>,
}

impl View for HttpReply {
    type V = HttpReplyView;

    open spec fn view(&self) -> HttpReplyView {
        HttpReplyView {
            status: self.status,
            headers: self.headers.deep_view(),
            body: match self.body {
                Ok(text) => Ok(text@),
                Err(e) => Err(e@),
            },
        }
    }
}

/// What sending a request gave: a reply, or why there is none.
pub type Answer = Result<HttpReply, HttpError>;

/// What an `Answer` says.
pub type AnswerView = Result<HttpReplyView, HttpErrorView>;

/// What an answer says.
pub open spec fn answer_view(answer: Answer) -> AnswerView {
    match answer {
        Ok(reply) => Ok(reply@),
        Err(e) => Err(e@),
    }
}

/// The status of a reply is one that HTTP has.
pub open spec fn valid_answer(answer: AnswerView) -> bool {
    answer matches Ok(reply) ==> 100 <= reply.status <= 999
}

/// The lower-case form of an ASCII letter; any other char is its own.
pub open spec fn lower(c: char) -> char {
    if 'A' <= c && c <= 'Z' {
        (c as int + 32) as char
    } else {
        c
    }
}

/// The same header name, in whatever case its letters are written.
pub open spec fn same_name(a: Seq<char>, b: Seq<char>) -> bool {
    a.len() == b.len() && forall|i: int| 0 <= i < a.len() ==> lower(#[trigger] a[i]) == lower(b[i])
}

/// A byte that a header value may show: printable ASCII or a tab.
pub open spec fn visible(b: u8) -> bool {
    32 <= b < 127 || b == 9
}

/// The text of a header value; none where a byte of it is not visible ASCII.
pub open spec fn header_text(value: Seq<u8>) -> Option<Seq<char>> {
    if forall|i: int| 0 <= i < value.len() ==> visible(#[trigger] value[i]) {
        Some(Seq::new(value.len(), |i: int| value[i] as char))
    } else {
        None
    }
}

/// The value of the first header of that name.
pub open spec fn header_value(headers: Seq<(Seq<char>, Seq<u8>)>, name: Seq<char>) -> Option<
    Seq<u8>,
>
    decreases headers.len(),
{
    if headers.len() == 0 {
        None
    } else if same_name(headers[0].0, name) {
        Some(headers[0].1)
    } else {
        header_value(headers.skip(1), name)
    }
}

impl HttpReplyView {
    /// The status says that the request was carried out.
    pub open spec fn success(self) -> bool {
        200 <= self.status < 300
    }

    /// The text of the first header of that name.
    pub open spec fn header(self, name: Seq<char>) -> Option<Seq<char>> {
        match header_value(self.headers, name) {
            Some(value) => header_text(value),
            None => None,
        }
    }

    /// The body, empty where it could not be read.
    pub open spec fn body_or_empty(self) -> Seq<char> {
        match self.body {
            Ok(text) => text,
            Err(_) => Seq::empty(),
        }
    }
}

/// The lower-case form of an ASCII letter; any other char is its own.
fn to_lower(c: char) -> (l: char)
    ensures
        l == lower(c),
{
    if 'A' <= c && c <= 'Z' {
        (c as u8 + 32) as char
    } else {
        c
    }
}

/// Whether two header names are the same, in whatever case their letters are written.
fn names_match(a: &str, b: &str) -> (same: bool)
    ensures
        same == same_name(a@, b@),
{
    let left = crate::text::to_chars(a);
    let right = crate::text::to_chars(b);
    if left.len() != right.len() {
        return false;
    }
    let mut i: usize = 0;
    while i < left.len()
        invariant
            i <= left@.len(),
            left@ == a@,
            right@ == b@,
            left@.len() == right@.len(),
            forall|j: int| 0 <= j < i ==> lower(#[trigger] left@[j]) == lower(right@[j]),
        decreases left.len() - i,
    {
        if to_lower(left[i]) != to_lower(right[i]) {
            assert(lower(a@[i as int]) != lower(b@[i as int]));
            return false;
        }
        i = i + 1;
    }
    true
}

/// The text of a header value; none where a byte of it is not visible ASCII.
fn visible_text(value: &Vec<u8>) -> (text: Option<String>)
    ensures
        text.deep_view() == header_text(value@),
{
    let mut text = String::new();
    let mut i: usize = 0;
    while i < value.len()
        invariant
            i <= value@.len(),
            forall|j: int| 0 <= j < i ==> visible(#[trigger] value@[j]),
            text@ == Seq::new(i as nat, |j: int| value@[j] as char),
        decreases value.len() - i,
    {
        let b: u8 = value[i];
        if !((32 <= b && b < 127) || b == 9) {
            assert(!visible(value@[i as int]));
            return None;
        }
        text.push(b as char);
        assert(text@ =~= Seq::new((i + 1) as nat, |j: int| value@[j] as char));
        i = i + 1;
    }
    Some(text)
}

impl HttpReply {
    /// Whether the status says that the request was carried out.
    pub fn success(&self) -> (ok: bool)
        ensures
            ok == self@.success(),
    {
        200 <= self.status && self.status < 300
    }

    /// The text of the first header of that name.
    pub fn header(&self, name: &str) -> (text: Option<String>)
        ensures
            text.deep_view() == self@.header(name@),
    {
        let ghost all = self.headers.deep_view();
        let mut i: usize = 0;
        assert(all.skip(0) =~= all);
        while i < self.headers.len()
            invariant
                i <= self.headers@.len(),
                all == self.headers.deep_view(),
                header_value(all.skip(i as int), name@) == header_value(all, name@),
            decreases self.headers.len() - i,
        {
            let ghost rest = all.skip(i as int);
            assert(rest[0] == (self.headers@[i as int].0@, self.headers@[i as int].1.deep_view()));
            assert(self.headers@[i as int].1.deep_view() =~= self.headers@[i as int].1@);
            if names_match(self.headers[i].0.as_str(), name) {
                return visible_text(&self.headers[i].1);
            }
            assert(rest.skip(1) =~= all.skip(i + 1));
            i = i + 1;
        }
        None
    }

    /// The body, empty where it could not be read.
    pub fn body_or_empty(&self) -> (text: String)
        ensures
            text@ == self@.body_or_empty(),
    {
        match &self.body {
            Ok(text) => text.clone(),
            Err(_) => String::new(),
        }
    }
}

/// A status as an error message shows it.
pub fn show_status(status: u16) -> (text: String)
    requires
        100 <= status <= 999,
    ensures
        text@ == status_text(status),
        without_digits(text@.skip(4)),
{
    display_status(status)
}

/// How a request asks.
#[derive(Clone, Copy, PartialEq, Eq, Structural, Debug)]
pub enum Method {
    Get,
    Options,
    Post,
}

/// A request to send.
#[derive(Debug)]
pub struct HttpRequest {
    pub method: Method,
    pub url: String,
    /// The headers, each with its name and its value.
    pub headers: Vec<(String, String)>,
    /// The document to send as the body.
    pub body: Option<Json>,
}

/// What an `HttpRequest` asks.
pub struct HttpRequestView {
    pub method: Method,
    pub url: Seq<char>,
    pub headers: Seq<(Seq<char>, Seq<char>)>,
    pub body: Option<JsonView>,
}

impl View for HttpRequest {
    type V = HttpRequestView;

    open spec fn view(&self) -> HttpRequestView {
        HttpRequestView {
            method: self.method,
            url: self.url@,
            headers: self.headers.deep_view(),
            body: self.body.deep_view(),
        }
    }
}

} // verus!
