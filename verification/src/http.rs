//! What the transport hands back for one request, as plain values, and the
//! rules by which a reply counts as a failure of the network.

use crate::fields::Field;
use crate::text::{decimal_text, joined, optional_text, push_decimal, to_chars};
use vstd::prelude::*;
use vstd::string::StringExecFns;

verus! {

/// One header of a reply.
pub type Header = Field;

/// The lower-case form of an ASCII capital letter; every other character is
/// its own.
pub open spec fn lower_char(c: char) -> char {
    if 'A' <= c && c <= 'Z' {
        ((c as u8) + 32) as char
    } else {
        c
    }
}

/// A text with its ASCII capital letters in lower case.
pub open spec fn lowered(text: Seq<char>) -> Seq<char> {
    Seq::new(text.len(), |i: int| lower_char(text[i]))
}

/// The value of the first header that goes by `name`, if there is one.
/// Header names are compared without regard to the case of ASCII letters.
pub open spec fn header_value(headers: Seq<Header>, name: Seq<char>) -> Option<Seq<char>>
    decreases headers.len(),
{
    if headers.len() == 0 {
        None
    } else {
        match header_value(headers.drop_last(), name) {
            Some(value) => Some(value),
            None => if lowered(headers.last().name@) == lowered(name) {
                Some(headers.last().value@)
            } else {
                None
            },
        }
    }
}

/// A reply with a binary body.
#[derive(Debug, PartialEq, Eq)]
pub struct HttpReply {
    /// The numeric HTTP status.
    pub status: u16,
    /// The headers, in the order of the reply.
    pub headers: Vec<Header>,
    /// The whole body, or why it could not be read.
    pub body: Result<Vec<u8>, String>,
}

/// A reply whose body was read as text.
#[derive(Debug, PartialEq, Eq)]
pub struct TextReply {
    /// The numeric HTTP status.
    pub status: u16,
    /// The whole body as text, or why it could not be read.
    pub body: Result<String, String>,
}

/// What a request ends in: a reply, or the reason why none came.
pub type Fetched = Result<HttpReply, String>;

/// What a request for text ends in.
pub type FetchedText = Result<TextReply, String>;

/// A failure of the network. It covers a connection that could not be made,
/// a status outside 200 to 299, and a body that could not be read.
#[derive(Debug, PartialEq, Eq)]
pub enum NetworkError {
    Connect { reason: String },
    Status { status: u16 },
    Body { reason: String },
}

/// The model of a [`NetworkError`].
pub enum NetworkErrorView {
    Connect { reason: Seq<char> },
    Status { status: u16 },
    Body { reason: Seq<char> },
}

impl View for NetworkError {
    type V = NetworkErrorView;

    open spec fn view(&self) -> NetworkErrorView {
        match *self {
            NetworkError::Connect { reason } => NetworkErrorView::Connect { reason: reason@ },
            NetworkError::Status { status } => NetworkErrorView::Status { status },
            NetworkError::Body { reason } => NetworkErrorView::Body { reason: reason@ },
        }
    }
}

/// An HTTP status that reports success: 200 to 299.
pub open spec fn is_success_status(status: u16) -> bool {
    200 <= status < 300
}

/// The bytes that a request brought, or the network failure it ended in.
/// The connection is judged first, then the status, then the body.
pub open spec fn reply_bytes(fetched: Fetched) -> Result<Seq<u8>, NetworkErrorView> {
    match fetched {
        Err(reason) => Err(NetworkErrorView::Connect { reason: reason@ }),
        Ok(reply) => if !is_success_status(reply.status) {
            Err(NetworkErrorView::Status { status: reply.status })
        } else {
            match reply.body {
                Ok(bytes) => Ok(bytes@),
                Err(reason) => Err(NetworkErrorView::Body { reason: reason@ }),
            }
        },
    }
}

/// The text that a request brought, or the network failure it ended in, by
/// the same order of judgement as [`reply_bytes`].
pub open spec fn reply_text(fetched: FetchedText) -> Result<Seq<char>, NetworkErrorView> {
    match fetched {
        Err(reason) => Err(NetworkErrorView::Connect { reason: reason@ }),
        Ok(reply) => if !is_success_status(reply.status) {
            Err(NetworkErrorView::Status { status: reply.status })
        } else {
            match reply.body {
                Ok(text) => Ok(text@),
                Err(reason) => Err(NetworkErrorView::Body { reason: reason@ }),
            }
        },
    }
}

/// The text of a network error, as the caller is shown it.
pub open spec fn network_error_text(error: NetworkErrorView) -> Seq<char> {
    match error {
        NetworkErrorView::Connect { reason } => "Request failed: "@ + reason,
        NetworkErrorView::Status { status } => "Request failed: HTTP "@ + decimal_text(
            status as nat,
        ),
        NetworkErrorView::Body { reason } => "Failed to read response body: "@ + reason,
    }
}

/// Puts an ASCII capital letter into lower case.
fn lower(c: char) -> (l: char)
    ensures
        l == lower_char(c),
{
    if 'A' <= c && c <= 'Z' {
        ((c as u8) + 32) as char
    } else {
        c
    }
}

/// Tells whether two header names are the same but for the case of ASCII
/// letters.
pub fn same_name(left: &str, right: &str) -> (same: bool)
    ensures
        same == (lowered(left@) == lowered(right@)),
{
    let a = to_chars(left);
    let b = to_chars(right);
    if a.len() != b.len() {
        assert(lowered(a@).len() != lowered(b@).len());
        return false;
    }
    let mut i: usize = 0;
    while i < a.len()
        invariant
            a@ == left@,
            b@ == right@,
            a@.len() == b@.len(),
            i <= a@.len(),
            forall|j: int| 0 <= j < i ==> lower_char(a@[j]) == lower_char(b@[j]),
        decreases a@.len() - i,
    {
        if lower(a[i]) != lower(b[i]) {
            assert(lowered(a@)[i as int] == lower_char(a@[i as int]));
            assert(lowered(b@)[i as int] == lower_char(b@[i as int]));
            return false;
        }
        i = i + 1;
    }
    assert(lowered(a@) =~= lowered(b@));
    true
}

/// Looks up the value of the first header that goes by `name`.
pub fn header(headers: &Vec<Header>, name: &str) -> (value: Option<String>)
    ensures
        optional_text(value) == header_value(headers@, name@),
{
    let mut value: Option<String> = None;
    let mut i: usize = 0;
    while i < headers.len()
        invariant
            i <= headers@.len(),
            optional_text(value) == header_value(headers@.take(i as int), name@),
        decreases headers@.len() - i,
    {
        assert(headers@.take(i + 1).drop_last() =~= headers@.take(i as int));
        if value.is_none() && same_name(headers[i].name.as_str(), name) {
            value = Some(headers[i].value.clone());
        }
        i = i + 1;
    }
    assert(headers@.take(headers@.len() as int) =~= headers@);
    value
}

/// Tells whether an HTTP status reports success.
pub fn is_success(status: u16) -> (success: bool)
    ensures
        success == is_success_status(status),
{
    200 <= status && status < 300
}

/// The model of what [`bytes_of`] returns.
pub open spec fn bytes_result_view(result: Result<Vec<u8>, NetworkError>) -> Result<
    Seq<u8>,
    NetworkErrorView,
> {
    match result {
        Ok(bytes) => Ok(bytes@),
        Err(error) => Err(error@),
    }
}

/// The model of what [`text_of`] returns.
pub open spec fn text_result_view(result: Result<String, NetworkError>) -> Result<
    Seq<char>,
    NetworkErrorView,
> {
    match result {
        Ok(text) => Ok(text@),
        Err(error) => Err(error@),
    }
}

/// Takes the body out of what a request ended in, or says how the network
/// failed.
pub fn bytes_of(fetched: Fetched) -> (result: Result<Vec<u8>, NetworkError>)
    ensures
        bytes_result_view(result) == reply_bytes(fetched),
{
    match fetched {
        Err(reason) => Err(NetworkError::Connect { reason }),
        Ok(reply) => {
            if !is_success(reply.status) {
                return Err(NetworkError::Status { status: reply.status });
            }
            match reply.body {
                Ok(bytes) => Ok(bytes),
                Err(reason) => Err(NetworkError::Body { reason }),
            }
        },
    }
}

/// Takes the text out of what a request for text ended in, or says how the
/// network failed.
pub fn text_of(fetched: FetchedText) -> (result: Result<String, NetworkError>)
    ensures
        text_result_view(result) == reply_text(fetched),
{
    match fetched {
        Err(reason) => Err(NetworkError::Connect { reason }),
        Ok(reply) => {
            if !is_success(reply.status) {
                return Err(NetworkError::Status { status: reply.status });
            }
            match reply.body {
                Ok(text) => Ok(text),
                Err(reason) => Err(NetworkError::Body { reason }),
            }
        },
    }
}

impl NetworkError {
    /// The message that describes this error to the caller.
    pub fn message(&self) -> (text: String)
        ensures
            text@ == network_error_text(self@),
    {
        match self {
            NetworkError::Connect { reason } => joined("Request failed: ", reason.as_str()),
            NetworkError::Status { status } => {
                let mut text = String::from_str("Request failed: HTTP ");
                push_decimal(&mut text, *status as u64);
                text
            },
            NetworkError::Body { reason } => joined(
                "Failed to read response body: ",
                reason.as_str(),
            ),
        }
    }
}

} // verus!
