//! What talking to the payment processor can yield, and the rules by which
//! a reply of the processor becomes a result.

use crate::text::decimal;
use vstd::prelude::*;
use vstd::string::StringExecFns;

verus! {

/// Why a call to the payment processor failed.
#[derive(Debug, PartialEq, Eq)]
pub enum Error {
    /// The processor answered with a status outside the success range; the
    /// text is the message of its error payload, empty where none could be
    /// read.
    HTTPError(u16, String),
    /// The request could not be put together.
    RequestBuilderError(String),
    /// The request could not be sent.
    IOError(String),
    /// A body could not be written or read.
    SerializeError(String),
}

/// `Error` as contracts see it: each text as the characters that it holds.
pub enum ErrorView {
    HTTPError(u16, Seq<char>),
    RequestBuilderError(Seq<char>),
    IOError(Seq<char>),
    SerializeError(Seq<char>),
}

impl View for Error {
    type V = ErrorView;

    open spec fn view(&self) -> ErrorView {
        match self {
            Error::HTTPError(status, message) => ErrorView::HTTPError(*status, message@),
            Error::RequestBuilderError(cause) => ErrorView::RequestBuilderError(cause@),
            Error::IOError(cause) => ErrorView::IOError(cause@),
            Error::SerializeError(cause) => ErrorView::SerializeError(cause@),
        }
    }
}

impl Clone for Error {
    fn clone(&self) -> (r: Self)
        ensures
            r == *self,
    {
        match self {
            Error::HTTPError(status, message) => Error::HTTPError(*status, message.clone()),
            Error::RequestBuilderError(cause) => Error::RequestBuilderError(cause.clone()),
            Error::IOError(cause) => Error::IOError(cause.clone()),
            Error::SerializeError(cause) => Error::SerializeError(cause.clone()),
        }
    }
}

/// The text that describes a failure.
pub open spec fn error_text(e: ErrorView) -> Seq<char> {
    match e {
        ErrorView::HTTPError(status, message) => "Http Error: "@ + crate::text::decimal_text(
            status as nat,
        ) + ". "@ + message,
        ErrorView::RequestBuilderError(cause) => "RequestBuilder Error: "@ + cause,
        ErrorView::IOError(cause) => "IO Error: "@ + cause,
        ErrorView::SerializeError(cause) => "Serialization Error: "@ + cause,
    }
}

/// Where the payment processor is reached.
pub const METHOD_BASE_URL: &'static str = "https://dev.methodfi.com";

/// The query parameters as they are appended to an address: each name, `=`
/// and its value, with `&` between one pair and the next.
pub open spec fn query_text(params: Seq<(String, String)>) -> Seq<char>
    decreases params.len(),
{
    if params.len() == 0 {
        Seq::empty()
    } else if params.len() == 1 {
        params.last().0@ + "="@ + params.last().1@
    } else {
        query_text(params.drop_last()) + "&"@ + params.last().0@ + "="@ + params.last().1@
    }
}

/// The address of an endpoint of the payment processor, with the query
/// parameters behind a `?` where there are any.
pub open spec fn uri_text(endpoint: Seq<char>, params: Seq<(String, String)>) -> Seq<char> {
    let head = "https://dev.methodfi.com"@ + "/"@ + endpoint;
    if params.len() == 0 {
        head
    } else {
        head + "?"@ + query_text(params)
    }
}

/// Builds the address that a request goes to.
pub fn request_uri(endpoint: &str, query_params: &Vec<(String, String)>) -> (r: String)
    ensures
        r@ == uri_text(endpoint@, query_params@),
{
    let mut uri = String::from_str(METHOD_BASE_URL);
    uri.append("/");
    uri.append(endpoint);
    if query_params.len() == 0 {
        return uri;
    }
    uri.append("?");
    let ghost head = uri@;
    let mut i: usize = 0;
    while i < query_params.len()
        invariant
            i <= query_params.len(),
            uri@ == head + query_text(query_params@.take(i as int)),
        decreases query_params.len() - i,
    {
        proof {
            assert(query_params@.take(i + 1).drop_last() =~= query_params@.take(i as int));
            assert(query_params@.take(i + 1).last() == query_params@[i as int]);
        }
        if i > 0 {
            uri.append("&");
        }
        uri.append(query_params[i].0.as_str());
        uri.append("=");
        uri.append(query_params[i].1.as_str());
        i = i + 1;
    }
    proof {
        assert(query_params@.take(i as int) =~= query_params@);
    }
    uri
}

/// The credential as the payment processor wants it presented.
pub fn bearer(key: &str) -> (r: String)
    ensures
        r@ == "Bearer "@ + key@,
{
    let mut value = String::from_str("Bearer ");
    value.append(key);
    value
}

/// Whether a status stands for success: the two hundreds.
pub open spec fn success(status: u16) -> bool {
    200 <= status < 300
}

/// Whether a status stands for success.
pub fn is_success(status: u16) -> (r: bool)
    ensures
        r == success(status),
{
    200 <= status && status < 300
}

/// What was made of the body of an answer.
#[derive(Debug, PartialEq, Eq)]
pub enum Body<T> {
    /// The body holds what was asked for.
    Data(T),
    /// The body is the processor's error payload; the text is its message.
    Failure(String),
    /// The body could not be read; the text says why.
    Unreadable(String),
}

/// The failure that an answer stands for which does not carry what was
/// asked for under a status of success. Under a status of success the body
/// was unreadable; under any other the answer is the processor's refusal,
/// with its message where the body gave one.
pub open spec fn failure_of<T>(status: u16, body: Body<T>) -> ErrorView {
    if success(status) {
        match body {
            Body::Unreadable(cause) => ErrorView::SerializeError(cause@),
            _ => ErrorView::SerializeError("Body does not hold what was asked for"@),
        }
    } else {
        match body {
            Body::Failure(message) => ErrorView::HTTPError(status, message@),
            _ => ErrorView::HTTPError(status, Seq::empty()),
        }
    }
}

/// Turns an answer of the payment processor into a result: what was asked
/// for where the status stands for success and the body holds it, else the
/// failure that `failure_of` gives.
pub fn read_response<T>(status: u16, body: Body<T>) -> (r: Result<T, Error>)
    ensures
        match r {
            Ok(data) => success(status) && body == Body::Data(data),
            Err(e) => !(success(status) && body is Data) && e@ == failure_of(status, body),
        },
{
    if is_success(status) {
        match body {
            Body::Data(data) => Ok(data),
            Body::Unreadable(cause) => Err(Error::SerializeError(cause)),
            Body::Failure(_) => Err(
                Error::SerializeError(String::from_str("Body does not hold what was asked for")),
            ),
        }
    } else {
        match body {
            Body::Failure(message) => Err(Error::HTTPError(status, message)),
            _ => Err(Error::HTTPError(status, String::new())),
        }
    }
}

impl Error {
    /// Describes the failure in one line.
    pub fn message(&self) -> (r: String)
        ensures
            r@ == error_text(self@),
    {
        match self {
            Error::HTTPError(status, message) => {
                let mut text = String::from_str("Http Error: ");
                let code = decimal(*status as u64);
                text.append(code.as_str());
                text.append(". ");
                text.append(message.as_str());
                text
            },
            Error::RequestBuilderError(cause) => {
                let mut text = String::from_str("RequestBuilder Error: ");
                text.append(cause.as_str());
                text
            },
            Error::IOError(cause) => {
                let mut text = String::from_str("IO Error: ");
                text.append(cause.as_str());
                text
            },
            Error::SerializeError(cause) => {
                let mut text = String::from_str("Serialization Error: ");
                text.append(cause.as_str());
                text
            },
        }
    }
}

} // verus!
