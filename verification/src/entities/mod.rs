//! What is sent to the payment processor and what comes back, and the error
//! that resolving a record can end in.

pub use crate::entities::persist::Persist;
use crate::utility::method_client;
use vstd::prelude::*;
use vstd::string::StringExecFns;

pub mod account;
pub mod account_response;
pub mod entity;
pub mod entity_response;
pub mod payment;
pub mod payment_response;
pub mod persist;

verus! {

/// Why a record could not be resolved. The three kinds are kept apart: a
/// failed call to the payment processor, a failed operation of the local
/// store, and data that cannot be accepted.
#[derive(Debug, PartialEq, Eq)]
pub enum Error {
    HTTPError(method_client::Error),
    DatabaseError(String),
    InvalidDataError(String),
}

/// `Error` as contracts see it: each text as the characters that it holds.
pub enum ErrorView {
    HTTPError(method_client::ErrorView),
    DatabaseError(Seq<char>),
    InvalidDataError(Seq<char>),
}

impl View for Error {
    type V = ErrorView;

    open spec fn view(&self) -> ErrorView {
        match self {
            Error::HTTPError(cause) => ErrorView::HTTPError(cause@),
            Error::DatabaseError(cause) => ErrorView::DatabaseError(cause@),
            Error::InvalidDataError(cause) => ErrorView::InvalidDataError(cause@),
        }
    }
}

impl Clone for Error {
    fn clone(&self) -> (r: Self)
        ensures
            r == *self,
    {
        match self {
            Error::HTTPError(cause) => Error::HTTPError(cause.clone()),
            Error::DatabaseError(cause) => Error::DatabaseError(cause.clone()),
            Error::InvalidDataError(cause) => Error::InvalidDataError(cause.clone()),
        }
    }
}

/// The text that describes a failure: its kind, then its cause.
pub open spec fn error_text(e: ErrorView) -> Seq<char> {
    match e {
        ErrorView::HTTPError(cause) => "Http Error: "@ + method_client::error_text(cause),
        ErrorView::DatabaseError(cause) => "Database Error: "@ + cause,
        ErrorView::InvalidDataError(cause) => "Invalid Data Error: "@ + cause,
    }
}

impl Error {
    /// A data error with the given cause.
    pub fn invalid(cause: &str) -> (r: Error)
        ensures
            r@ == ErrorView::InvalidDataError(cause@),
    {
        Error::InvalidDataError(String::from_str(cause))
    }

    /// The error that a failed call to the payment processor becomes.
    pub fn from_client(cause: method_client::Error) -> (r: Error)
        ensures
            r == Error::HTTPError(cause),
    {
        Error::HTTPError(cause)
    }

    /// Describes the failure in one line.
    pub fn message(&self) -> (r: String)
        ensures
            r@ == error_text(self@),
    {
        match self {
            Error::HTTPError(cause) => {
                let mut text = String::from_str("Http Error: ");
                let inner = cause.message();
                text.append(inner.as_str());
                text
            },
            Error::DatabaseError(cause) => {
                let mut text = String::from_str("Database Error: ");
                text.append(cause.as_str());
                text
            },
            Error::InvalidDataError(cause) => {
                let mut text = String::from_str("Invalid Data Error: ");
                text.append(cause.as_str());
                text
            },
        }
    }
}

} // verus!
