//! One request to the provider and what came of it, as plain values: the
//! sending itself is the caller's.

use crate::text::{digits_text, push_digits};
use vstd::prelude::*;
use vstd::string::*;

verus! {

/// One parameter of a query.
#[derive(Debug)]
pub struct QueryParam {
    /// The name, as it stands before the equals sign
    pub name: String,
    /// The value, before any encoding for the address
    pub value: String,
}

/// A GET request: the address, and the parameters of its query in order.
#[derive(Debug)]
pub struct Request {
    /// The address, without a query
    pub url: String,
    /// The parameters of the query, in the order in which they are sent
    pub query: Vec<QueryParam>,
}

/// What came of one request: either the exchange did not complete, or the
/// provider answered with a status, the phrase that goes with it, and a body.
/// The body is what the caller decoded it to; it is looked at only under a
/// status of success.
#[derive(Debug)]
pub enum Exchange<T> {
    /// No answer came: a name was not found, the connection broke, time ran
    /// out. The details say which.
    Transport { details: String },
    /// The provider answered. `body` holds the record that the body decoded
    /// to, or the details of why it did not decode.
    Response { status: u16, reason: String, body: Result<T, String> },
}

/// Why a lookup failed.
#[derive(Debug)]
pub enum ResolveError {
    /// The provider answered with a status other than success.
    RequestFailed { status: u16, reason: String },
    /// The body was not of the expected shape.
    DecodeFailed { details: String },
    /// The exchange did not complete.
    TransportFailed { details: String },
}

/// Whether `status` is one of success: 200 to 299.
pub open spec fn status_is_success(status: u16) -> bool {
    200 <= status < 300
}

/// Whether `status` is one of success.
pub fn is_success(status: u16) -> (res: bool)
    ensures
        res == status_is_success(status),
{
    200 <= status && status < 300
}

impl ResolveError {
    /// The failure in words. For a refused request the words name the status
    /// and its phrase; for the others they are the details that came with
    /// the failure.
    pub open spec fn message_text(&self) -> Seq<char> {
        match *self {
            ResolveError::RequestFailed { status, reason } => "API request failed with status: "@
                + digits_text(status as nat) + " "@ + reason@,
            ResolveError::DecodeFailed { details } => details@,
            ResolveError::TransportFailed { details } => details@,
        }
    }

    /// The failure in words.
    pub fn message(&self) -> (text: String)
        ensures
            text@ == self.message_text(),
    {
        match self {
            ResolveError::RequestFailed { status, reason } => {
                let mut text = String::from_str("API request failed with status: ");
                push_digits(&mut text, *status as u64);
                text.append(" ");
                text.append(reason.as_str());
                text
            },
            ResolveError::DecodeFailed { details } => details.clone(),
            ResolveError::TransportFailed { details } => details.clone(),
        }
    }
}

/// What a lookup returns for what came of its request: the decoded body under
/// a status of success, and else the failure that tells why not. A status
/// other than success outweighs whatever the body holds.
pub open spec fn settled<T>(exchange: Exchange<T>) -> Result<T, ResolveError> {
    match exchange {
        Exchange::Transport { details } => Err(ResolveError::TransportFailed { details }),
        Exchange::Response { status, reason, body } => if !status_is_success(status) {
            Err(ResolveError::RequestFailed { status, reason })
        } else {
            match body {
                Ok(value) => Ok(value),
                Err(details) => Err(ResolveError::DecodeFailed { details }),
            }
        },
    }
}

/// What a lookup returns for what came of its request.
pub fn settle<T>(exchange: Exchange<T>) -> (res: Result<T, ResolveError>)
    ensures
        res == settled(exchange),
{
    match exchange {
        Exchange::Transport { details } => Err(ResolveError::TransportFailed { details }),
        Exchange::Response { status, reason, body } => {
            if !is_success(status) {
                Err(ResolveError::RequestFailed { status, reason })
            } else {
                match body {
                    Ok(value) => Ok(value),
                    Err(details) => Err(ResolveError::DecodeFailed { details }),
                }
            }
        },
    }
}

} // verus!
