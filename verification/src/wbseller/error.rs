use crate::browser::error::BrowserError;
use vstd::prelude::*;
use vstd::std_specs::convert::FromSpecImpl;

verus! {

/// The error of the HTTP client: a request that could not be sent or an answer
/// that could not be read.
#[verifier::external_type_specification]
#[verifier::external_body]
pub struct ExReqwestError(reqwest::Error);

/// What can go wrong between the watcher and the seller portal.
#[derive(Debug)]
pub enum WbSellerError {
    /// The browser failed while an identity was derived.
    Browser(BrowserError),
    /// A request to the remote API failed.
    Reqwest(reqwest::Error),
    /// Anything else, in words.
    Custom(String),
}

impl From<BrowserError> for WbSellerError {
    fn from(error: BrowserError) -> (r: WbSellerError) {
        WbSellerError::Browser(error)
    }
}

impl FromSpecImpl<BrowserError> for WbSellerError {
    open spec fn obeys_from_spec() -> bool {
        true
    }

    open spec fn from_spec(error: BrowserError) -> WbSellerError {
        WbSellerError::Browser(error)
    }
}

impl From<reqwest::Error> for WbSellerError {
    fn from(error: reqwest::Error) -> (r: WbSellerError) {
        WbSellerError::Reqwest(error)
    }
}

impl FromSpecImpl<reqwest::Error> for WbSellerError {
    open spec fn obeys_from_spec() -> bool {
        true
    }

    open spec fn from_spec(error: reqwest::Error) -> WbSellerError {
        WbSellerError::Reqwest(error)
    }
}

} // verus!
