//! The failure values every public operation can return.

use vstd::prelude::*;
use vstd::string::StringExecFns;
use crate::path::Expectation;

verus! {

/// Failures of compilation, address building, execution gating and
/// response decoding.
#[derive(Debug)]
pub enum Error {
    /// Host and port do not form a well-formed endpoint.
    InvalidAddress,
    /// A call-site argument is outside its allowed range: a limit that is
    /// not positive, or an empty reusable-path name.
    InvalidArgument,
    /// The query carries no finalization operator, so it declares no result
    /// shape and cannot be executed.
    QueryNotFinalized,
    /// The declared result shape is not one the bridge can decode
    /// end-to-end; carries the offending expectation.
    UnsupportedExpectation(Expectation),
    /// The transport reported a failure; carries its message.
    TransportFailure(String),
    /// The response was not the expected envelope; carries a truncated copy
    /// of the offending text (empty when the response was not text at all).
    ResponseDecodingFailed(String),
}

impl Error {
    /// A short, fixed description of the failure kind.
    pub fn description(&self) -> (r: String)
        ensures
            self is InvalidAddress ==> r@ == "Invalid address"@,
            self is InvalidArgument ==> r@ == "Invalid argument"@,
            self is QueryNotFinalized ==> r@ == "Query is not finalized"@,
            self is UnsupportedExpectation ==> r@ == "Expectation is not supported over this connection"@,
            self is TransportFailure ==> r@ == "Transport failure"@,
            self is ResponseDecodingFailed ==> r@ == "Response decoding failed"@,
    {
        match self {
            Error::InvalidAddress => String::from_str("Invalid address"),
            Error::InvalidArgument => String::from_str("Invalid argument"),
            Error::QueryNotFinalized => String::from_str("Query is not finalized"),
            Error::UnsupportedExpectation(_) => String::from_str(
                "Expectation is not supported over this connection",
            ),
            Error::TransportFailure(_) => String::from_str("Transport failure"),
            Error::ResponseDecodingFailed(_) => String::from_str("Response decoding failed"),
        }
    }
}

} // verus!
