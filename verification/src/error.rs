//! The errors a caller of this layer can see.

use crate::types::{TonResult, TonResultKind};
use vstd::prelude::*;

verus! {

/// The engine binding failed to send or to receive.
#[derive(Debug, Clone, PartialEq, Eq)]
pub struct TlError {
    pub message: String,
}

/// Why a call on a connection did not give its result.
#[derive(Debug, Clone, PartialEq, Eq)]
pub enum TonClientError {
    /// The request's completion channel closed without a value: the
    /// connection went away while the request was in flight.
    InternalError,
    /// The engine binding failed to send or to receive.
    TlError(TlError),
    /// The engine understood the call and rejected it.
    TonlibError { code: i32, message: String },
    /// The engine answered, but not with the shape the call expects.
    UnexpectedTonResult { expected: TonResultKind, actual: TonResult },
}

impl TonClientError {
    /// The error for an answer of the wrong shape.
    pub fn unexpected_ton_result(expected: TonResultKind, actual: TonResult) -> (error: TonClientError)
        ensures
            error == (TonClientError::UnexpectedTonResult { expected, actual }),
    {
        TonClientError::UnexpectedTonResult { expected, actual }
    }
}

} // verus!
