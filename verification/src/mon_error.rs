//! The engine's error taxonomy.

use vstd::prelude::*;

verus! {

/// Everything that can go wrong in the monitor. Variants that stem from an
/// underlying failure carry its description as plain text.
#[derive(Clone, Debug)]
pub enum MonError {
    /// A response could not be obtained.
    ResponseError(String),
    /// A payload could not be deserialized.
    DeserializationError(String),
    /// An unspecified internal failure.
    InternalServerError,
    /// A metric handle could not be registered.
    RegisterError(String),
    /// The metric families could not be encoded.
    EncodeError(String),
    /// An input/output failure.
    IOError(String),
    /// The chain RPC endpoint failed or was unreachable.
    RpcClientError(String),
    /// The node's sync information could not be unwrapped.
    UnableToUnwrapSyncInfo,
    /// A value (such as a tracked address) could not be converted.
    ConversionError(String),
}

impl MonError {
    /// The HTTP status a request handler should answer with when it fails
    /// with this error. Every failure of the engine is an internal one.
    pub fn status_code(&self) -> (code: u16)
        ensures
            code == 500,
    {
        match self {
            MonError::ResponseError(_) => 500,
            MonError::DeserializationError(_) => 500,
            MonError::InternalServerError => 500,
            MonError::RegisterError(_) => 500,
            MonError::EncodeError(_) => 500,
            MonError::IOError(_) => 500,
            MonError::RpcClientError(_) => 500,
            MonError::UnableToUnwrapSyncInfo => 500,
            MonError::ConversionError(_) => 500,
        }
    }
}

} // verus!
