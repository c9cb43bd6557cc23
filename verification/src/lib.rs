use vstd::prelude::*;

pub mod json;
pub mod types;
pub mod schema;
pub mod client;
pub mod request;
pub mod response;
pub mod bridge;
pub mod asset;
pub mod wire;

verus! {

/// Errors raised by the bridge layer itself, one variant per failure class.
#[derive(Debug, Clone, PartialEq, Eq, Structural)]
pub enum TlsClientError {
    UnsupportedPlatform,
    AssetLookupFailure,
    AssetNotFound,
    IoFailure,
    LoadFailure,
    SymbolResolutionFailure,
    SerializationFailure,
    ProtocolViolation,
    NativeCallFailure,
}

} // verus!
