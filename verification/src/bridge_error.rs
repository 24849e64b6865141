//! Errors of the Sui bridge.
use vstd::prelude::*;

verus! {

/// The compressed public key of a bridge authority, as bytes.
#[derive(Debug, Clone, PartialEq, Eq)]
pub struct BridgeAuthorityPublicKeyBytes(pub Vec<u8>);

/// Why a bridge operation failed.
#[derive(Debug, Clone)]
pub enum BridgeError {
    /// The input is not a valid transaction digest/hash.
    InvalidTxHash,
    /// The referenced transaction failed.
    OriginTxFailed,
    /// The referenced transaction does not exist.
    TxNotFound,
    /// The referenced transaction does not contain bridge events.
    NoBridgeEventsInTx,
    /// Internal bridge error.
    InternalError(String),
    /// Authority signature duplication.
    AuthoritySignatureDuplication(String),
    /// Too many errors when aggregating authority signatures.
    AuthoritySignatureAggregationTooManyError(String),
    /// Transient Ethereum provider error.
    TransientProviderError(String),
    /// Invalid bridge committee.
    InvalidBridgeCommittee(String),
    /// Invalid bridge authority signature.
    InvalidBridgeAuthoritySignature(BridgeAuthorityPublicKeyBytes, String),
    /// Entity is not in the bridge committee or is blocklisted.
    InvalidBridgeAuthority(BridgeAuthorityPublicKeyBytes),
    /// The authority's base URL is invalid.
    InvalidAuthorityUrl(BridgeAuthorityPublicKeyBytes),
    /// The message is signed by a mismatched authority.
    MismatchedAuthoritySigner,
    /// The signature is over a mismatched action.
    MismatchedAction,
    /// Storage error.
    StorageError(String),
    /// REST API error.
    RestAPIError(String),
    /// Uncategorized error.
    Generic(String),
}

/// The result of a bridge operation.
pub type BridgeResult<T> = Result<T, BridgeError>;

} // verus!
