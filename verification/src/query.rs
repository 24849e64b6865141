//! Decisions of the GraphQL root query: which lookup a request asks of the
//! data store, and the errors with which a request is refused.
use vstd::prelude::*;
use vstd::string::StringExecFns;

verus! {

/// How a checkpoint is identified in a request: by digest, by sequence
/// number, or neither.
#[derive(Debug, Clone, PartialEq, Eq)]
pub struct CheckpointId {
    pub digest: Option<String>,
    pub sequence_number: Option<u64>,
}

/// The epoch lookup a request asks for.
#[derive(Debug, Clone, Copy, PartialEq, Eq)]
pub enum EpochLookup {
    /// The epoch with this id.
    ById(u64),
    /// The latest epoch.
    Latest,
}

/// The checkpoint lookup a request asks for.
#[derive(Debug, Clone, PartialEq, Eq)]
pub enum CheckpointLookup {
    /// The checkpoint with this digest and/or sequence number (at most one of
    /// them is given).
    ByIdentifier { digest: Option<String>, sequence_number: Option<u64> },
    /// The latest checkpoint.
    Latest,
}

/// Why a query is refused.
#[derive(Debug, Clone, PartialEq, Eq)]
pub enum QueryError {
    /// The request itself is wrong; the message says how.
    Client(String),
    /// The service failed; the message says how.
    Internal(String),
    /// A checkpoint was identified both by digest and by sequence number.
    InvalidCheckpointQuery,
}

/// The epoch lookup for an optional epoch id: that epoch, or the latest one.
pub fn epoch_lookup(id: Option<u64>) -> (l: EpochLookup)
    ensures
        l == (match id {
            Some(e) => EpochLookup::ById(e),
            None => EpochLookup::Latest,
        }),
{
    match id {
        Some(epoch_id) => EpochLookup::ById(epoch_id),
        None => EpochLookup::Latest,
    }
}

/// The checkpoint lookup for an optional identifier: the latest checkpoint
/// when there is none; a refusal when it gives both a digest and a sequence
/// number; otherwise a lookup by what it gives (possibly nothing).
pub fn checkpoint_lookup(id: Option<CheckpointId>) -> (r: Result<CheckpointLookup, QueryError>)
    ensures
        match id {
            None => r == Ok::<CheckpointLookup, QueryError>(CheckpointLookup::Latest),
            Some(c) => if c.digest is Some && c.sequence_number is Some {
                r == Err::<CheckpointLookup, QueryError>(QueryError::InvalidCheckpointQuery)
            } else {
                r == Ok::<CheckpointLookup, QueryError>(
                    CheckpointLookup::ByIdentifier {
                        digest: c.digest,
                        sequence_number: c.sequence_number,
                    },
                )
            },
        },
{
    match id {
        None => Ok(CheckpointLookup::Latest),
        Some(c) => {
            if c.digest.is_some() && c.sequence_number.is_some() {
                Err(QueryError::InvalidCheckpointQuery)
            } else {
                Ok(
                    CheckpointLookup::ByIdentifier {
                        digest: c.digest,
                        sequence_number: c.sequence_number,
                    },
                )
            }
        },
    }
}

/// The refusal of a type that does not parse, with the parser's reason.
pub fn bad_type_error(reason: &str) -> (e: QueryError)
    ensures
        e matches QueryError::Client(m) && m@ == "Bad type: "@ + reason@,
{
    QueryError::Client(String::from_str("Bad type: ").concat(reason))
}

/// The failure when the service configuration is not available.
pub fn service_config_unavailable() -> (e: QueryError)
    ensures
        e matches QueryError::Internal(m) && m@ == "Unable to fetch service configuration."@,
{
    QueryError::Internal(String::from_str("Unable to fetch service configuration."))
}

} // verus!
