//! What can go wrong on the local path, and how a caller of the read surface sees it.

use vstd::prelude::*;

verus! {

/// A failure of the local path, before it is shown to a caller.
#[derive(Clone, Debug, PartialEq, Eq)]
pub enum IndexerError {
    /// The request names a malformed key or an unsupported combination of options.
    InvalidArgumentError(String),
    /// The store holds no record where the request needs one.
    NotFound(String),
    /// The store could not be read, or what it returned is inconsistent.
    PostgresReadError(String),
    /// A stored record could not be composed into a response.
    SerdeError(String),
    /// Any other failure of the local path.
    UncategorizedError(String),
}

/// An error of the local path in the terms a caller of the read surface knows:
/// the terms in which the upstream node reports a failure of the same kind.
/// A lookup that finds nothing is no error where the method has an empty
/// answer for it.
#[derive(Clone, Debug, PartialEq, Eq)]
pub enum RpcError {
    /// The caller's arguments are at fault.
    InvalidArgument(String),
    /// A record that the request needs is not there.
    NotFound(String),
    /// The node is at fault: a failed read, a failed composition, inconsistent rows.
    Internal(String),
}

/// The caller's view of a local failure: a bad argument and a missing record
/// are reported as such, everything else is the node's fault.
pub open spec fn spec_rpc_error(error: IndexerError) -> RpcError {
    match error {
        IndexerError::InvalidArgumentError(message) => RpcError::InvalidArgument(message),
        IndexerError::NotFound(message) => RpcError::NotFound(message),
        IndexerError::PostgresReadError(message) => RpcError::Internal(message),
        IndexerError::SerdeError(message) => RpcError::Internal(message),
        IndexerError::UncategorizedError(message) => RpcError::Internal(message),
    }
}

impl RpcError {
    /// Puts a failure of the local path in the caller's terms; the message is
    /// kept as it is.
    pub fn from_indexer(error: IndexerError) -> (rpc: RpcError)
        ensures
            rpc == spec_rpc_error(error),
    {
        match error {
            IndexerError::InvalidArgumentError(message) => RpcError::InvalidArgument(message),
            IndexerError::NotFound(message) => RpcError::NotFound(message),
            IndexerError::PostgresReadError(message) => RpcError::Internal(message),
            IndexerError::SerdeError(message) => RpcError::Internal(message),
            IndexerError::UncategorizedError(message) => RpcError::Internal(message),
        }
    }
}

} // verus!
