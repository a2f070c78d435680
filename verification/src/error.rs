//! The failures that the adapter reports to the relayer core.

use vstd::prelude::*;

verus! {

/// Why an operation of the adapter failed.
#[derive(Debug, PartialEq, Eq)]
pub enum Error {
    /// An RPC or gRPC call failed at the network layer; the call may be retried.
    Transport { message: String },
    /// The chain answered a query with a non-success code.
    QueryRejected { code: u32, log: String },
    /// A response payload could not be decoded; retrying will not help.
    Decode,
    /// A proof was requested for a path that cannot carry one.
    UnprovablePath,
    /// The voting power behind a header is below the required threshold.
    Trust,
    /// The trusted header is older than the trusting period allows.
    ExpiredTrust,
    /// The timestamp of a header lies too far ahead of the local clock.
    TimeDrift,
    /// A header contradicts the trusted state it was checked against.
    InvalidHeader,
    /// The event stream transport failed; the stream has ended.
    Subscription { message: String },
    /// A submitted transaction was not seen within the allowed time.
    InclusionTimeout,
    /// A transaction was included in a block but failed on chain.
    TransactionExecution { code: u32, log: String },
    /// An extraction found another number of matching events than expected.
    UnexpectedEventCount { found: usize },
    /// The operation is not wired for this chain family.
    NotImplemented,
    /// A height does not fit the range that the node accepts.
    InvalidHeight,
    /// An identifier was rejected by validation.
    InvalidIdentifier,
    /// The store prefix of the configuration is empty.
    InvalidStorePrefix,
    /// The parameters of a client state contradict each other.
    InvalidClientState,
    /// The node has no account under the queried address.
    AccountNotFound,
    /// The node is still catching up with the chain.
    NodeSyncing,
}

} // verus!
