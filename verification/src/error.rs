//! The ways in which building, submitting and querying fail.

use vstd::prelude::*;

verus! {

/// Why no operation was built. Both are faults of the caller, and trying
/// again with the same arguments fails again.
#[derive(Clone, Copy, Debug, PartialEq, Eq, Structural)]
pub enum BuildError {
    /// The schema identifier is malformed.
    InvalidSchema,
    /// A field that the schema requires is absent.
    MissingField,
}

/// Why a write did not reach the log.
#[derive(Clone, Copy, Debug, PartialEq, Eq, Structural)]
pub enum SubmitError {
    /// The log refused the entry, or answered with something that is no
    /// entry reference.
    Rejected,
    /// The endpoint could not be reached.
    Unreachable,
    /// The endpoint did not answer in time.
    Timeout,
}

/// Why a query gave no collection.
#[derive(Clone, Copy, Debug, PartialEq, Eq, Structural)]
pub enum QueryError {
    /// The endpoint could not be reached.
    Unreachable,
    /// A row of the answer does not have the shape of a bookmark document.
    MalformedResponse,
}

/// Why a request to the node brought no answer that can be used.
#[derive(Clone, Copy, Debug, PartialEq, Eq, Structural)]
pub enum TransportFailure {
    /// The node answered that it does not take the request.
    Refused,
    /// The node answered with something that cannot be read.
    Unreadable,
    /// The endpoint could not be reached.
    Unreachable,
    /// The endpoint did not answer in time.
    TimedOut,
}

/// A subscriber of the bus fell behind, and the oldest messages that it had
/// not read were dropped for it. This is no failure of a request: it says
/// that what the subscriber knows may be out of date.
#[derive(Clone, Copy, Debug, PartialEq, Eq, Structural)]
pub struct BusDeliveryMiss {
    /// How many messages were dropped.
    pub missed: u64,
}

} // verus!
