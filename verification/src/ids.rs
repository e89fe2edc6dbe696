//! The opaque 64-bit identifiers of the protocol.
//!
//! A `TaskId` is chosen by a client to correlate a request with its reply; an
//! `OperationId` is chosen by the daemon for each externally visible
//! operation.  Both are uniform random draws.

use vstd::prelude::*;

verus! {

/// A 64-bit identifier drawn at random.
#[derive(Debug, Copy, Clone, PartialEq, Eq, Structural, Hash)]
pub struct Id(pub u64);

/// Relies on `rand::random::<u64>`: a draw from the thread-local generator;
/// nothing is promised of the value.
#[verifier::external_body]
fn random_u64() -> u64 {
    rand::random()
}

impl Id {
    /// The raw 64-bit value.
    pub open spec fn spec_value(self) -> u64 {
        self.0
    }

    pub fn value(self) -> (v: u64)
        ensures
            v == self.spec_value(),
    {
        self.0
    }

    /// Builds an identifier from a raw value.
    pub fn from_raw(v: u64) -> (r: Self)
        ensures
            r.spec_value() == v,
    {
        Id(v)
    }

    /// Draws a fresh identifier.
    pub fn generate() -> Self {
        Id(random_u64())
    }
}

/// Correlates a client request with the daemon's reply.
#[derive(Debug, Copy, Clone, PartialEq, Eq, Structural, Hash)]
pub struct TaskId(pub Id);

impl TaskId {
    pub open spec fn spec_value(self) -> u64 {
        self.0.spec_value()
    }

    pub fn from_raw(v: u64) -> (r: Self)
        ensures
            r.spec_value() == v,
    {
        TaskId(Id::from_raw(v))
    }

    pub fn generate() -> Self {
        TaskId(Id::generate())
    }
}

/// Names one externally visible operation of the daemon.
#[derive(Debug, Copy, Clone, PartialEq, Eq, Structural, Hash)]
pub struct OperationId(pub Id);

impl OperationId {
    pub open spec fn spec_value(self) -> u64 {
        self.0.spec_value()
    }

    pub fn from_raw(v: u64) -> (r: Self)
        ensures
            r.spec_value() == v,
    {
        OperationId(Id::from_raw(v))
    }

    pub fn generate() -> Self {
        OperationId(Id::generate())
    }
}

} // verus!
