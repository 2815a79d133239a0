//! Cast records: the registered edges of the dynamic cast graph.
//!
//! A record is an immutable triple (target capability tag, source
//! concrete-type tag, handler identity).  The handler itself is a type-erased
//! conversion owned by the host environment; the record carries its identity,
//! and releases it only to a caller whose value really has the source
//! concrete type.  Handing the handler to a reference with any other tag is
//! the one fatal condition of the whole system, so that release is guarded:
//! a mismatch is reported as a [`CastFault`], never as an ordinary miss.

use vstd::prelude::*;

use crate::tag::TypeTag;

verus! {

/// Names one type-erased conversion held by the host environment.
#[derive(Clone, Copy, PartialEq, Eq, Hash, Debug, Structural)]
pub struct HandlerId {
    pub id: u64,
}

impl HandlerId {
    /// Wraps a raw handler identifier.
    pub fn new(id: u64) -> (h: HandlerId)
        ensures
            h.id == id,
    {
        HandlerId { id }
    }
}

/// The fatal-class failure of a cast: an internal invariant was violated.
/// An ordinary unsupported cast is an empty result, never a fault.
#[derive(Clone, Copy, PartialEq, Eq, Debug, Structural)]
pub enum CastFault {
    /// A handler was about to be invoked on a reference whose concrete-type
    /// tag differs from the tag the handler was registered under.  This can
    /// only arise from a corrupted registry or a forged tag.
    TagMismatch { expected: TypeTag, found: TypeTag },
}

/// An immutable cast edge for shared references: casting a value whose
/// concrete type is `source` to the capability `target` is performed by the
/// conversion named `handler`.
#[derive(Clone, Copy, PartialEq, Eq, Debug, Structural)]
pub struct CastRefRecord {
    pub target: TypeTag,
    pub source: TypeTag,
    pub handler: HandlerId,
}

impl CastRefRecord {
    /// Builds the edge (target, source) carried out by `handler`.
    pub fn new(target: TypeTag, source: TypeTag, handler: HandlerId) -> (r: CastRefRecord)
        ensures
            r == (CastRefRecord { target, source, handler }),
    {
        CastRefRecord { target, source, handler }
    }

    /// Releases the record's handler for a reference whose concrete-type tag
    /// is `found`, failing fast when the tag is not the one the handler was
    /// registered under.
    pub fn handler_for(&self, found: TypeTag) -> (r: Result<HandlerId, CastFault>)
        ensures
            self.source == found ==> r == Ok::<HandlerId, CastFault>(self.handler),
            self.source != found ==> r == Err::<HandlerId, CastFault>(
                CastFault::TagMismatch { expected: self.source, found },
            ),
    {
        if self.source.id == found.id {
            Ok(self.handler)
        } else {
            Err(CastFault::TagMismatch { expected: self.source, found })
        }
    }
}

/// An immutable cast edge for exclusive references, as [`CastRefRecord`] is
/// for shared ones.  The two kinds are kept apart because their handlers'
/// aliasing guarantees differ; registration in one table implies nothing
/// about the other.
#[derive(Clone, Copy, PartialEq, Eq, Debug, Structural)]
pub struct CastMutRecord {
    pub target: TypeTag,
    pub source: TypeTag,
    pub handler: HandlerId,
}

impl CastMutRecord {
    /// Builds the edge (target, source) carried out by `handler`.
    pub fn new(target: TypeTag, source: TypeTag, handler: HandlerId) -> (r: CastMutRecord)
        ensures
            r == (CastMutRecord { target, source, handler }),
    {
        CastMutRecord { target, source, handler }
    }

    /// Releases the record's handler for a reference whose concrete-type tag
    /// is `found`, failing fast when the tag is not the one the handler was
    /// registered under.
    pub fn handler_for(&self, found: TypeTag) -> (r: Result<HandlerId, CastFault>)
        ensures
            self.source == found ==> r == Ok::<HandlerId, CastFault>(self.handler),
            self.source != found ==> r == Err::<HandlerId, CastFault>(
                CastFault::TagMismatch { expected: self.source, found },
            ),
    {
        if self.source.id == found.id {
            Ok(self.handler)
        } else {
            Err(CastFault::TagMismatch { expected: self.source, found })
        }
    }
}

} // verus!
