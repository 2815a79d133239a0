//! Process-stable type identity.
//!
//! A [`TypeTag`] names one concrete type or one capability interface for the
//! lifetime of a process.  Tags are assigned once, compared by identity, and
//! have no meaning across process restarts or independently built artifacts.

use vstd::prelude::*;

verus! {

/// A process-stable identifier for a concrete type or a capability interface.
///
/// Equality of tags is equality of the underlying identifiers; the registry
/// and the dispatcher never inspect a tag beyond comparing it.
#[derive(Clone, Copy, PartialEq, Eq, Hash, Debug, Structural)]
pub struct TypeTag {
    pub id: u64,
}

impl TypeTag {
    /// Wraps a raw identifier as a tag.
    pub fn new(id: u64) -> (t: TypeTag)
        ensures
            t.id == id,
    {
        TypeTag { id }
    }
}

} // verus!
