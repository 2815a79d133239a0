//! Typed views of an erased value.
//!
//! Erasure reduces a value to a reference paired with the tag of its original
//! concrete type.  A [`ViewDesc`] is the typing lens alone: which concrete
//! type the value really has, and which interface it is currently viewed
//! through.  A [`ViewRef`] additionally carries the shared reference itself,
//! so a successful immutable cast can hand back a reference that aliases the
//! exact input.  An exclusive reference cannot sit inside a view value, so
//! mutable casts take and return the bare reference and the `ViewDesc`
//! travels beside it; the dispatch structure itself never holds exclusive
//! access.

use vstd::prelude::*;

use crate::tag::TypeTag;

verus! {

/// The typing lens of an erased value: its concrete type's tag and the tag of
/// the interface it is currently viewed through.
#[derive(Clone, Copy, PartialEq, Eq, Hash, Debug, Structural)]
pub struct ViewDesc {
    /// Tag of the value's original concrete type.  Erasure fixes this once;
    /// no cast ever changes it.
    pub concrete: TypeTag,
    /// Tag of the capability the value is currently viewed through.  A
    /// successful cast replaces this with the target tag and nothing else.
    pub iface: TypeTag,
}

impl ViewDesc {
    /// The lens a value wears right after erasure: it is viewed as its own
    /// concrete type.
    pub fn erased(concrete: TypeTag) -> (d: ViewDesc)
        ensures
            d.concrete == concrete,
            d.iface == concrete,
    {
        ViewDesc { concrete, iface: concrete }
    }

    /// The lens after a successful cast to `target`: same concrete type,
    /// viewed through the target capability.
    pub fn retagged(self, target: TypeTag) -> (d: ViewDesc)
        ensures
            d == self.retag(target),
    {
        ViewDesc { concrete: self.concrete, iface: target }
    }

    /// What any successful cast to `target` does to a lens.
    pub open spec fn retag(self, target: TypeTag) -> ViewDesc {
        ViewDesc { concrete: self.concrete, iface: target }
    }
}

/// A non-owning, identity-preserving view of a value: the reference together
/// with its typing lens.
pub struct ViewRef<'a, E> {
    /// The viewed value.  Casting hands this reference through unchanged.
    pub obj: &'a E,
    /// How the value is currently typed.
    pub view: ViewDesc,
}

impl<'a, E> ViewRef<'a, E> {
    /// Erases a plain reference: tags it with its concrete type's tag and
    /// views it as that concrete type.
    pub fn erase(obj: &'a E, concrete: TypeTag) -> (r: ViewRef<'a, E>)
        ensures
            r.obj == obj,
            r.view == (ViewDesc { concrete, iface: concrete }),
    {
        ViewRef { obj, view: ViewDesc { concrete, iface: concrete } }
    }

    /// Wraps a reference under an explicit lens, for a caller that already
    /// holds the value erased to some interface.
    pub fn with_view(obj: &'a E, view: ViewDesc) -> (r: ViewRef<'a, E>)
        ensures
            r.obj == obj,
            r.view == view,
    {
        ViewRef { obj, view }
    }

    /// Looks through a single-owner wrapper: dereference, then view the owned
    /// value.  The result is a plain reference; casting never returns a new
    /// owner.
    pub fn of_box(owner: &'a Box<E>, view: ViewDesc) -> (r: ViewRef<'a, E>)
        ensures
            *r.obj == **owner,
            r.view == view,
    {
        ViewRef { obj: &**owner, view }
    }

    /// Looks through a shared-reference-counted wrapper, as [`Self::of_box`]
    /// does for a single owner.
    pub fn of_rc(owner: &'a std::rc::Rc<E>, view: ViewDesc) -> (r: ViewRef<'a, E>)
        ensures
            *r.obj == **owner,
            r.view == view,
    {
        ViewRef { obj: &**owner, view }
    }

    /// Looks through a thread-shared reference-counted wrapper, as
    /// [`Self::of_box`] does for a single owner.
    pub fn of_arc(owner: &'a std::sync::Arc<E>, view: ViewDesc) -> (r: ViewRef<'a, E>)
        ensures
            *r.obj == **owner,
            r.view == view,
    {
        ViewRef { obj: &**owner, view }
    }

    /// The same reference under the lens a successful cast to `target`
    /// produces.
    pub fn retagged(&self, target: TypeTag) -> (r: ViewRef<'a, E>)
        ensures
            r.obj == self.obj,
            r.view == self.view.retag(target),
    {
        ViewRef { obj: self.obj, view: self.view.retagged(target) }
    }
}

} // verus!
