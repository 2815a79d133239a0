//! A dynamic capability-cast core.
//!
//! A value may implement several independent capabilities (interfaces), and a
//! caller holding it under one capability can probe at runtime whether the
//! same value also supports another.  Casting never copies or moves the value:
//! it only changes the type lens through which the value is viewed.
//!
//! Resolution is two-layered.  A cast whose target is a declared static
//! supertype of the view's current interface succeeds unconditionally, with no
//! table lookup.  Every other cast is resolved against a registry of cast
//! records, keyed by the pair (target tag, concrete source tag) and built
//! exactly once from an explicit registration manifest.

use vstd::prelude::*;

pub mod laws;
pub mod manifest;
pub mod record;
pub mod registry;
pub mod statics;
pub mod tag;
pub mod view;

use crate::registry::{CastMutRegistry, CastRefRegistry};
use crate::statics::StaticGraph;
use crate::tag::TypeTag;
use crate::view::{ViewDesc, ViewRef};

verus! {

/// The complete cast-resolution state: the declared static-implication graph
/// and the two dynamic registries.  Built once at startup from the
/// registration manifest and passed explicitly wherever casts are resolved;
/// after construction every part of it is read-only.
pub struct CastEnv {
    pub statics: StaticGraph,
    pub refs: CastRefRegistry,
    pub muts: CastMutRegistry,
}

impl CastEnv {
    /// Both registries are well-formed; construction through
    /// [`CastRefRegistry::new`] and [`CastMutRegistry::new`] establishes
    /// this, and nothing ever disturbs it.
    pub open spec fn wf(self) -> bool {
        self.refs.wf() && self.muts.wf()
    }

    /// Assembles the resolution state from its three built parts.
    pub fn new(statics: StaticGraph, refs: CastRefRegistry, muts: CastMutRegistry) -> (env:
        CastEnv)
        ensures
            env.statics == statics,
            env.refs == refs,
            env.muts == muts,
    {
        CastEnv { statics, refs, muts }
    }
}

/// Whether a shared-reference cast of a view to `target` succeeds: either the
/// view's current interface statically implies the target, or the registry
/// holds an edge for (target, the view's concrete type).
pub open spec fn resolves_ref(env: CastEnv, view: ViewDesc, target: TypeTag) -> bool {
    env.statics.spec_implies(view.iface, target) || env.refs.spec_has(target, view.concrete)
}

/// Whether an exclusive-reference cast of a view to `target` succeeds, as
/// [`resolves_ref`], but against the exclusive-cast registry.
pub open spec fn resolves_mut(env: CastEnv, view: ViewDesc, target: TypeTag) -> bool {
    env.statics.spec_implies(view.iface, target) || env.muts.spec_has(target, view.concrete)
}

/// The whole shared-reference dispatch, as one function of the lens: a
/// resolving cast re-views the same value through `target`; any other cast is
/// empty.
pub open spec fn spec_cast_ref(env: CastEnv, view: ViewDesc, target: TypeTag) -> Option<
    ViewDesc,
> {
    if resolves_ref(env, view, target) {
        Some(view.retag(target))
    } else {
        None
    }
}

/// The whole exclusive-reference dispatch, as one function of the lens.
pub open spec fn spec_cast_mut(env: CastEnv, view: ViewDesc, target: TypeTag) -> Option<
    ViewDesc,
> {
    if resolves_mut(env, view, target) {
        Some(view.retag(target))
    } else {
        None
    }
}

/// Casts a viewed shared reference to the capability `target`.
///
/// The static path is tried first: if the view's current interface is
/// declared to imply `target`, the reference is re-viewed at no cost and with
/// no registry touch.  Every other cast is anchored in the dual direction:
/// it is carried out by [`CastRefRegistry::cast_from_ref`] on the value's
/// concrete tag, never resolved here a second way.  On success the returned
/// view aliases the exact input value; an empty result is the ordinary "this
/// capability is not supported" answer.
pub fn cast_ref<'a, E>(env: &CastEnv, item: &ViewRef<'a, E>, target: TypeTag) -> (r: Option<
    ViewRef<'a, E>,
>)
    requires
        env.wf(),
    ensures
        match r {
            Some(v) => v.obj == item.obj && spec_cast_ref(*env, item.view, target) == Some(
                v.view,
            ),
            None => spec_cast_ref(*env, item.view, target) is None,
        },
{
    if env.statics.implies(item.view.iface, target) {
        Some(item.retagged(target))
    } else {
        env.refs.cast_from_ref(item, target)
    }
}

/// Casts a viewed exclusive reference to the capability `target`, resolving
/// against the static graph first and the exclusive-cast registry second.
///
/// The returned reference aliases the exact input; its lens afterwards is
/// `view.retag(target)`, carried beside the reference since an exclusive
/// reference cannot sit inside a view value.  The referenced value itself is
/// never read or written: only type metadata decides the cast.
pub fn cast_mut<'a, E>(env: &CastEnv, item: &'a mut E, view: ViewDesc, target: TypeTag) -> (r:
    Option<&'a mut E>)
    requires
        env.wf(),
    ensures
        match r {
            Some(y) => {
                &&& spec_cast_mut(*env, view, target) == Some(view.retag(target))
                &&& *y == *old(item)
                &&& *final(item) == *final(y)
            },
            None => {
                &&& spec_cast_mut(*env, view, target) is None
                &&& *final(item) == *old(item)
            },
        },
{
    if env.statics.implies(view.iface, target) {
        Some(item)
    } else {
        env.muts.cast_from_mut(item, view, target)
    }
}

} // verus!
