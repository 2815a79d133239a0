//! Laws of cast resolution.
//!
//! These proof functions state, once and for all inputs, how the two
//! resolution layers and the two registries interact.  Each is proved from
//! the same spec functions that the executable casts' contracts use.

use vstd::prelude::*;

use crate::resolves_ref;
use crate::spec_cast_mut;
use crate::spec_cast_ref;
use crate::CastEnv;
use crate::tag::TypeTag;
use crate::view::ViewDesc;

verus! {

/// Upcast totality: a cast whose target is statically implied by the view's
/// current interface always succeeds, whatever the registries hold, and
/// yields the same value under the target lens.
pub proof fn lemma_upcast_total(env: CastEnv, view: ViewDesc, target: TypeTag)
    requires
        env.statics.spec_implies(view.iface, target),
    ensures
        spec_cast_ref(env, view, target) == Some(view.retag(target)),
        spec_cast_mut(env, view, target) == Some(view.retag(target)),
{
}

/// Sidecast commutativity: when a value's concrete type is registered for
/// shared casts to both `t` and `u`, casting to `t` first and then to `u`
/// gives exactly what casting to `u` directly gives.
pub proof fn lemma_sidecast_commutes(env: CastEnv, view: ViewDesc, t: TypeTag, u: TypeTag)
    requires
        env.refs.spec_has(t, view.concrete),
        env.refs.spec_has(u, view.concrete),
    ensures
        spec_cast_ref(env, view, t) == Some(view.retag(t)),
        spec_cast_ref(env, view.retag(t), u) == spec_cast_ref(env, view, u),
        spec_cast_ref(env, view, u) == Some(view.retag(u)),
{
    assert(view.retag(t).retag(u) == view.retag(u));
}

/// Negative closure: with no static implication from the view's interface and
/// no registered edge for the view's concrete type, the cast is empty.
pub proof fn lemma_negative_closure(env: CastEnv, view: ViewDesc, target: TypeTag)
    requires
        !env.statics.spec_implies(view.iface, target),
        !env.refs.spec_has(target, view.concrete),
    ensures
        spec_cast_ref(env, view, target) is None,
{
}

/// Independence of the two tables: a concrete type registered for shared
/// casts to `target` but not for exclusive ones casts successfully through a
/// shared reference and not through an exclusive one.  The static layer must
/// stay silent, since a static implication serves both kinds alike.
pub proof fn lemma_mut_immut_independent(env: CastEnv, view: ViewDesc, target: TypeTag)
    requires
        env.refs.spec_has(target, view.concrete),
        !env.muts.spec_has(target, view.concrete),
        !env.statics.spec_implies(view.iface, target),
    ensures
        spec_cast_ref(env, view, target) == Some(view.retag(target)),
        spec_cast_mut(env, view, target) is None,
{
}

/// Determinism: the outcome of a cast is a function of the resolution state,
/// the lens and the target alone, so any two results that the executable
/// casts' contracts allow for the same inputs are equal.  Together with the
/// contracts' identity clauses — a cast hands its reference through unchanged
/// and never touches the referenced value — repeating a cast observes nothing
/// new.
pub proof fn lemma_cast_deterministic(
    env: CastEnv,
    view: ViewDesc,
    target: TypeTag,
    r1: Option<ViewDesc>,
    r2: Option<ViewDesc>,
)
    requires
        r1 == spec_cast_ref(env, view, target),
        r2 == spec_cast_ref(env, view, target),
    ensures
        r1 == r2,
{
}

/// Recasting is idempotent on the dynamic path: once a registered cast to
/// `target` has succeeded, casting the result to `target` again succeeds and
/// changes nothing, since the registry keys on the concrete tag, which the
/// first cast preserved.
pub proof fn lemma_recast_idempotent(env: CastEnv, view: ViewDesc, target: TypeTag)
    requires
        env.refs.spec_has(target, view.concrete),
    ensures
        spec_cast_ref(env, view, target) == Some(view.retag(target)),
        spec_cast_ref(env, view.retag(target), target) == Some(view.retag(target)),
{
    assert(view.retag(target).retag(target) == view.retag(target));
}

/// A successful cast changes the lens's interface to the target and nothing
/// else; in particular the concrete tag survives every cast, so no chain of
/// casts can launder a value's identity.
pub proof fn lemma_cast_preserves_concrete(env: CastEnv, view: ViewDesc, target: TypeTag)
    requires
        resolves_ref(env, view, target),
    ensures
        spec_cast_ref(env, view, target) == Some(
            ViewDesc { concrete: view.concrete, iface: target },
        ),
{
}

/// The dynamic layer ignores the current interface: whether the registry
/// resolves a cast depends only on the value's concrete type, so every
/// interface view of one value enjoys the same registered capabilities.
pub proof fn lemma_registry_ignores_iface(
    env: CastEnv,
    v1: ViewDesc,
    v2: ViewDesc,
    target: TypeTag,
)
    requires
        v1.concrete == v2.concrete,
        env.refs.spec_has(target, v1.concrete),
    ensures
        resolves_ref(env, v1, target),
        resolves_ref(env, v2, target),
{
}

} // verus!
