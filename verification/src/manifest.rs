//! The registration interface.
//!
//! Registrations are contributed from possibly many independent modules
//! before the first lookup; here they are collected in one explicit,
//! enumerable manifest value and handed to the one registry build.  The
//! build either produces the complete, immutable resolution state or reports
//! the first duplicated (target, source) pair as a startup error.

use vstd::prelude::*;

use crate::record::{CastMutRecord, CastRefRecord, HandlerId};
use crate::registry::{
    mut_dup_at, mut_no_duplicates, mut_registered, ref_dup_at, ref_no_duplicates,
    ref_registered, CastMutRegistry, CastRefRegistry, DuplicateRegistration,
};
use crate::statics::{StaticEdge, StaticGraph};
use crate::tag::TypeTag;
use crate::CastEnv;

verus! {

/// Everything the program contributes before the registries are built: the
/// dynamic cast records of both kinds and the declared static implications.
pub struct CastManifest {
    pub ref_records: Vec<CastRefRecord>,
    pub mut_records: Vec<CastMutRecord>,
    pub static_edges: Vec<StaticEdge>,
}

impl CastManifest {
    /// An empty manifest, to be filled by the registration calls.
    pub fn new() -> (m: CastManifest)
        ensures
            m.ref_records@ == Seq::<CastRefRecord>::empty(),
            m.mut_records@ == Seq::<CastMutRecord>::empty(),
            m.static_edges@ == Seq::<StaticEdge>::empty(),
    {
        CastManifest { ref_records: Vec::new(), mut_records: Vec::new(), static_edges: Vec::new() }
    }

    /// Contributes a shared-reference cast edge: casting a value of concrete
    /// type `source` to the capability `target` through the conversion named
    /// `handler`.
    pub fn register_ref(&mut self, target: TypeTag, source: TypeTag, handler: HandlerId)
        ensures
            final(self).ref_records@ == old(self).ref_records@.push(
                CastRefRecord { target, source, handler },
            ),
            final(self).mut_records@ == old(self).mut_records@,
            final(self).static_edges@ == old(self).static_edges@,
    {
        self.ref_records.push(CastRefRecord::new(target, source, handler));
    }

    /// Contributes an exclusive-reference cast edge, independent of any
    /// shared-reference registration for the same pair.
    pub fn register_mut(&mut self, target: TypeTag, source: TypeTag, handler: HandlerId)
        ensures
            final(self).mut_records@ == old(self).mut_records@.push(
                CastMutRecord { target, source, handler },
            ),
            final(self).ref_records@ == old(self).ref_records@,
            final(self).static_edges@ == old(self).static_edges@,
    {
        self.mut_records.push(CastMutRecord::new(target, source, handler));
    }

    /// Declares that `source` statically implies `target`: casts along this
    /// edge resolve with no registry touch, for shared and exclusive
    /// references alike.
    pub fn declare_static(&mut self, source: TypeTag, target: TypeTag)
        ensures
            final(self).static_edges@ == old(self).static_edges@.push(
                StaticEdge { source, target },
            ),
            final(self).ref_records@ == old(self).ref_records@,
            final(self).mut_records@ == old(self).mut_records@,
    {
        self.static_edges.push(StaticEdge::new(source, target));
    }

    /// Builds the complete resolution state from the manifest, exactly once.
    /// Success gives the two well-formed registries holding exactly the
    /// contributed records and the declared static graph; a duplicated pair
    /// in either record list is reported as a startup error, the
    /// shared-reference list being checked first.
    pub fn build(self) -> (r: Result<CastEnv, DuplicateRegistration>)
        ensures
            match r {
                Ok(env) => {
                    &&& env.wf()
                    &&& env.statics.edges@ == self.static_edges@
                    &&& ref_no_duplicates(self.ref_records@)
                    &&& mut_no_duplicates(self.mut_records@)
                    &&& forall|t: TypeTag, s: TypeTag|
                        env.refs.spec_has(t, s) <==> ref_registered(self.ref_records@, t, s)
                    &&& forall|t: TypeTag, s: TypeTag|
                        env.muts.spec_has(t, s) <==> mut_registered(self.mut_records@, t, s)
                },
                Err(e) => {
                    ||| exists|j: int|
                        {
                            &&& 0 <= j < self.ref_records@.len()
                            &&& #[trigger] ref_dup_at(self.ref_records@, j)
                            &&& forall|j2: int|
                                0 <= j2 < j ==> !ref_dup_at(self.ref_records@, j2)
                            &&& self.ref_records@[j].target == e.target
                            &&& self.ref_records@[j].source == e.source
                        }
                    ||| {
                        &&& ref_no_duplicates(self.ref_records@)
                        &&& exists|j: int|
                            {
                                &&& 0 <= j < self.mut_records@.len()
                                &&& #[trigger] mut_dup_at(self.mut_records@, j)
                                &&& forall|j2: int|
                                    0 <= j2 < j ==> !mut_dup_at(self.mut_records@, j2)
                                &&& self.mut_records@[j].target == e.target
                                &&& self.mut_records@[j].source == e.source
                            }
                    }
                },
            },
    {
        let CastManifest { ref_records, mut_records, static_edges } = self;
        let refs = match CastRefRegistry::new(ref_records) {
            Ok(refs) => refs,
            Err(e) => {
                return Err(e);
            },
        };
        let muts = match CastMutRegistry::new(mut_records) {
            Ok(muts) => muts,
            Err(e) => {
                return Err(e);
            },
        };
        Ok(CastEnv::new(StaticGraph::new(static_edges), refs, muts))
    }
}

} // verus!
