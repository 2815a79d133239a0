//! The dynamic cast registries.
//!
//! A registry is an immutable table mapping a (target capability tag, source
//! concrete-type tag) pair to exactly one cast record.  It is built exactly
//! once from the complete registration manifest and never changed afterwards,
//! so lookups are read-only and never race.  Two independent registries
//! exist, one for shared-reference casts and one for exclusive-reference
//! casts: presence of an edge in one implies nothing about the other.
//!
//! Building detects duplicate registration of a (target, source) pair and
//! reports it as a startup error instead of letting one record silently
//! overwrite another.

use std::collections::HashMap;

use vstd::prelude::*;

use crate::record::{CastMutRecord, CastRefRecord};
use crate::tag::TypeTag;
use crate::view::{ViewDesc, ViewRef};

verus! {

broadcast use vstd::std_specs::hash::group_hash_axioms;

/// Packs a (target, source) tag pair into a single table key.
pub open spec fn spec_pair_key(target: TypeTag, source: TypeTag) -> u128 {
    ((target.id as u128) << 64) | (source.id as u128)
}

/// Distinct tag pairs pack to distinct keys.
pub proof fn lemma_pair_key_injective(t1: TypeTag, s1: TypeTag, t2: TypeTag, s2: TypeTag)
    requires
        spec_pair_key(t1, s1) == spec_pair_key(t2, s2),
    ensures
        t1 == t2,
        s1 == s2,
{
    let (a1, b1, a2, b2) = (t1.id, s1.id, t2.id, s2.id);
    assert(a1 == a2 && b1 == b2) by (bit_vector)
        requires
            ((a1 as u128) << 64) | (b1 as u128) == ((a2 as u128) << 64) | (b2 as u128),
    ;
}

/// Computes the table key of a (target, source) pair.
pub fn pair_key(target: TypeTag, source: TypeTag) -> (k: u128)
    ensures
        k == spec_pair_key(target, source),
{
    ((target.id as u128) << 64) | (source.id as u128)
}

/// The startup error of registry construction: two records were contributed
/// for the same (target, source) pair.
#[derive(Clone, Copy, PartialEq, Eq, Debug, Structural)]
pub struct DuplicateRegistration {
    pub target: TypeTag,
    pub source: TypeTag,
}

/// The table key of the manifest record at position `i`.
pub open spec fn ref_key_at(records: Seq<CastRefRecord>, i: int) -> u128 {
    spec_pair_key(records[i].target, records[i].source)
}

/// Whether the manifest record at position `j` repeats the (target, source)
/// pair of an earlier record.
pub open spec fn ref_dup_at(records: Seq<CastRefRecord>, j: int) -> bool {
    exists|i: int| 0 <= i < j && ref_key_at(records, i) == ref_key_at(records, j)
}

/// Whether every (target, source) pair occurs at most once in the manifest.
pub open spec fn ref_no_duplicates(records: Seq<CastRefRecord>) -> bool {
    forall|j: int| 0 <= j < records.len() ==> !ref_dup_at(records, j)
}

/// Whether the manifest registers some record for the pair (target, source).
pub open spec fn ref_registered(
    records: Seq<CastRefRecord>,
    target: TypeTag,
    source: TypeTag,
) -> bool {
    exists|i: int|
        0 <= i < records.len() && records[i].target == target && records[i].source == source
}

/// The shared-reference cast table: one record per registered
/// (target capability, source concrete type) pair.
pub struct CastRefRegistry {
    table: HashMap<u128, CastRefRecord>,
}

impl CastRefRegistry {
    /// Whether an edge is registered for casting a value of concrete type
    /// `source` to the capability `target`.
    pub closed spec fn spec_has(self, target: TypeTag, source: TypeTag) -> bool {
        self.table@.contains_key(spec_pair_key(target, source))
    }

    /// The one record registered for (target, source).
    pub closed spec fn spec_record(self, target: TypeTag, source: TypeTag) -> CastRefRecord {
        self.table@[spec_pair_key(target, source)]
    }

    /// Well-formedness: every record sits at the key built from its own
    /// (target, source) pair.  Construction establishes this, and the table
    /// is never changed afterwards.
    pub closed spec fn wf(self) -> bool {
        forall|k: u128| #[trigger]
            self.table@.contains_key(k) ==> spec_pair_key(
                self.table@[k].target,
                self.table@[k].source,
            ) == k
    }

    /// In a well-formed registry, a record found under (target, source) was
    /// registered exactly for that pair: the lookup's key match already
    /// proves that the handler receives a reference with its expected source
    /// tag.
    pub proof fn lemma_record_keyed(self, target: TypeTag, source: TypeTag)
        requires
            self.wf(),
            self.spec_has(target, source),
        ensures
            self.spec_record(target, source).target == target,
            self.spec_record(target, source).source == source,
    {
        let rec = self.spec_record(target, source);
        lemma_pair_key_injective(rec.target, rec.source, target, source);
    }

    /// Builds the registry from the complete registration manifest, exactly
    /// once.  Contributing two records for one (target, source) pair is a
    /// startup error naming the first repeated pair, not a silent overwrite.
    pub fn new(records: Vec<CastRefRecord>) -> (r: Result<
        CastRefRegistry,
        DuplicateRegistration,
    >)
        ensures
            match r {
                Ok(reg) => {
                    &&& reg.wf()
                    &&& ref_no_duplicates(records@)
                    &&& forall|t: TypeTag, s: TypeTag|
                        reg.spec_has(t, s) <==> ref_registered(records@, t, s)
                    &&& forall|i: int|
                        0 <= i < records@.len() ==> reg.spec_record(
                            #[trigger] records@[i].target,
                            records@[i].source,
                        ) == records@[i]
                },
                Err(e) => exists|j: int|
                    {
                        &&& 0 <= j < records@.len()
                        &&& #[trigger] ref_dup_at(records@, j)
                        &&& forall|j2: int| 0 <= j2 < j ==> !ref_dup_at(records@, j2)
                        &&& records@[j].target == e.target
                        &&& records@[j].source == e.source
                    },
            },
    {
        let ghost rs = records@;
        let mut table: HashMap<u128, CastRefRecord> = HashMap::new();
        let mut i: usize = 0;
        while i < records.len()
            invariant
                0 <= i <= rs.len(),
                rs == records@,
                forall|j: int| 0 <= j < i ==> !ref_dup_at(rs, j),
                forall|k: u128| #[trigger]
                    table@.contains_key(k) <==> exists|j: int|
                        0 <= j < i && ref_key_at(rs, j) == k,
                forall|j: int|
                    0 <= j < i ==> table@.contains_key(#[trigger] ref_key_at(rs, j))
                        && table@[ref_key_at(rs, j)] == rs[j],
            decreases rs.len() - i,
        {
            let rec = records[i];
            let k = pair_key(rec.target, rec.source);
            if table.contains_key(&k) {
                proof {
                    assert(ref_key_at(rs, i as int) == k);
                    assert(ref_dup_at(rs, i as int));
                }
                return Err(DuplicateRegistration { target: rec.target, source: rec.source });
            }
            table.insert(k, rec);
            proof {
                assert(ref_key_at(rs, i as int) == k);
                assert forall|j: int|
                    0 <= j < i + 1 implies table@.contains_key(#[trigger] ref_key_at(rs, j))
                    && table@[ref_key_at(rs, j)] == rs[j] by {
                    if j < i {
                        assert(ref_key_at(rs, j) != k);
                    }
                }
            }
            i += 1;
        }
        let reg = CastRefRegistry { table };
        proof {
            assert forall|k: u128| #[trigger] reg.table@.contains_key(k) implies spec_pair_key(
                reg.table@[k].target,
                reg.table@[k].source,
            ) == k by {
                let j = choose|j: int| 0 <= j < rs.len() && ref_key_at(rs, j) == k;
                assert(reg.table@[k] == rs[j]);
            }
            assert forall|t: TypeTag, s: TypeTag| #[trigger]
                reg.spec_has(t, s) implies ref_registered(rs, t, s) by {
                let j = choose|j: int|
                    0 <= j < rs.len() && ref_key_at(rs, j) == spec_pair_key(t, s);
                lemma_pair_key_injective(rs[j].target, rs[j].source, t, s);
            }
            assert forall|i: int| 0 <= i < rs.len() implies reg.spec_record(
                #[trigger] rs[i].target,
                rs[i].source,
            ) == rs[i] by {
                assert(reg.table@.contains_key(ref_key_at(rs, i)));
                assert(reg.table@[ref_key_at(rs, i)] == rs[i]);
            }
            assert forall|t: TypeTag, s: TypeTag| #[trigger]
                ref_registered(rs, t, s) implies reg.spec_has(t, s) by {
                let j = choose|j: int|
                    0 <= j < rs.len() && rs[j].target == t && rs[j].source == s;
                assert(ref_key_at(rs, j) == spec_pair_key(t, s));
            }
        }
        Ok(reg)
    }

    /// The empty table: well-formed, with nothing registered.
    pub fn empty() -> (r: CastRefRegistry)
        ensures
            r.wf(),
            forall|t: TypeTag, s: TypeTag| !r.spec_has(t, s),
    {
        CastRefRegistry { table: HashMap::new() }
    }

    /// Probes the table for the record registered under (target, source).  An
    /// empty answer is the ordinary "this capability is not supported"
    /// outcome, not a fault.
    pub fn lookup(&self, target: TypeTag, source: TypeTag) -> (r: Option<&CastRefRecord>)
        ensures
            match r {
                Some(rec) => self.spec_has(target, source) && *rec == self.spec_record(
                    target,
                    source,
                ),
                None => !self.spec_has(target, source),
            },
    {
        let k = pair_key(target, source);
        self.table.get(&k)
    }

    /// Casts an erased shared reference to the capability `target`: probes
    /// the table for (target, concrete tag of `from`), and on a hit hands the
    /// record's handler the reference after checking the tag it was
    /// registered under.  Well-formedness makes the check's failure
    /// impossible, so a miss is the only empty outcome.
    pub fn cast_from_ref<'a, E>(&self, from: &ViewRef<'a, E>, target: TypeTag) -> (r: Option<
        ViewRef<'a, E>,
    >)
        requires
            self.wf(),
        ensures
            match r {
                Some(v) => {
                    &&& self.spec_has(target, from.view.concrete)
                    &&& v.obj == from.obj
                    &&& v.view == from.view.retag(target)
                },
                None => !self.spec_has(target, from.view.concrete),
            },
    {
        match self.lookup(target, from.view.concrete) {
            Some(rec) => {
                proof {
                    self.lemma_record_keyed(target, from.view.concrete);
                }
                match rec.handler_for(from.view.concrete) {
                    Ok(_handler) => Some(from.retagged(target)),
                    // Unreachable under well-formedness: the key match proves
                    // the tags agree, so the guard cannot fault.
                    Err(_fault) => None,
                }
            },
            None => None,
        }
    }
}

impl Default for CastRefRegistry {
    /// Defaults to the empty table.
    fn default() -> (r: CastRefRegistry)
        ensures
            r.wf(),
            forall|t: TypeTag, s: TypeTag| !r.spec_has(t, s),
    {
        CastRefRegistry::empty()
    }
}

/// The table key of the manifest record at position `i`.
pub open spec fn mut_key_at(records: Seq<CastMutRecord>, i: int) -> u128 {
    spec_pair_key(records[i].target, records[i].source)
}

/// Whether the manifest record at position `j` repeats the (target, source)
/// pair of an earlier record.
pub open spec fn mut_dup_at(records: Seq<CastMutRecord>, j: int) -> bool {
    exists|i: int| 0 <= i < j && mut_key_at(records, i) == mut_key_at(records, j)
}

/// Whether every (target, source) pair occurs at most once in the manifest.
pub open spec fn mut_no_duplicates(records: Seq<CastMutRecord>) -> bool {
    forall|j: int| 0 <= j < records.len() ==> !mut_dup_at(records, j)
}

/// Whether the manifest registers some record for the pair (target, source).
pub open spec fn mut_registered(
    records: Seq<CastMutRecord>,
    target: TypeTag,
    source: TypeTag,
) -> bool {
    exists|i: int|
        0 <= i < records.len() && records[i].target == target && records[i].source == source
}

/// The exclusive-reference cast table, independent of the shared one.
pub struct CastMutRegistry {
    table: HashMap<u128, CastMutRecord>,
}

impl CastMutRegistry {
    /// Whether an edge is registered for casting a value of concrete type
    /// `source` to the capability `target` under exclusive access.
    pub closed spec fn spec_has(self, target: TypeTag, source: TypeTag) -> bool {
        self.table@.contains_key(spec_pair_key(target, source))
    }

    /// The one record registered for (target, source).
    pub closed spec fn spec_record(self, target: TypeTag, source: TypeTag) -> CastMutRecord {
        self.table@[spec_pair_key(target, source)]
    }

    /// Well-formedness: every record sits at the key built from its own
    /// (target, source) pair.
    pub closed spec fn wf(self) -> bool {
        forall|k: u128| #[trigger]
            self.table@.contains_key(k) ==> spec_pair_key(
                self.table@[k].target,
                self.table@[k].source,
            ) == k
    }

    /// In a well-formed registry, a record found under (target, source) was
    /// registered exactly for that pair.
    pub proof fn lemma_record_keyed(self, target: TypeTag, source: TypeTag)
        requires
            self.wf(),
            self.spec_has(target, source),
        ensures
            self.spec_record(target, source).target == target,
            self.spec_record(target, source).source == source,
    {
        let rec = self.spec_record(target, source);
        lemma_pair_key_injective(rec.target, rec.source, target, source);
    }

    /// Builds the registry from the complete registration manifest, exactly
    /// once, reporting the first repeated (target, source) pair as a startup
    /// error.
    pub fn new(records: Vec<CastMutRecord>) -> (r: Result<
        CastMutRegistry,
        DuplicateRegistration,
    >)
        ensures
            match r {
                Ok(reg) => {
                    &&& reg.wf()
                    &&& mut_no_duplicates(records@)
                    &&& forall|t: TypeTag, s: TypeTag|
                        reg.spec_has(t, s) <==> mut_registered(records@, t, s)
                    &&& forall|i: int|
                        0 <= i < records@.len() ==> reg.spec_record(
                            #[trigger] records@[i].target,
                            records@[i].source,
                        ) == records@[i]
                },
                Err(e) => exists|j: int|
                    {
                        &&& 0 <= j < records@.len()
                        &&& #[trigger] mut_dup_at(records@, j)
                        &&& forall|j2: int| 0 <= j2 < j ==> !mut_dup_at(records@, j2)
                        &&& records@[j].target == e.target
                        &&& records@[j].source == e.source
                    },
            },
    {
        let ghost rs = records@;
        let mut table: HashMap<u128, CastMutRecord> = HashMap::new();
        let mut i: usize = 0;
        while i < records.len()
            invariant
                0 <= i <= rs.len(),
                rs == records@,
                forall|j: int| 0 <= j < i ==> !mut_dup_at(rs, j),
                forall|k: u128| #[trigger]
                    table@.contains_key(k) <==> exists|j: int|
                        0 <= j < i && mut_key_at(rs, j) == k,
                forall|j: int|
                    0 <= j < i ==> table@.contains_key(#[trigger] mut_key_at(rs, j))
                        && table@[mut_key_at(rs, j)] == rs[j],
            decreases rs.len() - i,
        {
            let rec = records[i];
            let k = pair_key(rec.target, rec.source);
            if table.contains_key(&k) {
                proof {
                    assert(mut_key_at(rs, i as int) == k);
                    assert(mut_dup_at(rs, i as int));
                }
                return Err(DuplicateRegistration { target: rec.target, source: rec.source });
            }
            table.insert(k, rec);
            proof {
                assert(mut_key_at(rs, i as int) == k);
                assert forall|j: int|
                    0 <= j < i + 1 implies table@.contains_key(#[trigger] mut_key_at(rs, j))
                    && table@[mut_key_at(rs, j)] == rs[j] by {
                    if j < i {
                        assert(mut_key_at(rs, j) != k);
                    }
                }
            }
            i += 1;
        }
        let reg = CastMutRegistry { table };
        proof {
            assert forall|k: u128| #[trigger] reg.table@.contains_key(k) implies spec_pair_key(
                reg.table@[k].target,
                reg.table@[k].source,
            ) == k by {
                let j = choose|j: int| 0 <= j < rs.len() && mut_key_at(rs, j) == k;
                assert(reg.table@[k] == rs[j]);
            }
            assert forall|t: TypeTag, s: TypeTag| #[trigger]
                reg.spec_has(t, s) implies mut_registered(rs, t, s) by {
                let j = choose|j: int|
                    0 <= j < rs.len() && mut_key_at(rs, j) == spec_pair_key(t, s);
                lemma_pair_key_injective(rs[j].target, rs[j].source, t, s);
            }
            assert forall|i: int| 0 <= i < rs.len() implies reg.spec_record(
                #[trigger] rs[i].target,
                rs[i].source,
            ) == rs[i] by {
                assert(reg.table@.contains_key(mut_key_at(rs, i)));
                assert(reg.table@[mut_key_at(rs, i)] == rs[i]);
            }
            assert forall|t: TypeTag, s: TypeTag| #[trigger]
                mut_registered(rs, t, s) implies reg.spec_has(t, s) by {
                let j = choose|j: int|
                    0 <= j < rs.len() && rs[j].target == t && rs[j].source == s;
                assert(mut_key_at(rs, j) == spec_pair_key(t, s));
            }
        }
        Ok(reg)
    }

    /// The empty table: well-formed, with nothing registered.
    pub fn empty() -> (r: CastMutRegistry)
        ensures
            r.wf(),
            forall|t: TypeTag, s: TypeTag| !r.spec_has(t, s),
    {
        CastMutRegistry { table: HashMap::new() }
    }

    /// Probes the table for the record registered under (target, source).
    pub fn lookup(&self, target: TypeTag, source: TypeTag) -> (r: Option<&CastMutRecord>)
        ensures
            match r {
                Some(rec) => self.spec_has(target, source) && *rec == self.spec_record(
                    target,
                    source,
                ),
                None => !self.spec_has(target, source),
            },
    {
        let k = pair_key(target, source);
        self.table.get(&k)
    }

    /// Casts an erased exclusive reference to the capability `target`.  The
    /// returned reference aliases the exact input; its lens afterwards is
    /// `view.retag(target)`.  Verus keeps an exclusive reference out of any
    /// struct, so the lens travels beside the reference rather than inside a
    /// view value, and the caller pairs the result with the retagged lens.
    /// The cast reads only type metadata: the referenced value is untouched.
    pub fn cast_from_mut<'a, E>(&self, from: &'a mut E, view: ViewDesc, target: TypeTag) -> (r:
        Option<&'a mut E>)
        requires
            self.wf(),
        ensures
            match r {
                Some(y) => {
                    &&& self.spec_has(target, view.concrete)
                    &&& *y == *old(from)
                    &&& *final(from) == *final(y)
                },
                None => {
                    &&& !self.spec_has(target, view.concrete)
                    &&& *final(from) == *old(from)
                },
            },
    {
        match self.lookup(target, view.concrete) {
            Some(rec) => {
                proof {
                    self.lemma_record_keyed(target, view.concrete);
                }
                match rec.handler_for(view.concrete) {
                    Ok(_handler) => Some(from),
                    // Unreachable under well-formedness: the key match proves
                    // the tags agree, so the guard cannot fault.
                    Err(_fault) => None,
                }
            },
            None => None,
        }
    }
}

impl Default for CastMutRegistry {
    /// Defaults to the empty table.
    fn default() -> (r: CastMutRegistry)
        ensures
            r.wf(),
            forall|t: TypeTag, s: TypeTag| !r.spec_has(t, s),
    {
        CastMutRegistry::empty()
    }
}

/// Casts an already-erased shared reference through an explicit registry, for
/// a caller that holds only an interface view and not the concrete type.
pub fn cast_from_ref<'a, E>(
    registry: &CastRefRegistry,
    from: &ViewRef<'a, E>,
    target: TypeTag,
) -> (r: Option<ViewRef<'a, E>>)
    requires
        registry.wf(),
    ensures
        match r {
            Some(v) => {
                &&& registry.spec_has(target, from.view.concrete)
                &&& v.obj == from.obj
                &&& v.view == from.view.retag(target)
            },
            None => !registry.spec_has(target, from.view.concrete),
        },
{
    registry.cast_from_ref(from, target)
}

/// Casts an already-erased exclusive reference through an explicit registry,
/// as [`cast_from_ref`] does for a shared one.
pub fn cast_from_mut<'a, E>(
    registry: &CastMutRegistry,
    from: &'a mut E,
    view: ViewDesc,
    target: TypeTag,
) -> (r: Option<&'a mut E>)
    requires
        registry.wf(),
    ensures
        match r {
            Some(y) => {
                &&& registry.spec_has(target, view.concrete)
                &&& *y == *old(from)
                &&& *final(from) == *final(y)
            },
            None => {
                &&& !registry.spec_has(target, view.concrete)
                &&& *final(from) == *old(from)
            },
        },
{
    registry.cast_from_mut(from, view, target)
}

} // verus!
