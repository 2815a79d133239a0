//! The static capability graph.
//!
//! Some casts need no runtime table: when the current interface of a view is
//! declared to imply the target capability, reinterpreting the reference is
//! enough.  Those implications form a compile-time-known graph; here it is an
//! explicit, enumerable value, contributed by the same manifest that supplies
//! the dynamic cast records.  The declared relation is consulted as given: a
//! declaration that capability `A` implies `B` contributes the edge `(A, B)`,
//! and a chain of implications is declared edge by edge.

use vstd::prelude::*;

use crate::tag::TypeTag;

verus! {

/// One declared implication: a view typed `source` may always be re-viewed as
/// `target` with no registry lookup.
#[derive(Clone, Copy, PartialEq, Eq, Debug, Structural)]
pub struct StaticEdge {
    pub source: TypeTag,
    pub target: TypeTag,
}

impl StaticEdge {
    /// Declares that `source` statically implies `target`.
    pub fn new(source: TypeTag, target: TypeTag) -> (e: StaticEdge)
        ensures
            e == (StaticEdge { source, target }),
    {
        StaticEdge { source, target }
    }
}

/// The declared static-implication relation over capability tags.
pub struct StaticGraph {
    pub edges: Vec<StaticEdge>,
}

impl StaticGraph {
    /// Whether the graph declares that `source` implies `target`.
    pub open spec fn spec_implies(self, source: TypeTag, target: TypeTag) -> bool {
        exists|i: int|
            0 <= i < self.edges@.len() && self.edges@[i] == (StaticEdge { source, target })
    }

    /// Wraps a declared edge list as a graph.
    pub fn new(edges: Vec<StaticEdge>) -> (g: StaticGraph)
        ensures
            g.edges@ == edges@,
    {
        StaticGraph { edges }
    }

    /// A graph with no declared implications.
    pub fn empty() -> (g: StaticGraph)
        ensures
            forall|s: TypeTag, t: TypeTag| !g.spec_implies(s, t),
    {
        StaticGraph { edges: Vec::new() }
    }

    /// Decides whether `source` is declared to imply `target`.
    pub fn implies(&self, source: TypeTag, target: TypeTag) -> (b: bool)
        ensures
            b == self.spec_implies(source, target),
    {
        let mut i: usize = 0;
        while i < self.edges.len()
            invariant
                0 <= i <= self.edges@.len(),
                forall|j: int|
                    0 <= j < i ==> self.edges@[j] != (StaticEdge { source, target }),
            decreases self.edges@.len() - i,
        {
            let e = self.edges[i];
            if e.source.id == source.id && e.target.id == target.id {
                assert(self.edges@[i as int] == (StaticEdge { source, target }));
                return true;
            }
            i += 1;
        }
        false
    }
}

} // verus!
