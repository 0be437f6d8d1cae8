//! The compositional path registry and its resolver.
//!
//! A registry is an immutable tree, built once at initialisation: each node
//! is either an internal node mapping segment names to child subtrees, or a
//! leaf naming a handler. Resolution walks the request's segments from the
//! front, matching each against the names registered at the current level —
//! exact, case-sensitive, no wildcards — and hands a matched leaf's handler
//! the index where the unconsumed segments start. Declaration order of
//! sibling entries never changes the outcome, because names at one level are
//! distinct; see [`lemma_resolve_into_matching_subtree`].

use vstd::prelude::*;

verus! {

broadcast use vstd::seq::group_seq_axioms, vstd::std_specs::vec::group_vec_axioms;

/// The handlers that the composed subtrees can bind a leaf to.
#[derive(Clone, Copy, PartialEq, Eq, Structural, Debug)]
pub enum Handler {
    /// The shell's last committed block height.
    LastBlockHeight,
    /// A raw read of one storage key, the key given by the remaining path
    /// segments.
    StorageValue,
    /// A validity-predicate token balance, the owner given by the remaining
    /// path segment.
    TokenBalance,
}

/// One node of the registry tree.
pub enum Node {
    /// An internal node: named child subtrees, names distinct at this level.
    Sub(Vec<(String, Node)>),
    /// A leaf: a handler bound to this path.
    Leaf(Handler),
}

/// A root registry: a tree of named subtrees composed at initialisation and
/// never mutated afterwards.
pub struct Router {
    pub root: Node,
}

/// Resolution among the entries of one internal node: find the entry whose
/// name equals the current segment and continue below it.
pub open spec fn resolve_entries(
    entries: Seq<(String, Node)>,
    segs: Seq<Seq<char>>,
    i: int,
) -> Option<(Handler, int)>
    decreases entries,
{
    if entries.len() == 0 {
        None
    } else if entries[0].0@ == segs[i] {
        resolve_node(entries[0].1, segs, i + 1)
    } else {
        resolve_entries(entries.skip(1), segs, i)
    }
}

/// Resolution at one node: a leaf answers with its handler and the index of
/// the first unconsumed segment; an internal node consumes one segment.
pub open spec fn resolve_node(n: Node, segs: Seq<Seq<char>>, i: int) -> Option<(Handler, int)>
    decreases n,
{
    match n {
        Node::Leaf(h) => Some((h, i)),
        Node::Sub(entries) => if i >= segs.len() {
            None
        } else {
            resolve_entries(entries@, segs, i)
        },
    }
}

/// The view of an executable resolution result.
pub open spec fn resolution_view(r: Option<(Handler, usize)>) -> Option<(Handler, int)> {
    match r {
        Some((h, j)) => Some((h, j as int)),
        None => None,
    }
}

/// Whether the names registered at one level are pairwise distinct, as a
/// well-formed registry requires.
pub open spec fn entry_names_distinct(entries: Seq<(String, Node)>) -> bool {
    forall|a: int, b: int|
        0 <= a < b < entries.len() ==> entries[a].0@ != entries[b].0@
}

/// Law: at a level whose names are distinct, a request whose current segment
/// equals a registered name resolves inside that entry's subtree, never
/// inside a sibling's; in particular, the declaration order of siblings
/// never changes where a request routes.
pub proof fn lemma_resolve_into_matching_subtree(
    entries: Seq<(String, Node)>,
    segs: Seq<Seq<char>>,
    i: int,
    k: int,
)
    requires
        entry_names_distinct(entries),
        0 <= k < entries.len(),
        entries[k].0@ == segs[i],
    ensures
        resolve_entries(entries, segs, i) == resolve_node(entries[k].1, segs, i + 1),
    decreases entries.len(),
{
    if k == 0 {
    } else {
        assert(entries[0].0@ != entries[k].0@);
        assert(entries.skip(1)[k - 1] == entries[k]);
        assert(entry_names_distinct(entries.skip(1))) by {
            assert forall|a: int, b: int|
                0 <= a < b < entries.skip(1).len() implies entries.skip(1)[a].0@ != entries.skip(
                1,
            )[b].0@ by {
                assert(entries.skip(1)[a] == entries[a + 1]);
                assert(entries.skip(1)[b] == entries[b + 1]);
            }
        }
        lemma_resolve_into_matching_subtree(entries.skip(1), segs, i, k - 1);
    }
}

/// Law: when no registered name at a level equals the current segment,
/// resolution fails at that level — no sibling is ever entered by accident.
pub proof fn lemma_resolve_unmatched(entries: Seq<(String, Node)>, segs: Seq<Seq<char>>, i: int)
    requires
        forall|a: int| 0 <= a < entries.len() ==> entries[a].0@ != segs[i],
    ensures
        resolve_entries(entries, segs, i) is None,
    decreases entries.len(),
{
    if entries.len() == 0 {
    } else {
        assert forall|a: int| 0 <= a < entries.skip(1).len() implies entries.skip(1)[a].0@
            != segs[i] by {
            assert(entries.skip(1)[a] == entries[a + 1]);
        }
        lemma_resolve_unmatched(entries.skip(1), segs, i);
    }
}

/// Resolve one node, executably.
#[verifier::loop_isolation(false)]
fn resolve_node_exec(n: &Node, segs: &Vec<String>, i: usize) -> (r: Option<(Handler, usize)>)
    requires
        i <= segs@.len(),
    ensures
        resolution_view(r) == resolve_node(*n, crate::path::seg_views(segs@), i as int),
        r matches Some(p) ==> p.1 <= segs@.len(),
    decreases *n,
{
    let ghost sv = crate::path::seg_views(segs@);
    match n {
        Node::Leaf(h) => Some((*h, i)),
        Node::Sub(entries) => {
            if i >= segs.len() {
                return None;
            }
            let m = entries.len();
            let mut k: usize = 0;
            proof {
                assert(entries@.skip(0) =~= entries@);
            }
            while k < m
                invariant
                    k <= m,
                    m == entries@.len(),
                    i < segs@.len(),
                    i < usize::MAX,
                    sv == crate::path::seg_views(segs@),
                    resolve_entries(entries@.skip(k as int), sv, i as int) == resolve_entries(
                        entries@,
                        sv,
                        i as int,
                    ),
                decreases m - k,
            {
                proof {
                    assert(entries@.skip(k as int)[0] == entries@[k as int]);
                    assert(entries@.skip(k as int).skip(1) =~= entries@.skip(k as int + 1));
                    assert(sv[i as int] == segs@[i as int]@);
                    assert(*n is Sub);
                    assert(decreases_to!(*n => (*n)->Sub_0));
                    assert((*n)->Sub_0 == *entries);
                    assert(decreases_to!(*entries => entries@));
                    assert(decreases_to!(entries@ => entries@[k as int]));
                    assert(decreases_to!(entries@[k as int] => entries@[k as int].1));
                }
                if entries[k].0 == segs[i] {
                    proof {
                        assert(entries@[k as int].0@ == sv[i as int]);
                        assert(resolve_entries(entries@.skip(k as int), sv, i as int)
                            == resolve_node(entries@[k as int].1, sv, i as int + 1));
                    }
                    return resolve_node_exec(&entries[k].1, segs, i + 1);
                }
                k = k + 1;
            }
            proof {
                assert(entries@.skip(m as int) =~= Seq::<(String, Node)>::empty());
            }
            None
        },
    }
}

impl Router {
    /// Where this registry routes the given segments, starting at the root.
    pub open spec fn resolution(&self, segs: Seq<Seq<char>>) -> Option<(Handler, int)> {
        resolve_node(self.root, segs, 0)
    }

    /// Resolve a request's segments to the handler registered for them, with
    /// the index of the first segment left for the handler itself.
    pub fn resolve(&self, segs: &Vec<String>) -> (r: Option<(Handler, usize)>)
        ensures
            resolution_view(r) == self.resolution(crate::path::seg_views(segs@)),
            r matches Some(p) ==> p.1 <= segs@.len(),
    {
        resolve_node_exec(&self.root, segs, 0)
    }
}

} // verus!
