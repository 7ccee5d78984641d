//! Parent links between layers: following the links from any layer must end
//! at a layer without a parent.

use crate::document::DocumentError;
use std::collections::{HashMap, HashSet};
use vstd::prelude::*;

verus! {

broadcast use vstd::std_specs::hash::group_hash_axioms;

/// The layer reached from `x` after `k` steps up the parent links; a layer
/// without a parent stays where it is.
pub open spec fn ancestor(m: Map<u64, u64>, x: u64, k: nat) -> u64
    decreases k,
{
    if k == 0 {
        x
    } else {
        let y = ancestor(m, x, (k - 1) as nat);
        if m.contains_key(y) {
            m[y]
        } else {
            y
        }
    }
}

/// `x` has a parent and comes back to itself after following one or more
/// parent links.
pub open spec fn on_parent_cycle(m: Map<u64, u64>, x: u64) -> bool {
    m.contains_key(x) && exists|k: nat| k >= 1 && #[trigger] ancestor(m, x, k) == x
}

/// Following the parent links from `x` reaches a layer without a parent.
pub open spec fn escapes(m: Map<u64, u64>, x: u64) -> bool {
    exists|j: nat| !m.contains_key(#[trigger] ancestor(m, x, j))
}

/// Some layer lies on a cycle of parent links.
pub open spec fn has_parent_cycle(m: Map<u64, u64>) -> bool {
    exists|x: u64| #[trigger] on_parent_cycle(m, x)
}

/// Following `a` links and then `b` more is following `a + b` links.
pub proof fn lemma_ancestor_adds(m: Map<u64, u64>, x: u64, a: nat, b: nat)
    ensures
        ancestor(m, ancestor(m, x, a), b) == ancestor(m, x, a + b),
    decreases b,
{
    if b > 0 {
        lemma_ancestor_adds(m, x, a, (b - 1) as nat);
    }
}

/// A layer without a parent is where every longer walk ends.
pub proof fn lemma_ancestor_stays_outside(m: Map<u64, u64>, x: u64, a: nat, b: nat)
    requires
        a <= b,
        !m.contains_key(ancestor(m, x, a)),
    ensures
        ancestor(m, x, b) == ancestor(m, x, a),
    decreases b,
{
    if b > a {
        lemma_ancestor_stays_outside(m, x, a, (b - 1) as nat);
    }
}

/// A walk from a layer on a cycle never reaches a layer without a parent.
pub proof fn lemma_cycle_stays_inside(m: Map<u64, u64>, x: u64, k: nat, t: nat)
    requires
        m.contains_key(x),
        k >= 1,
        ancestor(m, x, k) == x,
    ensures
        m.contains_key(ancestor(m, x, t)),
    decreases t,
{
    if t >= k {
        lemma_ancestor_adds(m, x, k, (t - k) as nat);
        lemma_cycle_stays_inside(m, x, k, (t - k) as nat);
    } else if !m.contains_key(ancestor(m, x, t)) {
        lemma_ancestor_stays_outside(m, x, t, k);
    }
}

/// When every walk from a layer with a parent ends at a layer without one,
/// no layer lies on a cycle.
pub proof fn lemma_all_escape_no_cycle(m: Map<u64, u64>)
    requires
        forall|x: u64| m.contains_key(x) ==> #[trigger] escapes(m, x),
    ensures
        !has_parent_cycle(m),
{
    if has_parent_cycle(m) {
        let x = choose|x: u64| #[trigger] on_parent_cycle(m, x);
        let k = choose|k: nat| k >= 1 && #[trigger] ancestor(m, x, k) == x;
        assert(escapes(m, x));
        let j = choose|j: nat| !m.contains_key(#[trigger] ancestor(m, x, j));
        lemma_cycle_stays_inside(m, x, k, j);
    }
}

/// Checks that no layer is its own ancestor. The layers are tried in the
/// map's order, so which layer of a cycle is reported depends on that order;
/// the reported layer always lies on a cycle.
pub fn detect_parent_cycles(parents: &HashMap<u64, u64>) -> (r: Result<(), DocumentError>)
    ensures
        r is Ok <==> !has_parent_cycle(parents@),
        r matches Err(e) ==> e matches DocumentError::ParentCycle { layer_id } && on_parent_cycle(
            parents@,
            layer_id,
        ),
{
    let ghost m = parents@;
    for start in iter: parents.keys()
        invariant
            m == parents@,
            iter.seq().unref().to_set() == m.dom(),
            forall|i: int|
                #![trigger iter.seq()[i]]
                0 <= i < iter.index() ==> escapes(m, *iter.seq()[i]),
        ensures
            forall|x: u64| m.contains_key(x) ==> #[trigger] escapes(m, x),
    {
        let mut path: HashSet<u64> = HashSet::new();
        let mut cur: u64 = *start;
        let ghost mut steps: nat = 0;
        loop
            invariant_except_break
                path@.len() == steps,
                path@.finite(),
                forall|v: u64| #[trigger] path@.contains(v) ==> m.contains_key(v),
                forall|v: u64|
                    #[trigger] path@.contains(v) ==> exists|i: nat|
                        i < steps && #[trigger] ancestor(m, *start, i) == v,
                forall|i: nat| i < steps ==> path@.contains(#[trigger] ancestor(m, *start, i)),
            invariant
                m == parents@,
                cur == ancestor(m, *start, steps),
            ensures
                !m.contains_key(ancestor(m, *start, steps)),
                cur == ancestor(m, *start, steps),
            decreases m.dom().len() - steps,
        {
            if !path.insert(cur) {
                proof {
                    let i = choose|i: nat| i < steps && #[trigger] ancestor(m, *start, i) == cur;
                    lemma_ancestor_adds(m, *start, i, (steps - i) as nat);
                    assert(ancestor(m, cur, (steps - i) as nat) == cur);
                    assert(on_parent_cycle(m, cur));
                }
                return Err(DocumentError::ParentCycle { layer_id: cur });
            }
            match parents.get(&cur) {
                Some(p) => {
                    if *p == cur {
                        proof {
                            assert(ancestor(m, cur, 1) == cur) by {
                                assert(ancestor(m, cur, 0) == cur);
                            }
                            assert(on_parent_cycle(m, cur));
                        }
                        return Err(DocumentError::ParentCycle { layer_id: cur });
                    }
                    proof {
                        vstd::set_lib::lemma_len_subset(path@, m.dom());
                    }
                    cur = *p;
                    proof {
                        steps = steps + 1;
                    }
                },
                None => {
                    break;
                },
            }
        }
        proof {
            assert(escapes(m, *start));
        }
    }
    proof {
        lemma_all_escape_no_cycle(m);
    }
    Ok(())
}

} // verus!
