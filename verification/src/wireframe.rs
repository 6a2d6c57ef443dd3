//! Wireframe extraction: the deduplicated undirected edge list of a
//! triangle list, in first-seen order, for line-topology rendering.

use vstd::prelude::*;
use std::collections::HashMap;
use crate::edge::{spec_edge_key, edge_key, edge_key_set};

verus! {

broadcast use vstd::std_specs::hash::group_hash_axioms;

/// Appends the pair `(a, b)` unless the undirected edge was already seen.
pub open spec fn wire_edge_step(st: (Set<u64>, Seq<u32>), a: u32, b: u32) -> (Set<u64>, Seq<u32>) {
    let key = spec_edge_key(a, b);
    if st.0.contains(key) {
        st
    } else {
        (st.0.insert(key), st.1 + seq![a, b])
    }
}

/// Processes one triangle's edges in the fixed order (i0,i1), (i1,i2), (i0,i2).
pub open spec fn wire_tri_step(st: (Set<u64>, Seq<u32>), i0: u32, i1: u32, i2: u32) -> (
    Set<u64>,
    Seq<u32>,
) {
    wire_edge_step(wire_edge_step(wire_edge_step(st, i0, i1), i1, i2), i0, i2)
}

/// The seen-edge set and emitted pair list after the first `t` triangles.
pub open spec fn wire_pass(inds: Seq<u32>, t: int) -> (Set<u64>, Seq<u32>)
    decreases t,
{
    if t <= 0 {
        (Set::empty(), Seq::empty())
    } else {
        let prev = wire_pass(inds, t - 1);
        wire_tri_step(prev, inds[3 * (t - 1)], inds[3 * (t - 1) + 1], inds[3 * (t - 1) + 2])
    }
}

/// The deduplicated edge list of the whole triangle list.
pub open spec fn spec_wireframe(inds: Seq<u32>) -> Seq<u32> {
    wire_pass(inds, inds.len() as int / 3).1
}

/// The key of the `p`-th emitted pair of a wireframe list.
pub open spec fn wire_pair_key(out: Seq<u32>, p: int) -> u64 {
    spec_edge_key(out[2 * p], out[2 * p + 1])
}

/// The wireframe invariant: pairs come in twos, their keys are pairwise
/// distinct, and they are exactly the keys of the edges seen so far.
pub proof fn lemma_wire_pass_inv(inds: Seq<u32>, t: int)
    requires
        0 <= t,
        3 * t <= inds.len(),
    ensures
        wire_pass(inds, t).1.len() % 2 == 0,
        forall|p: int, q: int| 0 <= p < q < wire_pass(inds, t).1.len() / 2
            ==> wire_pair_key(wire_pass(inds, t).1, p) != wire_pair_key(wire_pass(inds, t).1, q),
        forall|k: u64| #[trigger] wire_pass(inds, t).0.contains(k) <==> exists|p: int|
            0 <= p < wire_pass(inds, t).1.len() / 2 && wire_pair_key(wire_pass(inds, t).1, p) == k,
        wire_pass(inds, t).0 =~= edge_key_set(inds, t),
    decreases t,
{
    if t > 0 {
        lemma_wire_pass_inv(inds, t - 1);
        let prev = wire_pass(inds, t - 1);
        let i0 = inds[3 * (t - 1)];
        let i1 = inds[3 * (t - 1) + 1];
        let i2 = inds[3 * (t - 1) + 2];
        let s1 = wire_edge_step(prev, i0, i1);
        let s2 = wire_edge_step(s1, i1, i2);
        let s3 = wire_edge_step(s2, i0, i2);
        lemma_wire_edge_step_inv(prev, i0, i1);
        lemma_wire_edge_step_inv(s1, i1, i2);
        lemma_wire_edge_step_inv(s2, i0, i2);
        assert(spec_edge_key(i0, i2) == spec_edge_key(i2, i0));
        assert(wire_pass(inds, t).0 =~= edge_key_set(inds, t));
    }
}

/// One edge step keeps the invariant: a fresh pair's key was unseen, and
/// the seen set gains exactly that key.
#[verifier::rlimit(50)]
proof fn lemma_wire_edge_step_inv(st: (Set<u64>, Seq<u32>), a: u32, b: u32)
    requires
        st.1.len() % 2 == 0,
        forall|p: int, q: int| 0 <= p < q < st.1.len() / 2 ==> wire_pair_key(st.1, p)
            != wire_pair_key(st.1, q),
        forall|k: u64| #[trigger] st.0.contains(k) <==> exists|p: int|
            0 <= p < st.1.len() / 2 && wire_pair_key(st.1, p) == k,
    ensures
        wire_edge_step(st, a, b).1.len() % 2 == 0,
        forall|p: int, q: int| 0 <= p < q < wire_edge_step(st, a, b).1.len() / 2
            ==> wire_pair_key(wire_edge_step(st, a, b).1, p) != wire_pair_key(
                wire_edge_step(st, a, b).1,
                q,
            ),
        forall|k: u64| #[trigger] wire_edge_step(st, a, b).0.contains(k) <==> exists|p: int|
            0 <= p < wire_edge_step(st, a, b).1.len() / 2 && wire_pair_key(
                wire_edge_step(st, a, b).1,
                p,
            ) == k,
        wire_edge_step(st, a, b).0 == st.0.insert(spec_edge_key(a, b)),
{
    let key = spec_edge_key(a, b);
    let res = wire_edge_step(st, a, b);
    if st.0.contains(key) {
        assert(st.0.insert(key) =~= st.0);
        assert(res == st);
        assert forall|k: u64| #[trigger] res.0.contains(k) implies exists|p: int|
            0 <= p < res.1.len() / 2 && wire_pair_key(res.1, p) == k by {
            assert(st.0.contains(k));
            let p = choose|p: int| 0 <= p < st.1.len() / 2 && wire_pair_key(st.1, p) == k;
            assert(0 <= p < res.1.len() / 2 && wire_pair_key(res.1, p) == k);
        }
        assert forall|k: u64|
            exists|p: int| 0 <= p < res.1.len() / 2 && wire_pair_key(res.1, p)
                == k implies #[trigger] res.0.contains(k) by {
            let p = choose|p: int| 0 <= p < res.1.len() / 2 && wire_pair_key(res.1, p) == k;
            assert(wire_pair_key(st.1, p) == k);
            assert(st.0.contains(k));
        }
    } else {
        let out2 = st.1 + seq![a, b];
        let np = st.1.len() as int / 2;
        assert(res.1 == out2);
        assert(res.0 == st.0.insert(key));
        assert(out2.len() == st.1.len() + 2);
        assert(out2.len() / 2 == np + 1);
        assert(forall|p: int| 0 <= p < np ==> wire_pair_key(out2, p) == wire_pair_key(st.1, p));
        assert(wire_pair_key(out2, np) == key);
        assert forall|p: int, q: int| 0 <= p < q < out2.len() / 2 implies wire_pair_key(out2, p)
            != wire_pair_key(out2, q) by {
            if q < np {
                assert(wire_pair_key(st.1, p) != wire_pair_key(st.1, q));
            } else {
                assert(q == np);
                assert(wire_pair_key(out2, q) == key);
                if wire_pair_key(out2, p) == key {
                    assert(wire_pair_key(st.1, p) == key);
                    assert(st.0.contains(key));
                    assert(false);
                }
            }
        }
        assert forall|k: u64| #[trigger] res.0.contains(k) implies exists|p: int|
            0 <= p < out2.len() / 2 && wire_pair_key(out2, p) == k by {
            if k == key {
                assert(0 <= np < out2.len() / 2 && wire_pair_key(out2, np) == k);
            } else {
                assert(st.0.contains(k));
                let p = choose|p: int| 0 <= p < st.1.len() / 2 && wire_pair_key(st.1, p) == k;
                assert(0 <= p < out2.len() / 2 && wire_pair_key(out2, p) == k);
            }
        }
        assert forall|k: u64|
            exists|p: int| 0 <= p < out2.len() / 2 && wire_pair_key(out2, p)
                == k implies #[trigger] res.0.contains(k) by {
            let p = choose|p: int| 0 <= p < out2.len() / 2 && wire_pair_key(out2, p) == k;
            if p < np {
                assert(wire_pair_key(st.1, p) == k);
                assert(st.0.contains(k));
            } else {
                assert(p == np);
                assert(k == key);
            }
        }
        assert forall|k: u64| #[trigger] res.0.contains(k) <==> exists|p: int|
            0 <= p < res.1.len() / 2 && wire_pair_key(res.1, p) == k by {
        }
    }
}

/// The deduplicated list of undirected edges used by the triangle list, in
/// first-seen order, as index pairs: each shared edge appears exactly once.
pub fn wireframe_indices(indices: &Vec<u32>) -> (ret: Vec<u32>)
    ensures
        ret@ == spec_wireframe(indices@),
{
    let ghost t_total = indices@.len() as int / 3;
    let mut seen: HashMap<u64, u32> = HashMap::new();
    let mut ret: Vec<u32> = Vec::new();

    let n_tris: usize = indices.len() / 3;
    let mut t: usize = 0;
    while t < n_tris
        invariant
            t <= n_tris,
            n_tris == t_total,
            3 * t_total <= indices@.len(),
            indices@.len() <= usize::MAX as int,
            seen@.dom() =~= wire_pass(indices@, t as int).0,
            ret@ == wire_pass(indices@, t as int).1,
        decreases n_tris - t,
    {
        proof {
            assert(3 * (t as int) + 2 < indices@.len());
        }
        let i0 = indices[3 * t];
        let i1 = indices[3 * t + 1];
        let i2 = indices[3 * t + 2];

        let k01 = edge_key(i0, i1);
        if !seen.contains_key(&k01) {
            seen.insert(k01, 0);
            ret.push(i0);
            ret.push(i1);
        }
        let ghost s1 = wire_edge_step(wire_pass(indices@, t as int), i0, i1);
        proof {
            assert(seen@.dom() =~= s1.0);
            assert(ret@ =~= s1.1);
        }
        let k12 = edge_key(i1, i2);
        if !seen.contains_key(&k12) {
            seen.insert(k12, 0);
            ret.push(i1);
            ret.push(i2);
        }
        let ghost s2 = wire_edge_step(s1, i1, i2);
        proof {
            assert(seen@.dom() =~= s2.0);
            assert(ret@ =~= s2.1);
        }
        let k02 = edge_key(i0, i2);
        if !seen.contains_key(&k02) {
            seen.insert(k02, 0);
            ret.push(i0);
            ret.push(i2);
        }
        proof {
            let s3 = wire_edge_step(s2, i0, i2);
            assert(seen@.dom() =~= s3.0);
            assert(ret@ =~= s3.1);
        }
        t = t + 1;
    }
    ret
}

/// The wireframe lists each undirected edge of the triangle list exactly
/// once, however many triangles reference it: its pair keys are pairwise
/// distinct, and they are exactly the edge keys the triangles use.
pub proof fn lemma_wireframe_edges_unique(inds: Seq<u32>)
    ensures
        spec_wireframe(inds).len() % 2 == 0,
        forall|p: int, q: int| 0 <= p < q < spec_wireframe(inds).len() / 2
            ==> wire_pair_key(spec_wireframe(inds), p) != wire_pair_key(spec_wireframe(inds), q),
        forall|k: u64| (exists|p: int|
            0 <= p < spec_wireframe(inds).len() / 2 && wire_pair_key(spec_wireframe(inds), p)
                == k) <==> #[trigger] edge_key_set(inds, inds.len() as int / 3).contains(k),
{
    let t = inds.len() as int / 3;
    lemma_wire_pass_inv(inds, t);
    assert forall|k: u64|
        (exists|p: int|
            0 <= p < spec_wireframe(inds).len() / 2 && wire_pair_key(spec_wireframe(inds), p)
                == k) <==> #[trigger] edge_key_set(inds, t).contains(k) by {
        assert(wire_pass(inds, t).0 =~= edge_key_set(inds, t));
        assert(spec_wireframe(inds) == wire_pass(inds, t).1);
        assert(wire_pass(inds, t).0.contains(k) <==> exists|p: int|
            0 <= p < wire_pass(inds, t).1.len() / 2 && wire_pair_key(wire_pass(inds, t).1, p)
                == k);
    }
}

} // verus!
