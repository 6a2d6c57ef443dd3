//! Canonical keys for undirected mesh edges, and mesh connectivity.
//!
//! An undirected edge between two vertex indices is identified by one
//! `u64` key, the canonical (min, max) packing of the pair; two edges get
//! the same key exactly when they join the same two vertices.  The
//! subdivision and wireframe passes both deduplicate by these keys.

use vstd::prelude::*;

verus! {

/// Every index points at a vertex of the buffer.
pub open spec fn valid_mesh(n_verts: int, inds: Seq<u32>) -> bool {
    forall|j: int| 0 <= j < inds.len() ==> (#[trigger] inds[j]) < n_verts
}

/// Canonical key for the undirected edge between vertex indices `a` and `b`:
/// the smaller index in the upper 32 bits, the larger in the lower 32 bits.
pub open spec fn spec_edge_key(a: u32, b: u32) -> u64 {
    if a <= b {
        ((a as u64) << 32u64) | (b as u64)
    } else {
        ((b as u64) << 32u64) | (a as u64)
    }
}

/// Packs the unordered pair `{a, b}` of vertex indices into one `u64`, so
/// that two edges get the same key exactly when they join the same vertices.
pub fn edge_key(a: u32, b: u32) -> (r: u64)
    ensures
        r == spec_edge_key(a, b),
{
    let lo: u32 = if a <= b { a } else { b };
    let hi: u32 = if a <= b { b } else { a };
    ((lo as u64) << 32u64) | (hi as u64)
}

proof fn lemma_pack_injective(lo1: u32, hi1: u32, lo2: u32, hi2: u32)
    requires
        ((lo1 as u64) << 32u64) | (hi1 as u64) == ((lo2 as u64) << 32u64) | (hi2 as u64),
    ensures
        lo1 == lo2 && hi1 == hi2,
{
    assert(((((lo1 as u64) << 32u64) | (hi1 as u64)) == (((lo2 as u64) << 32u64) | (hi2
        as u64))) ==> (lo1 == lo2 && hi1 == hi2)) by (bit_vector);
}

/// Two edges share a key exactly when they join the same two vertices.
pub proof fn lemma_edge_key_injective(a: u32, b: u32, c: u32, d: u32)
    requires
        spec_edge_key(a, b) == spec_edge_key(c, d),
    ensures
        (a == c && b == d) || (a == d && b == c),
{
    if a <= b {
        if c <= d {
            lemma_pack_injective(a, b, c, d);
        } else {
            lemma_pack_injective(a, b, d, c);
        }
    } else {
        if c <= d {
            lemma_pack_injective(b, a, c, d);
        } else {
            lemma_pack_injective(b, a, d, c);
        }
    }
}

/// The edge keys of the first `t` triangles of `inds`.
pub open spec fn edge_key_set(inds: Seq<u32>, t: int) -> Set<u64>
    decreases t,
{
    if t <= 0 {
        Set::empty()
    } else {
        edge_key_set(inds, t - 1).insert(spec_edge_key(inds[3 * (t - 1)], inds[3 * (t - 1) + 1]))
            .insert(spec_edge_key(inds[3 * (t - 1) + 1], inds[3 * (t - 1) + 2]))
            .insert(spec_edge_key(inds[3 * (t - 1) + 2], inds[3 * (t - 1)]))
    }
}

/// A seen-edge set is finite.
pub proof fn lemma_edge_key_set_finite(inds: Seq<u32>, t: int)
    ensures
        edge_key_set(inds, t).finite(),
    decreases t,
{
    if t > 0 {
        lemma_edge_key_set_finite(inds, t - 1);
    }
}

/// A triangle contributes at most three edge keys, so the seen-edge set
/// grows by at most three per triangle.
pub proof fn lemma_edge_key_set_len_bound(inds: Seq<u32>, t: int)
    requires
        0 <= t,
    ensures
        edge_key_set(inds, t).len() <= 3 * t,
    decreases t,
{
    if t > 0 {
        lemma_edge_key_set_len_bound(inds, t - 1);
        lemma_edge_key_set_finite(inds, t - 1);
    }
}

/// Seen-edge sets only grow as more triangles are processed.
pub proof fn lemma_edge_key_set_mono(inds: Seq<u32>, t1: int, t2: int)
    requires
        0 <= t1 <= t2,
    ensures
        edge_key_set(inds, t1).subset_of(edge_key_set(inds, t2)),
        edge_key_set(inds, t1).len() <= edge_key_set(inds, t2).len(),
    decreases t2 - t1,
{
    lemma_edge_key_set_finite(inds, t1);
    lemma_edge_key_set_finite(inds, t2);
    if t1 < t2 {
        lemma_edge_key_set_mono(inds, t1, t2 - 1);
    }
    vstd::set_lib::lemma_len_subset(edge_key_set(inds, t1), edge_key_set(inds, t2));
}

/// Edges joining different vertex pairs get different keys.
pub proof fn lemma_edge_keys_distinct(a: u32, b: u32, c: u32, d: u32)
    requires
        !(a == c && b == d),
        !(a == d && b == c),
    ensures
        spec_edge_key(a, b) != spec_edge_key(c, d),
{
    if spec_edge_key(a, b) == spec_edge_key(c, d) {
        lemma_edge_key_injective(a, b, c, d);
    }
}

} // verus!
