//! Topological refinement: subdivision and fractal terrain.
//!
//! One pass splits every triangle (a, b, c) into four by inserting a
//! midpoint vertex on each of its three edges, deduplicated through a
//! per-pass edge-midpoint map so that each shared edge produces exactly one
//! midpoint.  Fractal refinement performs the identical topological step
//! and additionally shifts each fresh midpoint's height by a draw of the
//! shared random stream.

use vstd::prelude::*;
use std::collections::HashMap;
use crate::edge::{spec_edge_key, edge_key, edge_key_set, valid_mesh, lemma_edge_key_set_mono, lemma_edge_keys_distinct};
use crate::rng::{RandomSource, stream_at};
use crate::scalar::{
    add_bits, sub_bits, mul_bits, div_bits, from_u32_bits, norm_bits, f_add, f_sub, f_mul,
    f_div, f_from_u32, BITS_HALF,
};
use crate::vertex::{Quad, Vertex, spec_mid, norm_vertex, norm_verts};

verus! {

broadcast use vstd::std_specs::hash::group_hash_axioms;

// ---------------------------------------------------------------------------
// Topological refinement: one subdivision pass splits every triangle
// (a, b, c) into four, inserting one midpoint vertex per distinct edge.  The
// shape layer below tracks only what the topology depends on — the
// edge-midpoint map, the vertex count and the index list — so that the
// emitted indices are manifestly independent of vertex values and of the
// random stream.
// ---------------------------------------------------------------------------

/// The topology-only state of one refinement pass.
pub struct ShapeState {
    /// Edge key of every midpoint created so far, mapped to its index.
    pub mids: Map<u64, u32>,
    /// The vertex count so far (input vertices plus created midpoints).
    pub n: int,
    /// The indices emitted so far.
    pub inds: Seq<u32>,
    /// How many midpoints have been created so far.
    pub news: int,
}

/// Looks up or creates the midpoint of the edge `{e0, e1}`.
pub open spec fn shape_edge_step(st: ShapeState, e0: u32, e1: u32) -> (ShapeState, u32) {
    let key = spec_edge_key(e0, e1);
    if st.mids.contains_key(key) {
        (st, st.mids[key])
    } else {
        let idx = st.n as u32;
        (ShapeState { mids: st.mids.insert(key, idx), n: st.n + 1, inds: st.inds, news: st.news + 1 }, idx)
    }
}

/// Splits the triangle `(a, b, c)` into its four output triangles, creating
/// the midpoints its edges still lack.
pub open spec fn shape_tri_step(st: ShapeState, a: u32, b: u32, c: u32) -> ShapeState {
    let r1 = shape_edge_step(st, a, b);
    let r2 = shape_edge_step(r1.0, b, c);
    let r3 = shape_edge_step(r2.0, c, a);
    let m_ab = r1.1;
    let m_bc = r2.1;
    let m_ca = r3.1;
    ShapeState {
        mids: r3.0.mids,
        n: r3.0.n,
        inds: r3.0.inds + seq![a, m_ab, m_ca, m_ab, b, m_bc, m_ca, m_ab, m_bc, m_ca, m_bc, c],
        news: r3.0.news,
    }
}

/// The topology after refining the first `t` triangles of `inds`, starting
/// from `n0` vertices and an empty edge map.
pub open spec fn shape_pass(n0: int, inds: Seq<u32>, t: int) -> ShapeState
    decreases t,
{
    if t <= 0 {
        ShapeState { mids: Map::empty(), n: n0, inds: Seq::empty(), news: 0 }
    } else {
        let prev = shape_pass(n0, inds, t - 1);
        shape_tri_step(prev, inds[3 * (t - 1)], inds[3 * (t - 1) + 1], inds[3 * (t - 1) + 2])
    }
}

/// Vertex count, index list and total midpoint count after `iters` whole
/// refinement passes.
pub open spec fn shape_refine(n0: int, inds: Seq<u32>, iters: int) -> (int, Seq<u32>, int)
    decreases iters,
{
    if iters <= 0 {
        (n0, inds, 0)
    } else {
        let prev = shape_refine(n0, inds, iters - 1);
        let st = shape_pass(prev.0, prev.1, prev.1.len() as int / 3);
        (st.n, st.inds, prev.2 + st.news)
    }
}

/// The shape invariant: the edge map lists exactly the edges seen so far,
/// one midpoint each; midpoints are numbered from `n0` on; emitted indices
/// point below the current vertex count.
pub proof fn lemma_shape_pass_inv(n0: int, inds: Seq<u32>, t: int)
    requires
        0 <= t,
        3 * t <= inds.len(),
        valid_mesh(n0, inds),
        0 <= n0,
        n0 + edge_key_set(inds, t).len() <= u32::MAX as int,
    ensures
        shape_pass(n0, inds, t).mids.dom() =~= edge_key_set(inds, t),
        shape_pass(n0, inds, t).mids.dom().finite(),
        shape_pass(n0, inds, t).news == edge_key_set(inds, t).len(),
        shape_pass(n0, inds, t).n == n0 + shape_pass(n0, inds, t).news,
        forall|k: u64| #[trigger] shape_pass(n0, inds, t).mids.dom().contains(k)
            ==> n0 <= shape_pass(n0, inds, t).mids[k] < shape_pass(n0, inds, t).n,
        shape_pass(n0, inds, t).inds.len() == 12 * t,
        forall|j: int| 0 <= j < 12 * t
            ==> (#[trigger] shape_pass(n0, inds, t).inds[j]) < shape_pass(n0, inds, t).n,
        shape_pass(n0, inds, t).n <= n0 + 3 * t,
    decreases t,
{
    if t > 0 {
        lemma_edge_key_set_mono(inds, t - 1, t);
        lemma_shape_pass_inv(n0, inds, t - 1);
        let prev = shape_pass(n0, inds, t - 1);
        let a = inds[3 * (t - 1)];
        let b = inds[3 * (t - 1) + 1];
        let c = inds[3 * (t - 1) + 2];
        let r1 = shape_edge_step(prev, a, b);
        let r2 = shape_edge_step(r1.0, b, c);
        let r3 = shape_edge_step(r2.0, c, a);
        assert(r1.0.mids.dom() =~= prev.mids.dom().insert(spec_edge_key(a, b)));
        assert(r2.0.mids.dom() =~= r1.0.mids.dom().insert(spec_edge_key(b, c)));
        assert(r3.0.mids.dom() =~= r2.0.mids.dom().insert(spec_edge_key(c, a)));
        assert(shape_pass(n0, inds, t).inds =~= prev.inds + seq![
            a,
            r1.1,
            r3.1,
            r1.1,
            b,
            r2.1,
            r3.1,
            r1.1,
            r2.1,
            r3.1,
            r2.1,
            c,
        ]);
    }
}

/// The full state of one refinement pass: the shape state plus the vertex
/// values and the position in the random stream.
#[verifier::ext_equal]
pub struct RefState {
    /// Edge key of every midpoint created so far, mapped to its index.
    pub mids: Map<u64, u32>,
    /// The vertex buffer: the pass's input vertices plus created midpoints.
    pub verts: Seq<Vertex>,
    /// The indices emitted so far.
    pub inds: Seq<u32>,
    /// The index of the next unconsumed draw of the random stream.
    pub k: int,
}

/// The vertical displacement added to a fresh fractal midpoint:
/// `(draw/2^32-1 - 0.5) * amount`, with the draw mapped into [0, 1].
pub open spec fn spec_fractal_shift(draw: u32, amount: u32) -> u32 {
    mul_bits(sub_bits(div_bits(from_u32_bits(draw), from_u32_bits(0xFFFF_FFFFu32)), BITS_HALF), amount)
}

/// Looks up or creates the midpoint vertex of the edge `{e0, e1}`.  With
/// `displace` set, a fresh midpoint's height is shifted by one draw of the
/// stream, scaled by the given amount.
pub open spec fn ref_edge_step(st: RefState, e0: u32, e1: u32, displace: Option<u32>, seed: u64) -> (RefState, u32) {
    let key = spec_edge_key(e0, e1);
    if st.mids.contains_key(key) {
        (st, st.mids[key])
    } else {
        let idx = st.verts.len() as u32;
        let base = Vertex {
            pos: spec_mid(st.verts[e0 as int].pos, st.verts[e1 as int].pos),
            normal: st.verts[e0 as int].normal,
        };
        match displace {
            Option::None => (
                RefState {
                    mids: st.mids.insert(key, idx),
                    verts: st.verts.push(base),
                    inds: st.inds,
                    k: st.k,
                },
                idx,
            ),
            Option::Some(amount) => {
                let shifted = Vertex {
                    pos: Quad {
                        x: base.pos.x,
                        y: add_bits(base.pos.y, spec_fractal_shift(stream_at(seed, st.k), amount)),
                        z: base.pos.z,
                        w: base.pos.w,
                    },
                    normal: base.normal,
                };
                (
                    RefState {
                        mids: st.mids.insert(key, idx),
                        verts: st.verts.push(shifted),
                        inds: st.inds,
                        k: st.k + 1,
                    },
                    idx,
                )
            },
        }
    }
}

/// Splits the triangle `(a, b, c)` into its four output triangles.
pub open spec fn ref_tri_step(st: RefState, a: u32, b: u32, c: u32, displace: Option<u32>, seed: u64) -> RefState {
    let r1 = ref_edge_step(st, a, b, displace, seed);
    let r2 = ref_edge_step(r1.0, b, c, displace, seed);
    let r3 = ref_edge_step(r2.0, c, a, displace, seed);
    let m_ab = r1.1;
    let m_bc = r2.1;
    let m_ca = r3.1;
    RefState {
        mids: r3.0.mids,
        verts: r3.0.verts,
        inds: r3.0.inds + seq![a, m_ab, m_ca, m_ab, b, m_bc, m_ca, m_ab, m_bc, m_ca, m_bc, c],
        k: r3.0.k,
    }
}

/// The state after refining the first `t` triangles of `inds`, starting
/// from the vertex buffer `verts`, an empty edge map, and draw index `k0`.
pub open spec fn ref_pass(verts: Seq<Vertex>, inds: Seq<u32>, t: int, displace: Option<u32>, seed: u64, k0: int) -> RefState
    decreases t,
{
    if t <= 0 {
        RefState { mids: Map::empty(), verts: verts, inds: Seq::empty(), k: k0 }
    } else {
        let prev = ref_pass(verts, inds, t - 1, displace, seed, k0);
        ref_tri_step(prev, inds[3 * (t - 1)], inds[3 * (t - 1) + 1], inds[3 * (t - 1) + 2], displace, seed)
    }
}

/// A refinement pass follows its shape exactly: same edge map, same index
/// list, same vertex count; the stream advances once per created midpoint
/// when displacing and not at all otherwise.
pub proof fn lemma_ref_pass_shape(verts: Seq<Vertex>, inds: Seq<u32>, t: int, displace: Option<u32>, seed: u64, k0: int)
    requires
        0 <= t,
    ensures
        ref_pass(verts, inds, t, displace, seed, k0).mids == shape_pass(verts.len() as int, inds, t).mids,
        ref_pass(verts, inds, t, displace, seed, k0).verts.len() == shape_pass(verts.len() as int, inds, t).n,
        ref_pass(verts, inds, t, displace, seed, k0).inds == shape_pass(verts.len() as int, inds, t).inds,
        ref_pass(verts, inds, t, displace, seed, k0).k == k0 + (if displace is Some {
            shape_pass(verts.len() as int, inds, t).news
        } else {
            0
        }),
        verts.len() <= ref_pass(verts, inds, t, displace, seed, k0).verts.len(),
        forall|i: int| 0 <= i < verts.len()
            ==> #[trigger] ref_pass(verts, inds, t, displace, seed, k0).verts[i] == verts[i],
    decreases t,
{
    if t > 0 {
        lemma_ref_pass_shape(verts, inds, t - 1, displace, seed, k0);
    }
}

/// The canonical form of an optional displacement amount.
pub open spec fn norm_displace(d: Option<u32>) -> Option<u32> {
    match d {
        Option::None => Option::None,
        Option::Some(a) => Option::Some(norm_bits(a)),
    }
}

/// Looks up the midpoint of the edge `{e0, e1}` in the pass's edge map,
/// creating and registering it if the edge has none yet.
fn refine_edge(
    verts_out: &mut Vec<Vertex>,
    mids: &mut HashMap<u64, u32>,
    e0: u32,
    e1: u32,
    displace: Option<u32>,
    random: &mut RandomSource,
    Ghost(st): Ghost<RefState>,
) -> (m: u32)
    requires
        old(mids)@ == st.mids,
        norm_verts(old(verts_out)@) == st.verts,
        old(verts_out)@.len() == st.verts.len(),
        old(random).drawn() == st.k,
        e0 < st.verts.len(),
        e1 < st.verts.len(),
        st.verts.len() <= u32::MAX as int,
    ensures
        ({
            let r = ref_edge_step(st, e0, e1, norm_displace(displace), old(random).seed());
            &&& final(mids)@ == r.0.mids
            &&& norm_verts(final(verts_out)@) == r.0.verts
            &&& final(verts_out)@.len() == r.0.verts.len()
            &&& final(random).drawn() == r.0.k
            &&& final(random).seed() == old(random).seed()
            &&& m == r.1
        }),
{
    let key = edge_key(e0, e1);
    match mids.get(&key) {
        Option::Some(found) => *found,
        Option::None => {
            let idx: u32 = verts_out.len() as u32;
            let va = verts_out[e0 as usize];
            let vb = verts_out[e1 as usize];
            let mut mid = Vertex::mid_ignore_normals(va, vb);
            match displace {
                Option::Some(amount) => {
                    let draw = random.next_u32();
                    let shift = f_mul(
                        f_sub(f_div(f_from_u32(draw), f_from_u32(0xFFFF_FFFFu32)), BITS_HALF),
                        amount,
                    );
                    mid.pos.y = f_add(mid.pos.y, shift);
                },
                Option::None => {},
            }
            verts_out.push(mid);
            mids.insert(key, idx);
            proof {
                let r = ref_edge_step(st, e0, e1, norm_displace(displace), random.seed());
                assert(norm_verts(verts_out@) =~= r.0.verts);
            }
            idx
        },
    }
}

/// One refinement pass: splits every whole triangle of `inds_in` into four,
/// appending one midpoint vertex per distinct edge to `verts_out`.
fn refine_pass(
    verts_out: &mut Vec<Vertex>,
    inds_in: &Vec<u32>,
    displace: Option<u32>,
    random: &mut RandomSource,
) -> (inds_out: Vec<u32>)
    requires
        valid_mesh(old(verts_out)@.len() as int, inds_in@),
        old(verts_out)@.len() as int + edge_key_set(inds_in@, inds_in@.len() as int / 3).len()
            <= u32::MAX as int,
    ensures
        ({
            let st = ref_pass(
                norm_verts(old(verts_out)@),
                inds_in@,
                inds_in@.len() as int / 3,
                norm_displace(displace),
                old(random).seed(),
                old(random).drawn(),
            );
            &&& norm_verts(final(verts_out)@) == st.verts
            &&& final(verts_out)@.len() == st.verts.len()
            &&& inds_out@ == st.inds
            &&& final(random).drawn() == st.k
            &&& final(random).seed() == old(random).seed()
        }),
{
    let ghost verts0 = norm_verts(verts_out@);
    let ghost n0 = verts_out@.len() as int;
    let ghost t_total = inds_in@.len() as int / 3;
    let ghost seed = random.seed();
    let ghost k0 = random.drawn();

    let mut mids: HashMap<u64, u32> = HashMap::new();
    let mut inds_out: Vec<u32> = Vec::new();
    let n_tris: usize = inds_in.len() / 3;

    let mut i: usize = 0;
    while i < n_tris
        invariant
            i <= n_tris,
            n_tris == t_total,
            3 * t_total <= inds_in@.len(),
            inds_in@.len() <= usize::MAX as int,
            valid_mesh(n0, inds_in@),
            n0 == verts0.len(),
            n0 + edge_key_set(inds_in@, t_total).len() <= u32::MAX as int,
            mids@ == ref_pass(verts0, inds_in@, i as int, norm_displace(displace), seed, k0).mids,
            norm_verts(verts_out@) == ref_pass(
                verts0,
                inds_in@,
                i as int,
                norm_displace(displace),
                seed,
                k0,
            ).verts,
            verts_out@.len() == ref_pass(
                verts0,
                inds_in@,
                i as int,
                norm_displace(displace),
                seed,
                k0,
            ).verts.len(),
            inds_out@ == ref_pass(verts0, inds_in@, i as int, norm_displace(displace), seed, k0).inds,
            random.drawn() == ref_pass(verts0, inds_in@, i as int, norm_displace(displace), seed, k0).k,
            random.seed() == seed,
        decreases n_tris - i,
    {
        proof {
            lemma_edge_key_set_mono(inds_in@, i as int, t_total);
            lemma_edge_key_set_mono(inds_in@, i as int + 1, t_total);
            lemma_shape_pass_inv(n0, inds_in@, i as int);
            lemma_shape_pass_inv(n0, inds_in@, i as int + 1);
            lemma_ref_pass_shape(verts0, inds_in@, i as int, norm_displace(displace), seed, k0);
            lemma_ref_pass_shape(verts0, inds_in@, i as int + 1, norm_displace(displace), seed, k0);
            assert(3 * (i as int) + 2 < inds_in@.len());
        }
        let a = inds_in[3 * i];
        let b = inds_in[3 * i + 1];
        let c = inds_in[3 * i + 2];

        let ghost st0 = ref_pass(verts0, inds_in@, i as int, norm_displace(displace), seed, k0);
        let ghost st1 = ref_edge_step(st0, a, b, norm_displace(displace), seed).0;
        let ghost st2 = ref_edge_step(st1, b, c, norm_displace(displace), seed).0;
        proof {
            let next = ref_pass(verts0, inds_in@, i as int + 1, norm_displace(displace), seed, k0);
            assert(next == ref_tri_step(st0, a, b, c, norm_displace(displace), seed));
            assert(st1.verts.len() <= next.verts.len());
            assert(st2.verts.len() <= next.verts.len());
        }

        let m_ab = refine_edge(verts_out, &mut mids, a, b, displace, random, Ghost(st0));
        let m_bc = refine_edge(verts_out, &mut mids, b, c, displace, random, Ghost(st1));
        let m_ca = refine_edge(verts_out, &mut mids, c, a, displace, random, Ghost(st2));

        inds_out.push(a);
        inds_out.push(m_ab);
        inds_out.push(m_ca);
        inds_out.push(m_ab);
        inds_out.push(b);
        inds_out.push(m_bc);
        inds_out.push(m_ca);
        inds_out.push(m_ab);
        inds_out.push(m_bc);
        inds_out.push(m_ca);
        inds_out.push(m_bc);
        inds_out.push(c);

        proof {
            let next = ref_pass(verts0, inds_in@, i as int + 1, norm_displace(displace), seed, k0);
            assert(next == ref_tri_step(st0, a, b, c, norm_displace(displace), seed));
            assert(inds_out@ =~= next.inds);
        }
        i = i + 1;
    }
    inds_out
}

/// The fractal displacement factor at iteration `i`: the starting amount,
/// divided by the decay once per completed iteration.
pub open spec fn frac_disp(disp: u32, decay: u32, i: int) -> u32
    decreases i,
{
    if i <= 0 {
        disp
    } else {
        div_bits(frac_disp(disp, decay, i - 1), decay)
    }
}

/// The buffer after `iters` plain subdivision passes.  Subdivision draws
/// nothing from the random stream, so the pass is instantiated with an
/// arbitrary stream position.
pub open spec fn spec_subdivide(verts: Seq<Vertex>, inds: Seq<u32>, iters: int) -> (
    Seq<Vertex>,
    Seq<u32>,
)
    decreases iters,
{
    if iters <= 0 {
        (verts, inds)
    } else {
        let prev = spec_subdivide(verts, inds, iters - 1);
        let st = ref_pass(prev.0, prev.1, prev.1.len() as int / 3, Option::None, 0u64, 0);
        (st.verts, st.inds)
    }
}

/// The buffer and final stream position after `iters` fractal refinement
/// passes seeded at stream position `k0`.
pub open spec fn spec_fractal(
    verts: Seq<Vertex>,
    inds: Seq<u32>,
    iters: int,
    disp: u32,
    decay: u32,
    seed: u64,
    k0: int,
) -> (Seq<Vertex>, Seq<u32>, int)
    decreases iters,
{
    if iters <= 0 {
        (verts, inds, k0)
    } else {
        let prev = spec_fractal(verts, inds, iters - 1, disp, decay, seed, k0);
        let st = ref_pass(
            prev.0,
            prev.1,
            prev.1.len() as int / 3,
            Option::Some(frac_disp(disp, decay, iters - 1)),
            seed,
            prev.2,
        );
        (st.verts, st.inds, st.k)
    }
}

/// Every intermediate vertex count of `iters` refinement passes stays
/// representable as a 32-bit index.
pub open spec fn subdivide_fits(n0: int, inds: Seq<u32>, iters: int) -> bool
    decreases iters,
{
    iters <= 0 || {
        &&& subdivide_fits(n0, inds, iters - 1)
        &&& shape_refine(n0, inds, iters).0 <= u32::MAX as int
    }
}

/// A fit prefix of passes also fits.
pub proof fn lemma_subdivide_fits_mono(n0: int, inds: Seq<u32>, it: int, iters: int)
    requires
        0 <= it <= iters,
        subdivide_fits(n0, inds, iters),
    ensures
        subdivide_fits(n0, inds, it),
    decreases iters - it,
{
    if it < iters {
        lemma_subdivide_fits_mono(n0, inds, it, iters - 1);
    }
}

/// The counting part of the shape invariant, free of any index bound: the
/// edge map lists exactly the edges seen, one fresh midpoint each.
pub proof fn lemma_shape_pass_count(n0: int, inds: Seq<u32>, t: int)
    requires
        0 <= t,
        3 * t <= inds.len(),
    ensures
        shape_pass(n0, inds, t).mids.dom() =~= edge_key_set(inds, t),
        shape_pass(n0, inds, t).mids.dom().finite(),
        shape_pass(n0, inds, t).news == edge_key_set(inds, t).len(),
        shape_pass(n0, inds, t).n == n0 + shape_pass(n0, inds, t).news,
        shape_pass(n0, inds, t).inds.len() == 12 * t,
    decreases t,
{
    if t > 0 {
        lemma_shape_pass_count(n0, inds, t - 1);
        let prev = shape_pass(n0, inds, t - 1);
        let a = inds[3 * (t - 1)];
        let b = inds[3 * (t - 1) + 1];
        let c = inds[3 * (t - 1) + 2];
        let r1 = shape_edge_step(prev, a, b);
        let r2 = shape_edge_step(r1.0, b, c);
        assert(r1.0.mids.dom() =~= prev.mids.dom().insert(spec_edge_key(a, b)));
        assert(r2.0.mids.dom() =~= r1.0.mids.dom().insert(spec_edge_key(b, c)));
        assert(shape_pass(n0, inds, t).mids.dom() =~= r2.0.mids.dom().insert(
            spec_edge_key(c, a),
        ));
    }
}

/// A non-displacing pass reads nothing from the random stream: its result
/// does not depend on the seed or the stream position.
pub proof fn lemma_ref_pass_none_irrelevant(
    verts: Seq<Vertex>,
    inds: Seq<u32>,
    t: int,
    s1: u64,
    k1: int,
    s2: u64,
    k2: int,
)
    requires
        0 <= t,
    ensures
        ref_pass(verts, inds, t, Option::None, s1, k1).mids == ref_pass(
            verts,
            inds,
            t,
            Option::None,
            s2,
            k2,
        ).mids,
        ref_pass(verts, inds, t, Option::None, s1, k1).verts == ref_pass(
            verts,
            inds,
            t,
            Option::None,
            s2,
            k2,
        ).verts,
        ref_pass(verts, inds, t, Option::None, s1, k1).inds == ref_pass(
            verts,
            inds,
            t,
            Option::None,
            s2,
            k2,
        ).inds,
        ref_pass(verts, inds, t, Option::None, s1, k1).k == k1,
    decreases t,
{
    if t > 0 {
        lemma_ref_pass_none_irrelevant(verts, inds, t - 1, s1, k1, s2, k2);
    }
}

/// Plain subdivision follows the shape of its passes: the vertex count and
/// the index list after any number of passes are those of the topology-only
/// simulation, every emitted index is valid, and vertices are only added.
pub proof fn lemma_spec_subdivide_shape(verts: Seq<Vertex>, inds: Seq<u32>, it: int)
    requires
        0 <= it,
        valid_mesh(verts.len() as int, inds),
        subdivide_fits(verts.len() as int, inds, it),
    ensures
        spec_subdivide(verts, inds, it).0.len() == shape_refine(verts.len() as int, inds, it).0,
        spec_subdivide(verts, inds, it).1 == shape_refine(verts.len() as int, inds, it).1,
        valid_mesh(
            spec_subdivide(verts, inds, it).0.len() as int,
            spec_subdivide(verts, inds, it).1,
        ),
        verts.len() <= spec_subdivide(verts, inds, it).0.len(),
    decreases it,
{
    if it > 0 {
        lemma_spec_subdivide_shape(verts, inds, it - 1);
        let prev = spec_subdivide(verts, inds, it - 1);
        let n_prev = prev.0.len() as int;
        let t = prev.1.len() as int / 3;
        lemma_shape_pass_count(n_prev, prev.1, t);
        lemma_shape_pass_inv(n_prev, prev.1, t);
        lemma_ref_pass_shape(prev.0, prev.1, t, Option::None, 0u64, 0);
    }
}

/// Fractal refinement follows the same shape as plain subdivision; the
/// stream advances by exactly one draw per created midpoint.
pub proof fn lemma_spec_fractal_shape(
    verts: Seq<Vertex>,
    inds: Seq<u32>,
    it: int,
    disp: u32,
    decay: u32,
    seed: u64,
    k0: int,
)
    requires
        0 <= it,
        valid_mesh(verts.len() as int, inds),
        subdivide_fits(verts.len() as int, inds, it),
    ensures
        spec_fractal(verts, inds, it, disp, decay, seed, k0).0.len() == shape_refine(
            verts.len() as int,
            inds,
            it,
        ).0,
        spec_fractal(verts, inds, it, disp, decay, seed, k0).1 == shape_refine(
            verts.len() as int,
            inds,
            it,
        ).1,
        spec_fractal(verts, inds, it, disp, decay, seed, k0).2 == k0 + shape_refine(
            verts.len() as int,
            inds,
            it,
        ).2,
        valid_mesh(
            spec_fractal(verts, inds, it, disp, decay, seed, k0).0.len() as int,
            spec_fractal(verts, inds, it, disp, decay, seed, k0).1,
        ),
        verts.len() <= spec_fractal(verts, inds, it, disp, decay, seed, k0).0.len(),
    decreases it,
{
    if it > 0 {
        lemma_spec_fractal_shape(verts, inds, it - 1, disp, decay, seed, k0);
        let prev = spec_fractal(verts, inds, it - 1, disp, decay, seed, k0);
        let n_prev = prev.0.len() as int;
        let t = prev.1.len() as int / 3;
        lemma_shape_pass_count(n_prev, prev.1, t);
        lemma_shape_pass_inv(n_prev, prev.1, t);
        lemma_ref_pass_shape(
            prev.0,
            prev.1,
            t,
            Option::Some(frac_disp(disp, decay, it - 1)),
            seed,
            prev.2,
        );
    }
}

/// With the displacement term gone, fractal refinement is topologically
/// identical to plain subdivision: the same index list, the same vertex
/// count, whatever the seed.
pub proof fn lemma_fractal_subdivide_topology(
    verts: Seq<Vertex>,
    inds: Seq<u32>,
    it: int,
    disp: u32,
    decay: u32,
    seed: u64,
    k0: int,
)
    requires
        0 <= it,
        valid_mesh(verts.len() as int, inds),
        subdivide_fits(verts.len() as int, inds, it),
    ensures
        spec_fractal(verts, inds, it, disp, decay, seed, k0).1 == spec_subdivide(
            verts,
            inds,
            it,
        ).1,
        spec_fractal(verts, inds, it, disp, decay, seed, k0).0.len() == spec_subdivide(
            verts,
            inds,
            it,
        ).0.len(),
{
    lemma_spec_subdivide_shape(verts, inds, it);
    lemma_spec_fractal_shape(verts, inds, it, disp, decay, seed, k0);
}

/// Runs `iterations` plain subdivision passes.
pub(crate) fn subdivide(
    verts_in: Vec<Vertex>,
    inds_in: Vec<u32>,
    iterations: u32,
    random: &mut RandomSource,
) -> (out: (Vec<Vertex>, Vec<u32>))
    requires
        valid_mesh(verts_in@.len() as int, inds_in@),
        subdivide_fits(verts_in@.len() as int, inds_in@, iterations as int),
    ensures
        norm_verts(out.0@) == spec_subdivide(norm_verts(verts_in@), inds_in@, iterations as int).0,
        out.0@.len() == spec_subdivide(norm_verts(verts_in@), inds_in@, iterations as int).0.len(),
        out.1@ == spec_subdivide(norm_verts(verts_in@), inds_in@, iterations as int).1,
        final(random).seed() == old(random).seed(),
        final(random).drawn() == old(random).drawn(),
{
    let ghost verts0 = norm_verts(verts_in@);
    let ghost inds0 = inds_in@;
    let mut verts = verts_in;
    let mut inds = inds_in;

    let mut it: u32 = 0;
    while it < iterations
        invariant
            it <= iterations,
            valid_mesh(verts0.len() as int, inds0),
            subdivide_fits(verts0.len() as int, inds0, iterations as int),
            norm_verts(verts@) == spec_subdivide(verts0, inds0, it as int).0,
            verts@.len() == spec_subdivide(verts0, inds0, it as int).0.len(),
            inds@ == spec_subdivide(verts0, inds0, it as int).1,
            random.seed() == old(random).seed(),
            random.drawn() == old(random).drawn(),
        decreases iterations - it,
    {
        proof {
            lemma_subdivide_fits_mono(verts0.len() as int, inds0, it as int, iterations as int);
            lemma_subdivide_fits_mono(
                verts0.len() as int,
                inds0,
                it as int + 1,
                iterations as int,
            );
            lemma_spec_subdivide_shape(verts0, inds0, it as int);
            lemma_spec_subdivide_shape(verts0, inds0, it as int + 1);
            let prev = spec_subdivide(verts0, inds0, it as int);
            lemma_shape_pass_count(prev.0.len() as int, prev.1, prev.1.len() as int / 3);
        }
        let new_inds = refine_pass(&mut verts, &inds, Option::None, random);
        inds = new_inds;
        proof {
            let prev = spec_subdivide(verts0, inds0, it as int);
            lemma_ref_pass_none_irrelevant(
                prev.0,
                prev.1,
                prev.1.len() as int / 3,
                old(random).seed(),
                old(random).drawn(),
                0u64,
                0,
            );
        }
        it = it + 1;
    }
    (verts, inds)
}

/// Runs `iterations` fractal refinement passes: each pass subdivides and
/// shifts every fresh midpoint's height by a draw of the stream scaled by
/// the current displacement factor, which the decay divides once per
/// completed iteration.
pub(crate) fn fractal_terrain(
    verts_in: Vec<Vertex>,
    inds_in: Vec<u32>,
    iterations: u32,
    displacement_start: u32,
    displacement_decay: u32,
    random: &mut RandomSource,
) -> (out: (Vec<Vertex>, Vec<u32>))
    requires
        valid_mesh(verts_in@.len() as int, inds_in@),
        subdivide_fits(verts_in@.len() as int, inds_in@, iterations as int),
    ensures
        ({
            let r = spec_fractal(
                norm_verts(verts_in@),
                inds_in@,
                iterations as int,
                norm_bits(displacement_start),
                norm_bits(displacement_decay),
                old(random).seed(),
                old(random).drawn(),
            );
            &&& norm_verts(out.0@) == r.0
            &&& out.0@.len() == r.0.len()
            &&& out.1@ == r.1
            &&& final(random).drawn() == r.2
            &&& final(random).seed() == old(random).seed()
        }),
{
    let ghost verts0 = norm_verts(verts_in@);
    let ghost inds0 = inds_in@;
    let ghost seed = random.seed();
    let ghost k0 = random.drawn();
    let mut verts = verts_in;
    let mut inds = inds_in;
    let mut disp: u32 = displacement_start;

    let mut it: u32 = 0;
    while it < iterations
        invariant
            it <= iterations,
            valid_mesh(verts0.len() as int, inds0),
            subdivide_fits(verts0.len() as int, inds0, iterations as int),
            norm_verts(verts@) == spec_fractal(
                verts0,
                inds0,
                it as int,
                norm_bits(displacement_start),
                norm_bits(displacement_decay),
                seed,
                k0,
            ).0,
            verts@.len() == spec_fractal(
                verts0,
                inds0,
                it as int,
                norm_bits(displacement_start),
                norm_bits(displacement_decay),
                seed,
                k0,
            ).0.len(),
            inds@ == spec_fractal(
                verts0,
                inds0,
                it as int,
                norm_bits(displacement_start),
                norm_bits(displacement_decay),
                seed,
                k0,
            ).1,
            random.drawn() == spec_fractal(
                verts0,
                inds0,
                it as int,
                norm_bits(displacement_start),
                norm_bits(displacement_decay),
                seed,
                k0,
            ).2,
            random.seed() == seed,
            norm_bits(disp) == frac_disp(
                norm_bits(displacement_start),
                norm_bits(displacement_decay),
                it as int,
            ),
        decreases iterations - it,
    {
        proof {
            lemma_subdivide_fits_mono(verts0.len() as int, inds0, it as int, iterations as int);
            lemma_subdivide_fits_mono(
                verts0.len() as int,
                inds0,
                it as int + 1,
                iterations as int,
            );
            lemma_spec_fractal_shape(
                verts0,
                inds0,
                it as int,
                norm_bits(displacement_start),
                norm_bits(displacement_decay),
                seed,
                k0,
            );
            lemma_spec_fractal_shape(
                verts0,
                inds0,
                it as int + 1,
                norm_bits(displacement_start),
                norm_bits(displacement_decay),
                seed,
                k0,
            );
            let prev = spec_fractal(
                verts0,
                inds0,
                it as int,
                norm_bits(displacement_start),
                norm_bits(displacement_decay),
                seed,
                k0,
            );
            lemma_shape_pass_count(prev.0.len() as int, prev.1, prev.1.len() as int / 3);
        }
        let new_inds = refine_pass(&mut verts, &inds, Option::Some(disp), random);
        inds = new_inds;
        disp = f_div(disp, displacement_decay);
        it = it + 1;
    }
    (verts, inds)
}

/// Subdividing a single triangle once yields exactly four triangles and
/// three fresh vertices — one per edge, each the exact single-precision
/// midpoint of its edge's endpoints — in the canonical corner/midpoint
/// index layout.
pub proof fn lemma_subdivide_single_triangle(verts: Seq<Vertex>)
    requires
        verts.len() == 3,
    ensures
        ({
            let r = spec_subdivide(verts, seq![0u32, 1u32, 2u32], 1);
            &&& r.0.len() == 6
            &&& r.1.len() == 12
            &&& r.0[3] == (Vertex {
                pos: spec_mid(verts[0].pos, verts[1].pos),
                normal: verts[0].normal,
            })
            &&& r.0[4] == (Vertex {
                pos: spec_mid(verts[1].pos, verts[2].pos),
                normal: verts[1].normal,
            })
            &&& r.0[5] == (Vertex {
                pos: spec_mid(verts[2].pos, verts[0].pos),
                normal: verts[2].normal,
            })
            &&& r.1 =~= seq![
                0u32,
                3u32,
                5u32,
                3u32,
                1u32,
                4u32,
                5u32,
                3u32,
                4u32,
                5u32,
                4u32,
                2u32,
            ]
        }),
{
    lemma_edge_keys_distinct(1, 2, 0, 1);
    lemma_edge_keys_distinct(2, 0, 0, 1);
    lemma_edge_keys_distinct(2, 0, 1, 2);
    let inds: Seq<u32> = seq![0u32, 1u32, 2u32];
    assert(inds.len() as int / 3 == 1);
    let st0 = ref_pass(verts, inds, 0, Option::None, 0u64, 0);
    let r1 = ref_edge_step(st0, 0, 1, Option::None, 0u64);
    let r2 = ref_edge_step(r1.0, 1, 2, Option::None, 0u64);
    let r3 = ref_edge_step(r2.0, 2, 0, Option::None, 0u64);
    assert(r1.1 == 3u32 && r2.1 == 4u32 && r3.1 == 5u32);
    let st = ref_pass(verts, inds, 1, Option::None, 0u64, 0);
    assert(st == ref_tri_step(st0, 0, 1, 2, Option::None, 0u64));
    assert(spec_subdivide(verts, inds, 0) == (verts, inds));
    assert(spec_subdivide(verts, inds, 1).0 == st.verts);
    assert(spec_subdivide(verts, inds, 1).1 == st.inds);
    assert(st.verts.len() == 6);
    assert(st.verts[3] == (Vertex { pos: spec_mid(verts[0].pos, verts[1].pos), normal: verts[0].normal }));
    assert(st.verts[4] == (Vertex { pos: spec_mid(verts[1].pos, verts[2].pos), normal: verts[1].normal }));
    assert(st.verts[5] == (Vertex { pos: spec_mid(verts[2].pos, verts[0].pos), normal: verts[2].normal }));
    assert(st.inds =~= seq![0u32, 3u32, 5u32, 3u32, 1u32, 4u32, 5u32, 3u32, 4u32, 5u32, 4u32, 2u32]);
}

/// Subdividing a two-triangle quad once creates exactly five fresh
/// vertices, not six: the shared edge's midpoint is created once and
/// reused.
pub proof fn lemma_subdivide_quad_shares_midpoint(verts: Seq<Vertex>)
    requires
        verts.len() == 4,
    ensures
        ({
            let r = spec_subdivide(verts, seq![1u32, 2u32, 3u32, 1u32, 3u32, 0u32], 1);
            &&& r.0.len() == 9
            &&& r.1.len() == 24
        }),
{
    lemma_edge_keys_distinct(2, 3, 1, 2);
    lemma_edge_keys_distinct(3, 1, 1, 2);
    lemma_edge_keys_distinct(3, 1, 2, 3);
    lemma_edge_keys_distinct(1, 3, 1, 2);
    lemma_edge_keys_distinct(1, 3, 2, 3);
    lemma_edge_keys_distinct(3, 0, 1, 2);
    lemma_edge_keys_distinct(3, 0, 2, 3);
    lemma_edge_keys_distinct(3, 0, 3, 1);
    lemma_edge_keys_distinct(0, 1, 1, 2);
    lemma_edge_keys_distinct(0, 1, 2, 3);
    lemma_edge_keys_distinct(0, 1, 3, 1);
    lemma_edge_keys_distinct(0, 1, 3, 0);
    assert(spec_edge_key(1, 3) == spec_edge_key(3, 1));
    let inds: Seq<u32> = seq![1u32, 2u32, 3u32, 1u32, 3u32, 0u32];
    assert(inds.len() as int / 3 == 2);
    let st0 = ref_pass(verts, inds, 0, Option::None, 0u64, 0);
    let r1 = ref_edge_step(st0, 1, 2, Option::None, 0u64);
    let r2 = ref_edge_step(r1.0, 2, 3, Option::None, 0u64);
    let r3 = ref_edge_step(r2.0, 3, 1, Option::None, 0u64);
    assert(r1.1 == 4u32 && r2.1 == 5u32 && r3.1 == 6u32);
    let st1 = ref_pass(verts, inds, 1, Option::None, 0u64, 0);
    assert(st1 == ref_tri_step(st0, 1, 2, 3, Option::None, 0u64));
    let q1 = ref_edge_step(st1, 1, 3, Option::None, 0u64);
    let q2 = ref_edge_step(q1.0, 3, 0, Option::None, 0u64);
    let q3 = ref_edge_step(q2.0, 0, 1, Option::None, 0u64);
    assert(q1.1 == 6u32 && q2.1 == 7u32 && q3.1 == 8u32);
    let st = ref_pass(verts, inds, 2, Option::None, 0u64, 0);
    assert(st == ref_tri_step(st1, 1, 3, 0, Option::None, 0u64));
    assert(spec_subdivide(verts, inds, 0) == (verts, inds));
    assert(spec_subdivide(verts, inds, 1).0 == st.verts);
    assert(spec_subdivide(verts, inds, 1).1 == st.inds);
    assert(st.verts.len() == 9);
    assert(st.inds.len() == 24);
}

} // verus!
