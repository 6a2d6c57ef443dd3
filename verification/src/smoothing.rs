//! Smoothing: uniform Laplacian relaxation.  Each pass accumulates, for
//! every vertex, the homogeneous positions of its edge-adjacent neighbours
//! — once per triangle-edge occurrence, not deduplicated — then moves the
//! vertex to `amount * average + (1 - amount) * position`, all vertices
//! updated from the same pre-pass snapshot.

use vstd::prelude::*;
use crate::edge::valid_mesh;
use crate::scalar::{
    add_bits, sub_bits, mul_bits, div_bits, norm_bits, f_add, f_sub, f_mul, f_div, BITS_ZERO,
    BITS_ONE,
};
use crate::vertex::{
    Quad, Vertex, quad_zero, quad_add, quad_add_exec, norm_quad, norm_quads, norm_vertex,
    norm_verts,
};

verus! {

/// The neighbour accumulators after the first `t` triangles: each corner
/// receives the homogeneous positions of the triangle's other two corners,
/// in a fixed order, the unit `w` components counting the contributions.
pub open spec fn smooth_acc(verts: Seq<Vertex>, inds: Seq<u32>, t: int) -> Seq<Quad>
    decreases t,
{
    if t <= 0 {
        Seq::new(verts.len(), |i: int| quad_zero())
    } else {
        let prev = smooth_acc(verts, inds, t - 1);
        let i0 = inds[3 * (t - 1)] as int;
        let i1 = inds[3 * (t - 1) + 1] as int;
        let i2 = inds[3 * (t - 1) + 2] as int;
        let a1 = prev.update(i0, quad_add(prev[i0], verts[i1].pos));
        let a2 = a1.update(i0, quad_add(a1[i0], verts[i2].pos));
        let a3 = a2.update(i1, quad_add(a2[i1], verts[i0].pos));
        let a4 = a3.update(i1, quad_add(a3[i1], verts[i2].pos));
        let a5 = a4.update(i2, quad_add(a4[i2], verts[i0].pos));
        a5.update(i2, quad_add(a5[i2], verts[i1].pos))
    }
}

/// One vertex relaxed towards the average of its accumulated neighbours:
/// the accumulator's `w` holds the contribution count, and the new position
/// is `amount * average + (1 - amount) * position`, re-homogenised.
pub open spec fn spec_smooth_vertex(v: Vertex, acc: Quad, amount: u32) -> Vertex {
    let tx = div_bits(acc.x, acc.w);
    let ty = div_bits(acc.y, acc.w);
    let tz = div_bits(acc.z, acc.w);
    let keep = sub_bits(BITS_ONE, amount);
    Vertex {
        pos: Quad {
            x: add_bits(mul_bits(amount, tx), mul_bits(keep, v.pos.x)),
            y: add_bits(mul_bits(amount, ty), mul_bits(keep, v.pos.y)),
            z: add_bits(mul_bits(amount, tz), mul_bits(keep, v.pos.z)),
            w: BITS_ONE,
        },
        normal: v.normal,
    }
}

/// One whole relaxation pass over the snapshot `verts`.
pub open spec fn spec_smooth_pass(verts: Seq<Vertex>, inds: Seq<u32>, amount: u32) -> Seq<Vertex> {
    let acc = smooth_acc(verts, inds, inds.len() as int / 3);
    Seq::new(verts.len(), |i: int| spec_smooth_vertex(verts[i], acc[i], amount))
}

/// `iters` relaxation passes in sequence.
pub open spec fn spec_smooth(verts: Seq<Vertex>, inds: Seq<u32>, amount: u32, iters: int) -> Seq<Vertex>
    decreases iters,
{
    if iters <= 0 {
        verts
    } else {
        spec_smooth_pass(spec_smooth(verts, inds, amount, iters - 1), inds, amount)
    }
}

/// One relaxation pass: accumulate neighbour positions, then move every
/// vertex towards its neighbour average.
fn smooth_pass(verts_in: Vec<Vertex>, inds: &Vec<u32>, amount: u32) -> (out: Vec<Vertex>)
    requires
        valid_mesh(verts_in@.len() as int, inds@),
    ensures
        norm_verts(out@) == spec_smooth_pass(norm_verts(verts_in@), inds@, norm_bits(amount)),
        out@.len() == verts_in@.len(),
{
    let ghost verts0 = verts_in@;
    let ghost vc = norm_verts(verts_in@);
    let n = verts_in.len();

    let mut acc: Vec<Quad> = Vec::new();
    while acc.len() < n
        invariant
            acc@.len() <= n,
            forall|j: int| 0 <= j < acc@.len() ==> acc@[j] == quad_zero(),
        decreases n - acc@.len(),
    {
        acc.push(Quad { x: BITS_ZERO, y: BITS_ZERO, z: BITS_ZERO, w: BITS_ZERO });
    }
    proof {
        assert(norm_quads(acc@) =~= smooth_acc(vc, inds@, 0));
    }

    let n_tris: usize = inds.len() / 3;
    let ghost t_total = inds@.len() as int / 3;
    let mut t: usize = 0;
    while t < n_tris
        invariant
            t <= n_tris,
            n_tris == t_total,
            3 * t_total <= inds@.len(),
            inds@.len() <= usize::MAX as int,
            valid_mesh(verts0.len() as int, inds@),
            n == verts0.len(),
            verts_in@ == verts0,
            vc == norm_verts(verts0),
            acc@.len() == verts0.len(),
            norm_quads(acc@) == smooth_acc(vc, inds@, t as int),
        decreases n_tris - t,
    {
        proof {
            assert(3 * (t as int) + 2 < inds@.len());
            assert(valid_mesh(vc.len() as int, inds@));
            lemma_smooth_acc_len(vc, inds@, t as int);
            lemma_smooth_acc_len(vc, inds@, t as int + 1);
        }
        let i0 = inds[3 * t] as usize;
        let i1 = inds[3 * t + 1] as usize;
        let i2 = inds[3 * t + 2] as usize;
        let p0 = verts_in[i0].pos;
        let p1 = verts_in[i1].pos;
        let p2 = verts_in[i2].pos;

        let a0 = acc[i0];
        acc.set(i0, quad_add_exec(a0, p1));
        let a0b = acc[i0];
        acc.set(i0, quad_add_exec(a0b, p2));
        let b1 = acc[i1];
        acc.set(i1, quad_add_exec(b1, p0));
        let b1b = acc[i1];
        acc.set(i1, quad_add_exec(b1b, p2));
        let c2 = acc[i2];
        acc.set(i2, quad_add_exec(c2, p0));
        let c2b = acc[i2];
        acc.set(i2, quad_add_exec(c2b, p1));

        proof {
            assert(norm_quads(acc@) =~= smooth_acc(vc, inds@, t as int + 1));
        }
        t = t + 1;
    }

    let ghost accs = smooth_acc(vc, inds@, t_total);
    proof {
        assert(valid_mesh(vc.len() as int, inds@));
        lemma_smooth_acc_len(vc, inds@, t_total);
    }
    let mut out: Vec<Vertex> = Vec::new();
    let mut i: usize = 0;
    while i < n
        invariant
            i <= n,
            n == verts0.len(),
            verts_in@ == verts0,
            vc == norm_verts(verts0),
            norm_quads(acc@) == accs,
            acc@.len() == verts0.len(),
            accs.len() == verts0.len(),
            out@.len() == i,
            forall|j: int| 0 <= j < i ==> norm_vertex(#[trigger] out@[j]) == spec_smooth_vertex(
                vc[j],
                accs[j],
                norm_bits(amount),
            ),
        decreases n - i,
    {
        let v = verts_in[i];
        let a = acc[i];
        let tx = f_div(a.x, a.w);
        let ty = f_div(a.y, a.w);
        let tz = f_div(a.z, a.w);
        let keep = f_sub(BITS_ONE, amount);
        out.push(Vertex {
            pos: Quad {
                x: f_add(f_mul(amount, tx), f_mul(keep, v.pos.x)),
                y: f_add(f_mul(amount, ty), f_mul(keep, v.pos.y)),
                z: f_add(f_mul(amount, tz), f_mul(keep, v.pos.z)),
                w: BITS_ONE,
            },
            normal: v.normal,
        });
        i = i + 1;
    }
    proof {
        assert(norm_verts(out@) =~= spec_smooth_pass(vc, inds@, norm_bits(amount)));
    }
    out
}

/// The accumulator list always has one entry per vertex.
pub proof fn lemma_smooth_acc_len(verts: Seq<Vertex>, inds: Seq<u32>, t: int)
    requires
        0 <= t,
        3 * t <= inds.len(),
        valid_mesh(verts.len() as int, inds),
    ensures
        smooth_acc(verts, inds, t).len() == verts.len(),
    decreases t,
{
    if t > 0 {
        lemma_smooth_acc_len(verts, inds, t - 1);
        let prev = smooth_acc(verts, inds, t - 1);
        let i0 = inds[3 * (t - 1)] as int;
        let i1 = inds[3 * (t - 1) + 1] as int;
        let i2 = inds[3 * (t - 1) + 2] as int;
        let a1 = prev.update(i0, quad_add(prev[i0], verts[i1].pos));
        let a2 = a1.update(i0, quad_add(a1[i0], verts[i2].pos));
        let a3 = a2.update(i1, quad_add(a2[i1], verts[i0].pos));
        let a4 = a3.update(i1, quad_add(a3[i1], verts[i2].pos));
        let a5 = a4.update(i2, quad_add(a4[i2], verts[i0].pos));
        let a6 = a5.update(i2, quad_add(a5[i2], verts[i1].pos));
        assert(smooth_acc(verts, inds, t) == a6);
    }
}

/// Runs `iterations` relaxation passes.
pub(crate) fn smooth(verts_in: Vec<Vertex>, inds_in: Vec<u32>, amount: u32, iterations: u32) -> (out: (
    Vec<Vertex>,
    Vec<u32>,
))
    requires
        valid_mesh(verts_in@.len() as int, inds_in@),
    ensures
        norm_verts(out.0@) == spec_smooth(norm_verts(verts_in@), inds_in@, norm_bits(amount), iterations as int),
        out.0@.len() == verts_in@.len(),
        out.1@ == inds_in@,
{
    let ghost verts0 = norm_verts(verts_in@);
    let mut verts = verts_in;
    let mut it: u32 = 0;
    while it < iterations
        invariant
            it <= iterations,
            valid_mesh(verts0.len() as int, inds_in@),
            norm_verts(verts@) == spec_smooth(verts0, inds_in@, norm_bits(amount), it as int),
            verts@.len() == verts0.len(),
        decreases iterations - it,
    {
        proof {
            lemma_spec_smooth_len(verts0, inds_in@, norm_bits(amount), it as int);
        }
        verts = smooth_pass(verts, &inds_in, amount);
        it = it + 1;
    }
    (verts, inds_in)
}

/// Relaxation never changes the vertex count.
pub proof fn lemma_spec_smooth_len(verts: Seq<Vertex>, inds: Seq<u32>, amount: u32, iters: int)
    ensures
        spec_smooth(verts, inds, amount, iters).len() == verts.len(),
    decreases iters,
{
    if iters > 0 {
        lemma_spec_smooth_len(verts, inds, amount, iters - 1);
    }
}

} // verus!
