//! The pipeline executor and the normal-accumulation post-pass.
//!
//! An ordered operation list is replayed from an empty buffer, each stage
//! consuming the previous stage's output and the shared random source; the
//! normal accumulator then runs exactly once over the final buffer.  The
//! whole result is a fixed mathematical function of the operation list and
//! the seed.

use vstd::prelude::*;
use crate::rng::RandomSource;
use crate::rng::random_u32;
use crate::scalar::{
    add_bits, sub_bits, mul_bits, div_bits, sqrt_bits, norm_bits, f_add, f_sub, f_mul, f_div,
    f_sqrt, BITS_ZERO, BITS_ONE,
};
use crate::vertex::{
    Quad, Vertex, quad_zero, quad_add, quad_add_exec, norm_quad, norm_vertex, norm_verts,
};
use crate::edge::{valid_mesh, lemma_edge_key_set_len_bound};
use crate::generators::{lemma_grid_inds_valid, lemma_grid_inds_len_bound};
use crate::mesh_operation::{MeshOperation, spec_execute, op_shape, op_fits};
use crate::subdivision::{
    shape_refine, subdivide_fits, lemma_shape_pass_count, lemma_spec_subdivide_shape,
};

verus! {

// ---------------------------------------------------------------------------
// Normal accumulation: every vertex's normal is zeroed; every triangle then
// adds, at each of its three corners, the normalised cross product of the
// two edges leaving that corner, with a unit weight in the fourth
// component; finally each normal is divided by its own accumulated weight.
// ---------------------------------------------------------------------------

/// The homogeneous normal contributed to the corner `p1` of a triangle
/// whose other corners are `p2` and `p3`: the normalised cross product of
/// the edges towards `p2` and `p3`, extended with a unit weight.
pub open spec fn spec_corner_normal(p1: Quad, p2: Quad, p3: Quad) -> Quad {
    let d1x = sub_bits(p2.x, p1.x);
    let d1y = sub_bits(p2.y, p1.y);
    let d1z = sub_bits(p2.z, p1.z);
    let d2x = sub_bits(p3.x, p1.x);
    let d2y = sub_bits(p3.y, p1.y);
    let d2z = sub_bits(p3.z, p1.z);
    let cx = sub_bits(mul_bits(d1y, d2z), mul_bits(d1z, d2y));
    let cy = sub_bits(mul_bits(d1z, d2x), mul_bits(d1x, d2z));
    let cz = sub_bits(mul_bits(d1x, d2y), mul_bits(d1y, d2x));
    let m2 = add_bits(add_bits(mul_bits(cx, cx), mul_bits(cy, cy)), mul_bits(cz, cz));
    let inv = div_bits(BITS_ONE, sqrt_bits(m2));
    Quad { x: mul_bits(cx, inv), y: mul_bits(cy, inv), z: mul_bits(cz, inv), w: BITS_ONE }
}

/// The buffer after the first `t` triangles have accumulated their corner
/// normals, starting from zeroed normals.  Corners are visited in the fixed
/// rotation (0,1,2), (1,2,0), (2,0,1).
pub open spec fn normals_acc(verts: Seq<Vertex>, inds: Seq<u32>, t: int) -> Seq<Vertex>
    decreases t,
{
    if t <= 0 {
        Seq::new(verts.len(), |i: int| Vertex { pos: verts[i].pos, normal: quad_zero() })
    } else {
        let prev = normals_acc(verts, inds, t - 1);
        let i0 = inds[3 * (t - 1)] as int;
        let i1 = inds[3 * (t - 1) + 1] as int;
        let i2 = inds[3 * (t - 1) + 2] as int;
        let s1 = prev.update(
            i0,
            Vertex {
                pos: prev[i0].pos,
                normal: quad_add(
                    prev[i0].normal,
                    spec_corner_normal(verts[i0].pos, verts[i1].pos, verts[i2].pos),
                ),
            },
        );
        let s2 = s1.update(
            i1,
            Vertex {
                pos: s1[i1].pos,
                normal: quad_add(
                    s1[i1].normal,
                    spec_corner_normal(verts[i1].pos, verts[i2].pos, verts[i0].pos),
                ),
            },
        );
        s2.update(
            i2,
            Vertex {
                pos: s2[i2].pos,
                normal: quad_add(
                    s2[i2].normal,
                    spec_corner_normal(verts[i2].pos, verts[i0].pos, verts[i1].pos),
                ),
            },
        )
    }
}

/// The accumulator keeps one entry per vertex, with positions unchanged.
pub proof fn lemma_normals_acc_len(verts: Seq<Vertex>, inds: Seq<u32>, t: int)
    requires
        0 <= t,
        3 * t <= inds.len(),
        valid_mesh(verts.len() as int, inds),
    ensures
        normals_acc(verts, inds, t).len() == verts.len(),
        forall|i: int| 0 <= i < verts.len() ==> (#[trigger] normals_acc(verts, inds, t)[i]).pos
            == verts[i].pos,
    decreases t,
{
    if t > 0 {
        lemma_normals_acc_len(verts, inds, t - 1);
    }
}

/// The finished buffer: every accumulated normal divided by its own weight,
/// the weight itself kept in the fourth component.
pub open spec fn spec_calculate_normals(verts: Seq<Vertex>, inds: Seq<u32>) -> Seq<Vertex> {
    let acc = normals_acc(verts, inds, inds.len() as int / 3);
    Seq::new(
        verts.len(),
        |i: int| Vertex {
            pos: acc[i].pos,
            normal: Quad {
                x: div_bits(acc[i].normal.x, acc[i].normal.w),
                y: div_bits(acc[i].normal.y, acc[i].normal.w),
                z: div_bits(acc[i].normal.z, acc[i].normal.w),
                w: acc[i].normal.w,
            },
        },
    )
}

/// The normal contributed to corner `p1` by the triangle `(p1, p2, p3)`.
fn corner_normal(p1: Quad, p2: Quad, p3: Quad) -> (r: Quad)
    ensures
        norm_quad(r) == spec_corner_normal(norm_quad(p1), norm_quad(p2), norm_quad(p3)),
{
    let d1x = f_sub(p2.x, p1.x);
    let d1y = f_sub(p2.y, p1.y);
    let d1z = f_sub(p2.z, p1.z);
    let d2x = f_sub(p3.x, p1.x);
    let d2y = f_sub(p3.y, p1.y);
    let d2z = f_sub(p3.z, p1.z);
    let cx = f_sub(f_mul(d1y, d2z), f_mul(d1z, d2y));
    let cy = f_sub(f_mul(d1z, d2x), f_mul(d1x, d2z));
    let cz = f_sub(f_mul(d1x, d2y), f_mul(d1y, d2x));
    let m2 = f_add(f_add(f_mul(cx, cx), f_mul(cy, cy)), f_mul(cz, cz));
    let inv = f_div(BITS_ONE, f_sqrt(m2));
    Quad { x: f_mul(cx, inv), y: f_mul(cy, inv), z: f_mul(cz, inv), w: BITS_ONE }
}

/// Recomputes every vertex normal from the triangle geometry: zero, then
/// accumulate one normalised cross-product normal per incident triangle
/// corner, then divide by the accumulated weight.
pub fn calculate_normals(verts: Vec<Vertex>, inds: Vec<u32>) -> (out: (Vec<Vertex>, Vec<u32>))
    requires
        valid_mesh(verts@.len() as int, inds@),
    ensures
        norm_verts(out.0@) == spec_calculate_normals(norm_verts(verts@), inds@),
        out.0@.len() == verts@.len(),
        out.1@ == inds@,
{
    let ghost verts0 = verts@;
    let ghost vc = norm_verts(verts@);
    let n = verts.len();

    let mut work: Vec<Vertex> = Vec::new();
    let mut i: usize = 0;
    while i < n
        invariant
            i <= n,
            n == verts0.len(),
            verts@ == verts0,
            vc == norm_verts(verts0),
            work@.len() == i,
            forall|j: int| 0 <= j < i ==> norm_vertex(#[trigger] work@[j]) == (Vertex {
                pos: vc[j].pos,
                normal: quad_zero(),
            }),
        decreases n - i,
    {
        let v = verts[i];
        work.push(Vertex { pos: v.pos, normal: Quad { x: BITS_ZERO, y: BITS_ZERO, z: BITS_ZERO, w: BITS_ZERO } });
        i = i + 1;
    }
    proof {
        assert(norm_verts(work@) =~= normals_acc(vc, inds@, 0));
    }

    let ghost t_total = inds@.len() as int / 3;
    let n_tris: usize = inds.len() / 3;
    let mut t: usize = 0;
    while t < n_tris
        invariant
            t <= n_tris,
            n_tris == t_total,
            3 * t_total <= inds@.len(),
            inds@.len() <= usize::MAX as int,
            valid_mesh(verts0.len() as int, inds@),
            n == verts0.len(),
            verts@ == verts0,
            vc == norm_verts(verts0),
            work@.len() == verts0.len(),
            norm_verts(work@) == normals_acc(vc, inds@, t as int),
        decreases n_tris - t,
    {
        proof {
            assert(3 * (t as int) + 2 < inds@.len());
            assert(valid_mesh(vc.len() as int, inds@));
            lemma_normals_acc_len(vc, inds@, t as int);
            lemma_normals_acc_len(vc, inds@, t as int + 1);
        }
        let i0 = inds[3 * t] as usize;
        let i1 = inds[3 * t + 1] as usize;
        let i2 = inds[3 * t + 2] as usize;
        let p0 = verts[i0].pos;
        let p1 = verts[i1].pos;
        let p2 = verts[i2].pos;

        let w0 = work[i0];
        work.set(i0, Vertex { pos: w0.pos, normal: quad_add_exec(w0.normal, corner_normal(p0, p1, p2)) });
        let w1 = work[i1];
        work.set(i1, Vertex { pos: w1.pos, normal: quad_add_exec(w1.normal, corner_normal(p1, p2, p0)) });
        let w2 = work[i2];
        work.set(i2, Vertex { pos: w2.pos, normal: quad_add_exec(w2.normal, corner_normal(p2, p0, p1)) });

        proof {
            assert(norm_verts(work@) =~= normals_acc(vc, inds@, t as int + 1));
        }
        t = t + 1;
    }

    let ghost accs = normals_acc(vc, inds@, t_total);
    proof {
        assert(valid_mesh(vc.len() as int, inds@));
        lemma_normals_acc_len(vc, inds@, t_total);
    }
    let mut out: Vec<Vertex> = Vec::new();
    let mut i: usize = 0;
    while i < n
        invariant
            i <= n,
            n == verts0.len(),
            norm_verts(work@) == accs,
            work@.len() == verts0.len(),
            accs.len() == verts0.len(),
            out@.len() == i,
            forall|j: int| 0 <= j < i ==> norm_vertex(#[trigger] out@[j]) == (Vertex {
                pos: accs[j].pos,
                normal: Quad {
                    x: div_bits(accs[j].normal.x, accs[j].normal.w),
                    y: div_bits(accs[j].normal.y, accs[j].normal.w),
                    z: div_bits(accs[j].normal.z, accs[j].normal.w),
                    w: accs[j].normal.w,
                },
            }),
        decreases n - i,
    {
        let v = work[i];
        out.push(
            Vertex {
                pos: v.pos,
                normal: Quad {
                    x: f_div(v.normal.x, v.normal.w),
                    y: f_div(v.normal.y, v.normal.w),
                    z: f_div(v.normal.z, v.normal.w),
                    w: v.normal.w,
                },
            },
        );
        i = i + 1;
    }
    proof {
        assert(norm_verts(out@) =~= spec_calculate_normals(vc, inds@));
    }
    (out, inds)
}

// ---------------------------------------------------------------------------
// The executor.
// ---------------------------------------------------------------------------

/// The buffer and stream position after the first `i` operations, replayed
/// from an empty buffer at stream position 0.
pub open spec fn spec_pipeline(ops: Seq<MeshOperation>, i: int, seed: u64) -> (
    Seq<Vertex>,
    Seq<u32>,
    int,
)
    decreases i,
{
    if i <= 0 {
        (Seq::empty(), Seq::empty(), 0)
    } else {
        let prev = spec_pipeline(ops, i - 1, seed);
        spec_execute(ops[i - 1], prev.0, prev.1, seed, prev.2)
    }
}

/// The shape (vertex count and index list) after the first `i` operations:
/// a function of the operation list alone, independent of the seed.
pub open spec fn pipeline_shape(ops: Seq<MeshOperation>, i: int) -> (int, Seq<u32>)
    decreases i,
{
    if i <= 0 {
        (0, Seq::empty())
    } else {
        let prev = pipeline_shape(ops, i - 1);
        op_shape(ops[i - 1], prev.0, prev.1)
    }
}

/// Every stage's input satisfies what that stage asks of it.  Since every
/// stage's shape is a function of the operation list alone, this condition
/// does not depend on the seed.
pub open spec fn pipeline_fits(ops: Seq<MeshOperation>) -> bool {
    forall|i: int| 0 <= i < ops.len() ==> #[trigger] op_fits(
        ops[i],
        pipeline_shape(ops, i).0,
        pipeline_shape(ops, i).1,
    )
}

/// The final mesh for a replay of `ops` with the given seed: the pipeline's
/// output buffer with freshly accumulated normals.
pub open spec fn spec_generate(ops: Seq<MeshOperation>, seed: u64) -> (Seq<Vertex>, Seq<u32>) {
    let end = spec_pipeline(ops, ops.len() as int, seed);
    (spec_calculate_normals(end.0, end.1), end.1)
}

/// The seed a run uses: a non-negative request names it outright, a
/// negative one stands for a fresh draw, reported back for replay.
pub open spec fn spec_seed_used(seed: i64, reported: i64) -> u64 {
    if seed >= 0 {
        seed as u64
    } else {
        reported as u64
    }
}

/// Replays the operations in order from an empty buffer, then accumulates
/// normals once.  A non-negative `seed` reproduces a prior run exactly; a
/// negative one draws a fresh 32-bit seed.  Returns the buffer and the seed
/// used, so the run can be replayed.
pub fn generate_mesh(operations: &Vec<MeshOperation>, seed: i64) -> (out: (
    Vec<Vertex>,
    Vec<u32>,
    i64,
))
    requires
        pipeline_fits(operations@),
    ensures
        seed >= 0 ==> out.2 == seed,
        seed < 0 ==> 0 <= out.2 <= u32::MAX as i64,
        norm_verts(out.0@) == spec_generate(operations@, spec_seed_used(seed, out.2)).0,
        out.1@ == spec_generate(operations@, spec_seed_used(seed, out.2)).1,
{
    let seed_used: u64 = if seed >= 0 {
        seed as u64
    } else {
        random_u32() as u64
    };
    let last_seed: i64 = seed_used as i64;

    let mut random = RandomSource::from_seed(seed_used);
    let mut verts: Vec<Vertex> = Vec::new();
    let mut inds: Vec<u32> = Vec::new();
    proof {
        assert(norm_verts(verts@) =~= spec_pipeline(operations@, 0, seed_used).0);
    }

    let n_ops = operations.len();
    let mut i: usize = 0;
    while i < n_ops
        invariant
            i <= n_ops,
            n_ops == operations@.len(),
            pipeline_fits(operations@),
            norm_verts(verts@) == spec_pipeline(operations@, i as int, seed_used).0,
            inds@ == spec_pipeline(operations@, i as int, seed_used).1,
            random.drawn() == spec_pipeline(operations@, i as int, seed_used).2,
            random.seed() == seed_used,
            verts@.len() == pipeline_shape(operations@, i as int).0,
            inds@ == pipeline_shape(operations@, i as int).1,
            valid_mesh(verts@.len() as int, inds@),
        decreases n_ops - i,
    {
        let op = operations[i];
        let r = op.execute(verts, inds, &mut random);
        verts = r.0;
        inds = r.1;
        i = i + 1;
    }

    let r = calculate_normals(verts, inds);
    (r.0, r.1, last_seed)
}


/// Checks, stage by stage, that every operation's input stays within what
/// the executor asks of it, walking a conservative upper bound on the
/// vertex and triangle counts (at most three midpoints and four triangles
/// per refined triangle).  A positive answer certifies the whole list; a
/// negative one makes no claim.
pub fn pipeline_fits_exec(operations: &Vec<MeshOperation>) -> (b: bool)
    ensures
        b ==> pipeline_fits(operations@),
{
    let mut n_hat: u64 = 0;
    let mut t_hat: u64 = 0;
    let n_ops = operations.len();
    let mut i: usize = 0;
    while i < n_ops
        invariant
            i <= n_ops,
            n_ops == operations@.len(),
            forall|k: int| 0 <= k < i ==> #[trigger] op_fits(
                operations@[k],
                pipeline_shape(operations@, k).0,
                pipeline_shape(operations@, k).1,
            ),
            0 <= pipeline_shape(operations@, i as int).0,
            pipeline_shape(operations@, i as int).0 <= n_hat,
            pipeline_shape(operations@, i as int).1.len() / 3 <= t_hat,
            valid_mesh(
                pipeline_shape(operations@, i as int).0,
                pipeline_shape(operations@, i as int).1,
            ),
        decreases n_ops - i,
    {
        let ghost sh = pipeline_shape(operations@, i as int);
        let op = operations[i];
        match op {
            MeshOperation::AddTriangle(..) => {
                n_hat = 3;
                t_hat = 1;
                proof {
                    assert forall|j: int| 0 <= j < op_shape(op, sh.0, sh.1).1.len() implies (
                    #[trigger] op_shape(op, sh.0, sh.1).1[j]) < 3 by {
                        assert(op_shape(op, sh.0, sh.1).1 == seq![0u32, 1u32, 2u32]);
                    }
                }
            },
            MeshOperation::AddTriSquare(..) => {
                n_hat = 4;
                t_hat = 2;
                proof {
                    assert forall|j: int| 0 <= j < op_shape(op, sh.0, sh.1).1.len() implies (
                    #[trigger] op_shape(op, sh.0, sh.1).1[j]) < 4 by {
                        assert(op_shape(op, sh.0, sh.1).1 == seq![
                            1u32,
                            2u32,
                            3u32,
                            1u32,
                            3u32,
                            0u32,
                        ]);
                    }
                }
            },
            MeshOperation::AddTriangleGrid(_, s) | MeshOperation::AddTriSquareGrid(_, s) => {
                if (s as u64) + 1 > 0x1_0000 {
                    return false;
                }
                let num: u64 = (s as u64) + 1;
                proof {
                    assert((num as int) * (num as int) <= 0x1_0000_0000) by (nonlinear_arith)
                        requires
                            0 < num as int <= 0x1_0000,
                    ;
                }
                if num * num > u32::MAX as u64 + 1 {
                    return false;
                }
                n_hat = num * num;
                t_hat = 2 * (num * num);
                proof {
                    let numi = s as int + 1;
                    lemma_grid_inds_valid(numi, numi * numi, true);
                    lemma_grid_inds_valid(numi, numi * numi, false);
                    lemma_grid_inds_len_bound(numi, numi * numi, true);
                    lemma_grid_inds_len_bound(numi, numi * numi, false);
                    vstd::arithmetic::div_mod::lemma_div_is_ordered(
                        op_shape(op, sh.0, sh.1).1.len() as int,
                        6 * (numi * numi),
                        3,
                    );
                }
            },
            MeshOperation::Subdivide(it) | MeshOperation::FractalTerrain(it, ..) => {
                let mut j: u32 = 0;
                while j < it
                    invariant
                        j <= it,
                        0 <= sh.0,
                        valid_mesh(sh.0, sh.1),
                        subdivide_fits(sh.0, sh.1, j as int),
                        shape_refine(sh.0, sh.1, j as int).0 <= n_hat,
                        shape_refine(sh.0, sh.1, j as int).1.len() / 3 <= t_hat,
                    decreases it - j,
                {
                    if t_hat > (u64::MAX - n_hat) / 3 {
                        return false;
                    }
                    let next_n = n_hat + 3 * t_hat;
                    if next_n > u32::MAX as u64 {
                        return false;
                    }
                    if t_hat > u64::MAX / 4 {
                        return false;
                    }
                    proof {
                        let prev = shape_refine(sh.0, sh.1, j as int);
                        let tj = prev.1.len() as int / 3;
                        lemma_shape_pass_count(prev.0, prev.1, tj);
                        lemma_edge_key_set_len_bound(prev.1, tj);
                        assert(shape_refine(sh.0, sh.1, j as int + 1).0 <= next_n);
                        assert(shape_refine(sh.0, sh.1, j as int + 1).1.len() == 12 * tj);
                    }
                    n_hat = next_n;
                    t_hat = 4 * t_hat;
                    j = j + 1;
                }
                proof {
                    let vs = Seq::new(
                        sh.0 as nat,
                        |q: int| Vertex { pos: quad_zero(), normal: quad_zero() },
                    );
                    lemma_spec_subdivide_shape(vs, sh.1, it as int);
                }
            },
            _ => {},
        }
        i = i + 1;
    }
    true
}

/// Replaying the same operation list with the same seed yields identical
/// output buffers: the result is a function of the list and the seed alone.
/// Buffers are compared in canonical form — the one bit freedom the
/// platform keeps is the pattern carried by a NaN, which degenerate inputs
/// can propagate into the buffer.
pub proof fn lemma_pipeline_deterministic(
    ops: Seq<MeshOperation>,
    seed: u64,
    run1: (Seq<Vertex>, Seq<u32>),
    run2: (Seq<Vertex>, Seq<u32>),
)
    requires
        run1 == spec_generate(ops, seed),
        run2 == spec_generate(ops, seed),
    ensures
        run1 == run2,
{
}

} // verus!