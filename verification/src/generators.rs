//! Primitive generators: a single triangle, a two-triangle square, and the
//! two lattice grids.  Generators ignore any incoming buffer and emit a
//! fresh one from their parameters alone.

use vstd::prelude::*;
use crate::scalar::{
    sub_bits, mul_bits, div_bits, sqrt_bits, neg_bits, from_u32_bits, norm_bits, f_sub, f_mul,
    f_div, f_sqrt, f_neg, f_from_u32, BITS_ZERO, BITS_HALF, BITS_NEG_HALF, BITS_ONE, BITS_TWO,
    BITS_THREE, BITS_SIX,
};
use crate::vertex::{Quad, Vertex, norm_vertex, norm_verts};

verus! {

/// The single equilateral triangle emitted for the given edge length,
/// centred at the origin in the XZ plane.
pub open spec fn spec_add_triangle(size: u32) -> (Seq<Vertex>, Seq<u32>) {
    let s3 = sqrt_bits(BITS_THREE);
    let z_back = mul_bits(div_bits(neg_bits(s3), BITS_SIX), size);
    let z_front = mul_bits(div_bits(s3, BITS_THREE), size);
    let v0 = Vertex {
        pos: Quad { x: mul_bits(BITS_NEG_HALF, size), y: BITS_ZERO, z: z_back, w: BITS_ONE },
        normal: Quad { x: BITS_ZERO, y: BITS_ZERO, z: BITS_ZERO, w: BITS_ONE },
    };
    let v1 = Vertex {
        pos: Quad { x: mul_bits(BITS_HALF, size), y: BITS_ZERO, z: z_back, w: BITS_ONE },
        normal: Quad { x: BITS_ZERO, y: BITS_ZERO, z: BITS_ZERO, w: BITS_ONE },
    };
    let v2 = Vertex {
        pos: Quad { x: BITS_ZERO, y: BITS_ZERO, z: z_front, w: BITS_ONE },
        normal: Quad { x: BITS_ZERO, y: BITS_ZERO, z: BITS_ZERO, w: BITS_ONE },
    };
    (seq![v0, v1, v2], seq![0u32, 1u32, 2u32])
}

/// The unit-square pair of triangles emitted for the given edge length.
pub open spec fn spec_add_tri_square(size: u32) -> (Seq<Vertex>, Seq<u32>) {
    let lo = mul_bits(BITS_NEG_HALF, size);
    let hi = mul_bits(BITS_HALF, size);
    let n = Quad { x: BITS_ZERO, y: BITS_ZERO, z: BITS_ZERO, w: BITS_ONE };
    let v0 = Vertex { pos: Quad { x: lo, y: BITS_ZERO, z: lo, w: BITS_ONE }, normal: n };
    let v1 = Vertex { pos: Quad { x: hi, y: BITS_ZERO, z: lo, w: BITS_ONE }, normal: n };
    let v2 = Vertex { pos: Quad { x: hi, y: BITS_ZERO, z: hi, w: BITS_ONE }, normal: n };
    let v3 = Vertex { pos: Quad { x: lo, y: BITS_ZERO, z: hi, w: BITS_ONE }, normal: n };
    (seq![v0, v1, v2, v3], seq![1u32, 2u32, 3u32, 1u32, 3u32, 0u32])
}

pub(crate) fn add_triangle(size: u32) -> (out: (Vec<Vertex>, Vec<u32>))
    ensures
        norm_verts(out.0@) == spec_add_triangle(norm_bits(size)).0,
        out.0@.len() == spec_add_triangle(norm_bits(size)).0.len(),
        out.1@ == spec_add_triangle(norm_bits(size)).1,
{
    let mut verts_out: Vec<Vertex> = Vec::new();
    let mut inds_out: Vec<u32> = Vec::new();

    let s3 = f_sqrt(BITS_THREE);
    let z_back = f_mul(f_div(f_neg(s3), BITS_SIX), size);
    let z_front = f_mul(f_div(s3, BITS_THREE), size);

    verts_out.push(Vertex::new(f_mul(BITS_NEG_HALF, size), BITS_ZERO, z_back, BITS_ZERO, BITS_ZERO, BITS_ZERO));
    verts_out.push(Vertex::new(f_mul(BITS_HALF, size), BITS_ZERO, z_back, BITS_ZERO, BITS_ZERO, BITS_ZERO));
    verts_out.push(Vertex::new(BITS_ZERO, BITS_ZERO, z_front, BITS_ZERO, BITS_ZERO, BITS_ZERO));

    inds_out.push(0);
    inds_out.push(1);
    inds_out.push(2);

    proof {
        assert(norm_verts(verts_out@) =~= spec_add_triangle(norm_bits(size)).0);
        assert(inds_out@ =~= spec_add_triangle(norm_bits(size)).1);
    }
    (verts_out, inds_out)
}

pub(crate) fn add_tri_square(size: u32) -> (out: (Vec<Vertex>, Vec<u32>))
    ensures
        norm_verts(out.0@) == spec_add_tri_square(norm_bits(size)).0,
        out.0@.len() == spec_add_tri_square(norm_bits(size)).0.len(),
        out.1@ == spec_add_tri_square(norm_bits(size)).1,
{
    let mut verts_out: Vec<Vertex> = Vec::new();
    let mut inds_out: Vec<u32> = Vec::new();

    let lo = f_mul(BITS_NEG_HALF, size);
    let hi = f_mul(BITS_HALF, size);

    verts_out.push(Vertex::new(lo, BITS_ZERO, lo, BITS_ZERO, BITS_ZERO, BITS_ZERO));
    verts_out.push(Vertex::new(hi, BITS_ZERO, lo, BITS_ZERO, BITS_ZERO, BITS_ZERO));
    verts_out.push(Vertex::new(hi, BITS_ZERO, hi, BITS_ZERO, BITS_ZERO, BITS_ZERO));
    verts_out.push(Vertex::new(lo, BITS_ZERO, hi, BITS_ZERO, BITS_ZERO, BITS_ZERO));

    inds_out.push(1);
    inds_out.push(2);
    inds_out.push(3);
    inds_out.push(1);
    inds_out.push(3);
    inds_out.push(0);

    proof {
        assert(norm_verts(verts_out@) =~= spec_add_tri_square(norm_bits(size)).0);
        assert(inds_out@ =~= spec_add_tri_square(norm_bits(size)).1);
    }
    (verts_out, inds_out)
}

// ---------------------------------------------------------------------------
// Grid generators: a (subdivisions+1)² lattice of vertices in the XZ plane,
// each interior cell connected to its already-emitted neighbours as two
// triangles.  The triangle-grid variant shifts even columns by half a row
// step and alternates the diagonal by column parity; the square-grid
// variant uses one fixed diagonal.
// ---------------------------------------------------------------------------

/// The two triangles a lattice cell contributes (none on the first row or
/// column).  With `alternating`, odd columns flip the diagonal.
pub open spec fn grid_cell_inds(num: int, x: int, z: int, alternating: bool) -> Seq<u32> {
    if x == 0 || z == 0 {
        Seq::empty()
    } else {
        let idx = x * num + z;
        if !alternating || x % 2 == 0 {
            seq![
                idx as u32,
                (idx - num - 1) as u32,
                (idx - 1) as u32,
                idx as u32,
                (idx - num) as u32,
                (idx - num - 1) as u32,
            ]
        } else {
            seq![
                idx as u32,
                (idx - num) as u32,
                (idx - 1) as u32,
                (idx - num) as u32,
                (idx - num - 1) as u32,
                (idx - 1) as u32,
            ]
        }
    }
}

/// The indices of the first `k` lattice cells, in row-major emission order.
pub open spec fn grid_inds_upto(num: int, k: int, alternating: bool) -> Seq<u32>
    decreases k,
{
    if k <= 0 {
        Seq::empty()
    } else {
        grid_inds_upto(num, k - 1, alternating) + grid_cell_inds(
            num,
            (k - 1) / num,
            (k - 1) % num,
            alternating,
        )
    }
}

/// The lattice vertex of the triangle grid at column `x`, row `z`: even
/// columns are shifted by half a row step.
pub open spec fn tri_grid_vert(size: u32, subdivisions: u32, x: int, z: int) -> Vertex {
    let xw = div_bits(
        mul_bits(
            mul_bits(
                sub_bits(div_bits(from_u32_bits(x as u32), from_u32_bits(subdivisions)), BITS_HALF),
                size,
            ),
            sqrt_bits(BITS_THREE),
        ),
        BITS_TWO,
    );
    let shift = if x % 2 == 0 {
        BITS_HALF
    } else {
        BITS_ZERO
    };
    let zw = mul_bits(
        sub_bits(
            div_bits(sub_bits(from_u32_bits(z as u32), shift), from_u32_bits(subdivisions)),
            BITS_HALF,
        ),
        size,
    );
    Vertex {
        pos: Quad { x: xw, y: BITS_ZERO, z: zw, w: BITS_ONE },
        normal: Quad { x: BITS_ZERO, y: BITS_ZERO, z: BITS_ZERO, w: BITS_ONE },
    }
}

/// The lattice vertex of the square grid at column `x`, row `z`.
pub open spec fn square_grid_vert(size: u32, subdivisions: u32, x: int, z: int) -> Vertex {
    let num = (subdivisions + 1) as u32;
    let xw = mul_bits(sub_bits(div_bits(from_u32_bits(x as u32), from_u32_bits(num)), BITS_HALF), size);
    let zw = mul_bits(sub_bits(div_bits(from_u32_bits(z as u32), from_u32_bits(num)), BITS_HALF), size);
    Vertex {
        pos: Quad { x: xw, y: BITS_ZERO, z: zw, w: BITS_ONE },
        normal: Quad { x: BITS_ZERO, y: BITS_ZERO, z: BITS_ZERO, w: BITS_ONE },
    }
}

/// The whole triangle grid for the given size and subdivision count.
pub open spec fn spec_add_triangle_grid(size: u32, subdivisions: u32) -> (Seq<Vertex>, Seq<u32>) {
    let num = subdivisions as int + 1;
    (
        Seq::new((num * num) as nat, |i: int| tri_grid_vert(size, subdivisions, i / num, i % num)),
        grid_inds_upto(num, num * num, true),
    )
}

/// The whole square grid for the given size and subdivision count.
pub open spec fn spec_add_tri_square_grid(size: u32, subdivisions: u32) -> (Seq<Vertex>, Seq<u32>) {
    let num = subdivisions as int + 1;
    (
        Seq::new(
            (num * num) as nat,
            |i: int| square_grid_vert(size, subdivisions, i / num, i % num),
        ),
        grid_inds_upto(num, num * num, false),
    )
}

/// Every lattice cell contributes at most six indices.
pub proof fn lemma_grid_inds_len_bound(num: int, k: int, alternating: bool)
    requires
        0 <= k,
    ensures
        grid_inds_upto(num, k, alternating).len() <= 6 * k,
    decreases k,
{
    if k > 0 {
        lemma_grid_inds_len_bound(num, k - 1, alternating);
    }
}

/// Every index a grid emits points below `num * num`.
pub proof fn lemma_grid_inds_valid(num: int, k: int, alternating: bool)
    requires
        0 < num,
        0 <= k <= num * num,
    ensures
        forall|j: int| 0 <= j < grid_inds_upto(num, k, alternating).len()
            ==> (#[trigger] grid_inds_upto(num, k, alternating)[j]) < num * num,
        grid_inds_upto(num, k, alternating).len() % 6 == 0,
    decreases k,
{
    if k > 0 {
        lemma_grid_inds_valid(num, k - 1, alternating);
        let x = (k - 1) / num;
        let z = (k - 1) % num;
        assert(0 <= z < num);
        assert(0 <= x < num) by (nonlinear_arith)
            requires
                0 < num,
                0 < k <= num * num,
                x == (k - 1) / num,
        ;
        if x != 0 && z != 0 {
            assert(num + 1 <= x * num + z < num * num) by (nonlinear_arith)
                requires
                    0 < num,
                    1 <= x < num,
                    1 <= z < num,
            ;
            assert(x * num + z <= u32::MAX as int + 1 ==> ((x * num + z) as u32) as int == x * num
                + z || x * num + z == u32::MAX as int + 1);
        }
    }
}

/// Emits the lattice of `(subdivisions+1)²` vertices and the triangles of
/// its interior cells, shifting even columns and alternating diagonals.
pub(crate) fn add_triangle_grid(size: u32, subdivisions: u32) -> (out: (Vec<Vertex>, Vec<u32>))
    requires
        (subdivisions as int + 1) * (subdivisions as int + 1) <= u32::MAX as int + 1,
    ensures
        norm_verts(out.0@) == spec_add_triangle_grid(norm_bits(size), subdivisions).0,
        out.0@.len() == spec_add_triangle_grid(norm_bits(size), subdivisions).0.len(),
        out.1@ == spec_add_triangle_grid(norm_bits(size), subdivisions).1,
{
    let ghost nsize = norm_bits(size);
    let ghost numi = subdivisions as int + 1;
    proof {
        assert(numi <= 0x1_0000) by (nonlinear_arith)
            requires
                numi == subdivisions as int + 1,
                numi * numi <= u32::MAX as int + 1,
        ;
    }
    let num: u32 = subdivisions + 1;
    let mut verts_out: Vec<Vertex> = Vec::new();
    let mut inds_out: Vec<u32> = Vec::new();

    let mut x: u32 = 0;
    while x < num
        invariant
            x <= num,
            numi == num as int,
            numi * numi <= u32::MAX as int + 1,
            nsize == norm_bits(size),
            verts_out@.len() == x as int * numi,
            forall|i: int| 0 <= i < x as int * numi ==> norm_vertex(#[trigger] verts_out@[i])
                == tri_grid_vert(nsize, subdivisions, i / numi, i % numi),
            inds_out@ == grid_inds_upto(numi, x as int * numi, true),
        decreases num - x,
    {
        let x_world = f_div(
            f_mul(
                f_mul(f_sub(f_div(f_from_u32(x), f_from_u32(subdivisions)), BITS_HALF), size),
                f_sqrt(BITS_THREE),
            ),
            BITS_TWO,
        );
        let shift: u32 = if x % 2 == 0 {
            BITS_HALF
        } else {
            BITS_ZERO
        };
        let mut z: u32 = 0;
        while z < num
            invariant
                z <= num,
                x < num,
                numi == num as int,
                numi * numi <= u32::MAX as int + 1,
                nsize == norm_bits(size),
                shift == (if x as int % 2 == 0 { BITS_HALF } else { BITS_ZERO }),
                norm_bits(x_world) == tri_grid_vert(nsize, subdivisions, x as int, z as int).pos.x,
                verts_out@.len() == x as int * numi + z as int,
                forall|i: int| 0 <= i < x as int * numi + z as int ==> norm_vertex(
                    #[trigger] verts_out@[i],
                ) == tri_grid_vert(nsize, subdivisions, i / numi, i % numi),
                inds_out@ == grid_inds_upto(numi, x as int * numi + z as int, true),
            decreases num - z,
        {
            proof {
                assert((x as int) * numi + (z as int) < numi * numi && (x as int) * numi >= (
                x as int) && ((x as int) >= 1 ==> (x as int) * numi >= numi)) by (nonlinear_arith)
                    requires
                        0 < numi,
                        0 <= (x as int) < numi,
                        0 <= (z as int) < numi,
                ;
            }
            let z_world = f_mul(
                f_sub(f_div(f_sub(f_from_u32(z), shift), f_from_u32(subdivisions)), BITS_HALF),
                size,
            );
            verts_out.push(
                Vertex::new(x_world, BITS_ZERO, z_world, BITS_ZERO, BITS_ZERO, BITS_ZERO),
            );
            proof {
                vstd::arithmetic::div_mod::lemma_fundamental_div_mod_converse(
                    x as int * numi + z as int,
                    numi,
                    x as int,
                    z as int,
                );
            }

            if x != 0 && z != 0 {
                let index: u32 = x * num + z;
                if x % 2 == 0 {
                    inds_out.push(index);
                    inds_out.push(index - num - 1);
                    inds_out.push(index - 1);
                    inds_out.push(index);
                    inds_out.push(index - num);
                    inds_out.push(index - num - 1);
                } else {
                    inds_out.push(index);
                    inds_out.push(index - num);
                    inds_out.push(index - 1);
                    inds_out.push(index - num);
                    inds_out.push(index - num - 1);
                    inds_out.push(index - 1);
                }
                proof {
                    assert(inds_out@ =~= grid_inds_upto(numi, x as int * numi + z as int, true)
                        + grid_cell_inds(numi, x as int, z as int, true));
                }
            }
            proof {
                assert(grid_inds_upto(numi, x as int * numi + z as int + 1, true)
                    == grid_inds_upto(numi, x as int * numi + z as int, true) + grid_cell_inds(
                    numi,
                    x as int,
                    z as int,
                    true,
                )) by {
                    vstd::arithmetic::div_mod::lemma_fundamental_div_mod_converse(
                        x as int * numi + z as int,
                        numi,
                        x as int,
                        z as int,
                    );
                }
                if x == 0 || z == 0 {
                    assert(inds_out@ =~= grid_inds_upto(numi, x as int * numi + z as int, true)
                        + grid_cell_inds(numi, x as int, z as int, true));
                }
            }
            z = z + 1;
        }
        proof {
            assert((x as int) * numi + numi == ((x as int) + 1) * numi) by (nonlinear_arith);
        }
        x = x + 1;
    }
    proof {
        assert((numi * numi) as nat == numi * numi);
        assert(norm_verts(verts_out@) =~= spec_add_triangle_grid(nsize, subdivisions).0);
    }
    (verts_out, inds_out)
}

/// Emits the lattice of `(subdivisions+1)²` vertices and the triangles of
/// its interior cells, with one fixed diagonal.
pub(crate) fn add_tri_square_grid(size: u32, subdivisions: u32) -> (out: (Vec<Vertex>, Vec<u32>))
    requires
        (subdivisions as int + 1) * (subdivisions as int + 1) <= u32::MAX as int + 1,
    ensures
        norm_verts(out.0@) == spec_add_tri_square_grid(norm_bits(size), subdivisions).0,
        out.0@.len() == spec_add_tri_square_grid(norm_bits(size), subdivisions).0.len(),
        out.1@ == spec_add_tri_square_grid(norm_bits(size), subdivisions).1,
{
    let ghost nsize = norm_bits(size);
    let ghost numi = subdivisions as int + 1;
    proof {
        assert(numi <= 0x1_0000) by (nonlinear_arith)
            requires
                numi == subdivisions as int + 1,
                numi * numi <= u32::MAX as int + 1,
        ;
    }
    let num: u32 = subdivisions + 1;
    let mut verts_out: Vec<Vertex> = Vec::new();
    let mut inds_out: Vec<u32> = Vec::new();

    let mut x: u32 = 0;
    while x < num
        invariant
            x <= num,
            numi == num as int,
            numi == subdivisions as int + 1,
            numi <= 0x1_0000,
            numi * numi <= u32::MAX as int + 1,
            nsize == norm_bits(size),
            verts_out@.len() == x as int * numi,
            forall|i: int| 0 <= i < x as int * numi ==> norm_vertex(#[trigger] verts_out@[i])
                == square_grid_vert(nsize, subdivisions, i / numi, i % numi),
            inds_out@ == grid_inds_upto(numi, x as int * numi, false),
        decreases num - x,
    {
        let x_world = f_mul(f_sub(f_div(f_from_u32(x), f_from_u32(num)), BITS_HALF), size);
        let mut z: u32 = 0;
        while z < num
            invariant
                z <= num,
                x < num,
                numi == num as int,
                numi == subdivisions as int + 1,
                numi <= 0x1_0000,
                numi * numi <= u32::MAX as int + 1,
                nsize == norm_bits(size),
                norm_bits(x_world) == square_grid_vert(nsize, subdivisions, x as int, z as int).pos.x,
                verts_out@.len() == x as int * numi + z as int,
                forall|i: int| 0 <= i < x as int * numi + z as int ==> norm_vertex(
                    #[trigger] verts_out@[i],
                ) == square_grid_vert(nsize, subdivisions, i / numi, i % numi),
                inds_out@ == grid_inds_upto(numi, x as int * numi + z as int, false),
            decreases num - z,
        {
            proof {
                assert((x as int) * numi + (z as int) < numi * numi && (x as int) * numi >= (
                x as int) && ((x as int) >= 1 ==> (x as int) * numi >= numi)) by (nonlinear_arith)
                    requires
                        0 < numi,
                        0 <= (x as int) < numi,
                        0 <= (z as int) < numi,
                ;
            }
            let z_world = f_mul(f_sub(f_div(f_from_u32(z), f_from_u32(num)), BITS_HALF), size);
            verts_out.push(
                Vertex::new(x_world, BITS_ZERO, z_world, BITS_ZERO, BITS_ZERO, BITS_ZERO),
            );
            proof {
                vstd::arithmetic::div_mod::lemma_fundamental_div_mod_converse(
                    x as int * numi + z as int,
                    numi,
                    x as int,
                    z as int,
                );
            }

            if x != 0 && z != 0 {
                let index: u32 = x * num + z;
                inds_out.push(index);
                inds_out.push(index - num - 1);
                inds_out.push(index - 1);
                inds_out.push(index);
                inds_out.push(index - num);
                inds_out.push(index - num - 1);
                proof {
                    assert(inds_out@ =~= grid_inds_upto(numi, x as int * numi + z as int, false)
                        + grid_cell_inds(numi, x as int, z as int, false));
                }
            }
            proof {
                assert(grid_inds_upto(numi, x as int * numi + z as int + 1, false)
                    == grid_inds_upto(numi, x as int * numi + z as int, false) + grid_cell_inds(
                    numi,
                    x as int,
                    z as int,
                    false,
                )) by {
                    vstd::arithmetic::div_mod::lemma_fundamental_div_mod_converse(
                        x as int * numi + z as int,
                        numi,
                        x as int,
                        z as int,
                    );
                }
                if x == 0 || z == 0 {
                    assert(inds_out@ =~= grid_inds_upto(numi, x as int * numi + z as int, false)
                        + grid_cell_inds(numi, x as int, z as int, false));
                }
            }
            z = z + 1;
        }
        proof {
            assert((x as int) * numi + numi == ((x as int) + 1) * numi) by (nonlinear_arith);
        }
        x = x + 1;
    }
    proof {
        assert((numi * numi) as nat == numi * numi);
        assert(norm_verts(verts_out@) =~= spec_add_tri_square_grid(nsize, subdivisions).0);
    }
    (verts_out, inds_out)
}

} // verus!
