//! The mesh-transforming operations and their execution semantics.
//!
//! An operation consumes the current vertex/index buffer together with the
//! shared random source and produces a new buffer.  Every operation's result
//! is pinned down exactly by a spec-level model, so a whole pipeline's
//! output is a fixed mathematical function of the operation list and the
//! seed.

use vstd::prelude::*;
use crate::displacement::{
    axis_draws, spec_displace_random, spec_displace_smooth, displace_random, displace_smooth,
};
use crate::edge::valid_mesh;
use crate::generators::{
    spec_add_triangle, spec_add_tri_square, spec_add_triangle_grid, spec_add_tri_square_grid,
    grid_inds_upto, lemma_grid_inds_valid, add_triangle, add_tri_square, add_triangle_grid,
    add_tri_square_grid,
};
use crate::rng::RandomSource;
use crate::smoothing::{spec_smooth, lemma_spec_smooth_len, smooth};
use crate::subdivision::{
    spec_subdivide, spec_fractal, shape_refine, subdivide_fits, lemma_spec_subdivide_shape,
    lemma_spec_fractal_shape, subdivide, fractal_terrain,
};
use crate::scalar::norm_bits;
use crate::vertex::{Vertex, norm_verts};
pub use crate::wireframe::wireframe_indices;

verus! {

/// What the surrounding editor asked for after showing one pipeline stage.
#[derive(Clone, Copy, PartialEq, Eq, Structural, Debug)]
pub enum ShowResponse {
    NoChange,
    Delete,
    MoveUp,
    MoveDown,
    GenerateUpToThis,
}

/// Which of the three axes an operation displaces.
#[derive(Clone, Copy, PartialEq, Eq, Structural, Debug)]
pub struct AxisMask {
    pub x: bool,
    pub y: bool,
    pub z: bool,
}

/// One mesh-transforming operation, with its parameters.  Scalar parameters
/// are single-precision bit patterns.
///
/// The two variants beginning with `_` are permanently disabled legacy
/// entries, kept only for historical numbering; executing them passes the
/// buffer through unchanged.  In particular the retired merge-cleanup's
/// removal of position-duplicate vertices is not performed.
#[derive(Clone, Copy, PartialEq, Eq, Structural, Debug)]
pub enum MeshOperation {
    /// size
    AddTriangle(u32),
    /// size
    AddTriSquare(u32),
    /// size, subdivisions
    AddTriangleGrid(u32, u32),
    /// size, subdivisions
    AddTriSquareGrid(u32, u32),
    /// subdivisions
    Subdivide(u32),
    /// subdivisions, smoothness
    _SubdivideSmooth(u32, u32),
    /// amount, axes
    DisplaceRandom(u32, AxisMask),
    /// amount, scale, octaves, axes
    DisplaceSmooth(u32, u32, u32, AxisMask),
    /// amount, iterations
    Smooth(u32, u32),
    _MergeCleanup,
    /// iterations, displacement start, displacement decay
    FractalTerrain(u32, u32, u32),
}

/// The caption shown for each operation variant.
pub open spec fn spec_caption(op: MeshOperation) -> Seq<char> {
    match op {
        MeshOperation::AddTriangle(..) => "Add Triangle"@,
        MeshOperation::AddTriSquare(..) => "Add Triangle Square"@,
        MeshOperation::AddTriangleGrid(..) => "Add Triangle Grid"@,
        MeshOperation::AddTriSquareGrid(..) => "Add Triangle Square Grid"@,
        MeshOperation::Subdivide(..) => "Subdivide"@,
        MeshOperation::_SubdivideSmooth(..) => "Subdivide Smooth"@,
        MeshOperation::DisplaceRandom(..) => "Displace Random"@,
        MeshOperation::DisplaceSmooth(..) => "Displace Smooth"@,
        MeshOperation::Smooth(..) => "Smooth"@,
        MeshOperation::_MergeCleanup => "Merge Cleanup"@,
        MeshOperation::FractalTerrain(..) => "Fractal Terrain"@,
    }
}

impl MeshOperation {
    /// The operation's display caption.
    pub fn caption(&self) -> (r: &'static str)
        ensures
            r@ == spec_caption(*self),
    {
        match self {
            MeshOperation::AddTriangle(..) => "Add Triangle",
            MeshOperation::AddTriSquare(..) => "Add Triangle Square",
            MeshOperation::AddTriangleGrid(..) => "Add Triangle Grid",
            MeshOperation::AddTriSquareGrid(..) => "Add Triangle Square Grid",
            MeshOperation::Subdivide(..) => "Subdivide",
            MeshOperation::_SubdivideSmooth(..) => "Subdivide Smooth",
            MeshOperation::DisplaceRandom(..) => "Displace Random",
            MeshOperation::DisplaceSmooth(..) => "Displace Smooth",
            MeshOperation::Smooth(..) => "Smooth",
            MeshOperation::_MergeCleanup => "Merge Cleanup",
            MeshOperation::FractalTerrain(..) => "Fractal Terrain",
        }
    }
}

/// One fresh operation of each active kind, with its default parameters, in
/// palette order; scalar defaults are single-precision bit patterns.
pub open spec fn spec_defaults() -> Seq<MeshOperation> {
    seq![
        MeshOperation::AddTriangle(0x40A0_0000u32),
        MeshOperation::AddTriSquare(0x40A0_0000u32),
        MeshOperation::AddTriangleGrid(0x4120_0000u32, 20u32),
        MeshOperation::AddTriSquareGrid(0x4120_0000u32, 20u32),
        MeshOperation::Subdivide(1u32),
        MeshOperation::DisplaceRandom(0x3E4C_CCCDu32, AxisMask { x: false, y: true, z: false }),
        MeshOperation::DisplaceSmooth(
            0x3F80_0000u32,
            0x3F80_0000u32,
            1u32,
            AxisMask { x: false, y: true, z: false },
        ),
        MeshOperation::Smooth(0x3F00_0000u32, 1u32),
        MeshOperation::FractalTerrain(6u32, 0x4000_0000u32, 0x4000_0000u32),
    ]
}

impl MeshOperation {
    /// The palette of addable operations: one of each active kind with its
    /// default parameters (sizes 5.0 and 10.0, amounts 0.2, 1.0 and 0.5,
    /// fractal start and decay 2.0).  The two disabled legacy variants are
    /// excluded.
    pub fn defaults() -> (r: Vec<MeshOperation>)
        ensures
            r@ == spec_defaults(),
    {
        let mut r: Vec<MeshOperation> = Vec::new();
        r.push(MeshOperation::AddTriangle(0x40A0_0000));
        r.push(MeshOperation::AddTriSquare(0x40A0_0000));
        r.push(MeshOperation::AddTriangleGrid(0x4120_0000, 20));
        r.push(MeshOperation::AddTriSquareGrid(0x4120_0000, 20));
        r.push(MeshOperation::Subdivide(1));
        r.push(MeshOperation::DisplaceRandom(0x3E4C_CCCD, AxisMask { x: false, y: true, z: false }));
        r.push(
            MeshOperation::DisplaceSmooth(
                0x3F80_0000,
                0x3F80_0000,
                1,
                AxisMask { x: false, y: true, z: false },
            ),
        );
        r.push(MeshOperation::Smooth(0x3F00_0000, 1));
        r.push(MeshOperation::FractalTerrain(6, 0x4000_0000, 0x4000_0000));
        proof {
            assert(r@ =~= spec_defaults());
        }
        r
    }
}

/// Applies one stage's editor response to the pipeline's operation list:
/// deletion removes the stage, the moves swap it with its neighbour where
/// one exists, and a generate request names the prefix length to rebuild,
/// leaving the list unchanged.
pub fn apply_response(
    operations: &mut Vec<MeshOperation>,
    index: usize,
    response: ShowResponse,
) -> (generate_upto: Option<usize>)
    requires
        index < old(operations)@.len(),
    ensures
        ({
            let before = old(operations)@;
            match response {
                ShowResponse::NoChange => final(operations)@ == before && generate_upto is None,
                ShowResponse::Delete => final(operations)@ == before.remove(index as int)
                    && generate_upto is None,
                ShowResponse::MoveUp => (if index > 0 {
                    final(operations)@ == before.update(index as int, before[index as int - 1])
                        .update(index as int - 1, before[index as int])
                } else {
                    final(operations)@ == before
                }) && generate_upto is None,
                ShowResponse::MoveDown => (if index + 1 < before.len() {
                    final(operations)@ == before.update(index as int, before[index as int + 1])
                        .update(index as int + 1, before[index as int])
                } else {
                    final(operations)@ == before
                }) && generate_upto is None,
                ShowResponse::GenerateUpToThis => final(operations)@ == before && generate_upto
                    == Some((index + 1) as usize),
            }
        }),
{
    let n = operations.len();
    match response {
        ShowResponse::NoChange => Option::None,
        ShowResponse::Delete => {
            operations.remove(index);
            Option::None
        },
        ShowResponse::MoveUp => {
            if index > 0 {
                let a = operations[index - 1];
                let b = operations[index];
                operations.set(index - 1, b);
                operations.set(index, a);
            }
            Option::None
        },
        ShowResponse::MoveDown => {
            if index + 1 < n {
                let a = operations[index];
                let b = operations[index + 1];
                operations.set(index, b);
                operations.set(index + 1, a);
            }
            Option::None
        },
        ShowResponse::GenerateUpToThis => Option::Some(index + 1),
    }
}

// ---------------------------------------------------------------------------
// Execution: one operation consumes the previous stage's buffer and the
// shared random source and produces the next buffer.
// ---------------------------------------------------------------------------

/// The buffer an operation produces and the stream position it leaves,
/// given the input buffer and the stream position it starts at.  Disabled
/// legacy variants pass the buffer through unchanged.
pub open spec fn spec_execute(
    op: MeshOperation,
    verts: Seq<Vertex>,
    inds: Seq<u32>,
    seed: u64,
    k0: int,
) -> (Seq<Vertex>, Seq<u32>, int) {
    match op {
        MeshOperation::AddTriangle(size) => (
            spec_add_triangle(norm_bits(size)).0,
            spec_add_triangle(norm_bits(size)).1,
            k0,
        ),
        MeshOperation::AddTriSquare(size) => (
            spec_add_tri_square(norm_bits(size)).0,
            spec_add_tri_square(norm_bits(size)).1,
            k0,
        ),
        MeshOperation::AddTriangleGrid(size, subdivisions) => (
            spec_add_triangle_grid(norm_bits(size), subdivisions).0,
            spec_add_triangle_grid(norm_bits(size), subdivisions).1,
            k0,
        ),
        MeshOperation::AddTriSquareGrid(size, subdivisions) => (
            spec_add_tri_square_grid(norm_bits(size), subdivisions).0,
            spec_add_tri_square_grid(norm_bits(size), subdivisions).1,
            k0,
        ),
        MeshOperation::Subdivide(iterations) => (
            spec_subdivide(verts, inds, iterations as int).0,
            spec_subdivide(verts, inds, iterations as int).1,
            k0,
        ),
        MeshOperation::_SubdivideSmooth(..) => (verts, inds, k0),
        MeshOperation::DisplaceRandom(amount, axes) => (
            spec_displace_random(verts, norm_bits(amount), axes, seed, k0),
            inds,
            k0 + verts.len() * axis_draws(axes),
        ),
        MeshOperation::DisplaceSmooth(amount, scale, octaves, axes) => (
            spec_displace_smooth(
                verts,
                norm_bits(amount),
                norm_bits(scale),
                octaves as int,
                axes,
                seed,
                k0,
            ),
            inds,
            k0 + octaves as int,
        ),
        MeshOperation::Smooth(amount, iterations) => (
            spec_smooth(verts, inds, norm_bits(amount), iterations as int),
            inds,
            k0,
        ),
        MeshOperation::_MergeCleanup => (verts, inds, k0),
        MeshOperation::FractalTerrain(iterations, disp, decay) => spec_fractal(
            verts,
            inds,
            iterations as int,
            norm_bits(disp),
            norm_bits(decay),
            seed,
            k0,
        ),
    }
}

/// The vertex count and index list an operation produces, as a function of
/// the input's alone: no operation's topology depends on vertex values or
/// on the random stream.
pub open spec fn op_shape(op: MeshOperation, n: int, inds: Seq<u32>) -> (int, Seq<u32>) {
    match op {
        MeshOperation::AddTriangle(..) => (3, seq![0u32, 1u32, 2u32]),
        MeshOperation::AddTriSquare(..) => (4, seq![1u32, 2u32, 3u32, 1u32, 3u32, 0u32]),
        MeshOperation::AddTriangleGrid(_, s) => (
            (s as int + 1) * (s as int + 1),
            grid_inds_upto(s as int + 1, (s as int + 1) * (s as int + 1), true),
        ),
        MeshOperation::AddTriSquareGrid(_, s) => (
            (s as int + 1) * (s as int + 1),
            grid_inds_upto(s as int + 1, (s as int + 1) * (s as int + 1), false),
        ),
        MeshOperation::Subdivide(it) => (
            shape_refine(n, inds, it as int).0,
            shape_refine(n, inds, it as int).1,
        ),
        MeshOperation::FractalTerrain(it, ..) => (
            shape_refine(n, inds, it as int).0,
            shape_refine(n, inds, it as int).1,
        ),
        _ => (n, inds),
    }
}

/// How many draws an operation consumes, again a function of the input's
/// shape alone.
pub open spec fn op_draws(op: MeshOperation, n: int, inds: Seq<u32>) -> int {
    match op {
        MeshOperation::DisplaceRandom(_, axes) => n * axis_draws(axes),
        MeshOperation::DisplaceSmooth(_, _, octaves, _) => octaves as int,
        MeshOperation::FractalTerrain(it, ..) => shape_refine(n, inds, it as int).2,
        _ => 0,
    }
}

/// What an operation asks of its input: valid connectivity where it reads
/// the triangles, and vertex counts that stay representable as 32-bit
/// indices where it creates vertices.
pub open spec fn op_fits(op: MeshOperation, n: int, inds: Seq<u32>) -> bool {
    match op {
        MeshOperation::AddTriangleGrid(_, s) => (s as int + 1) * (s as int + 1) <= u32::MAX as int
            + 1,
        MeshOperation::AddTriSquareGrid(_, s) => (s as int + 1) * (s as int + 1) <= u32::MAX as int
            + 1,
        MeshOperation::Subdivide(it) => valid_mesh(n, inds) && subdivide_fits(n, inds, it as int),
        MeshOperation::FractalTerrain(it, ..) => valid_mesh(n, inds) && subdivide_fits(
            n,
            inds,
            it as int,
        ),
        MeshOperation::Smooth(..) => valid_mesh(n, inds),
        _ => true,
    }
}

impl MeshOperation {
    /// Runs this operation on the given buffer with the shared random
    /// source.  The result, the draws consumed, and the output's shape are
    /// all pinned down exactly; connectivity stays valid.
    pub fn execute(
        &self,
        verts_in: Vec<Vertex>,
        inds_in: Vec<u32>,
        random: &mut RandomSource,
    ) -> (out: (Vec<Vertex>, Vec<u32>))
        requires
            op_fits(*self, verts_in@.len() as int, inds_in@),
        ensures
            ({
                let r = spec_execute(
                    *self,
                    norm_verts(verts_in@),
                    inds_in@,
                    old(random).seed(),
                    old(random).drawn(),
                );
                &&& norm_verts(out.0@) == r.0
                &&& out.0@.len() == r.0.len()
                &&& out.1@ == r.1
                &&& final(random).drawn() == r.2
                &&& final(random).seed() == old(random).seed()
                &&& r.2 == old(random).drawn() + op_draws(
                    *self,
                    verts_in@.len() as int,
                    inds_in@,
                )
                &&& r.0.len() == op_shape(*self, verts_in@.len() as int, inds_in@).0
                &&& r.1 == op_shape(*self, verts_in@.len() as int, inds_in@).1
                &&& (valid_mesh(verts_in@.len() as int, inds_in@) ==> valid_mesh(
                    r.0.len() as int,
                    r.1,
                ))
            }),
    {
        let ghost n0 = verts_in@.len() as int;
        let ghost inds0 = inds_in@;
        match *self {
            MeshOperation::AddTriangle(size) => {
                let out = add_triangle(size);
                proof {
                    assert forall|j: int|
                        0 <= j < spec_add_triangle(norm_bits(size)).1.len() implies (
                    #[trigger] spec_add_triangle(norm_bits(size)).1[j]) < 3 by {
                        assert(spec_add_triangle(norm_bits(size)).1 == seq![0u32, 1u32, 2u32]);
                    }
                }
                out
            },
            MeshOperation::AddTriSquare(size) => {
                let out = add_tri_square(size);
                proof {
                    assert forall|j: int|
                        0 <= j < spec_add_tri_square(norm_bits(size)).1.len() implies (
                    #[trigger] spec_add_tri_square(norm_bits(size)).1[j]) < 4 by {
                        assert(spec_add_tri_square(norm_bits(size)).1 == seq![
                            1u32,
                            2u32,
                            3u32,
                            1u32,
                            3u32,
                            0u32,
                        ]);
                    }
                }
                out
            },
            MeshOperation::AddTriangleGrid(size, subdivisions) => {
                let out = add_triangle_grid(size, subdivisions);
                proof {
                    lemma_grid_inds_valid(
                        subdivisions as int + 1,
                        (subdivisions as int + 1) * (subdivisions as int + 1),
                        true,
                    );
                }
                out
            },
            MeshOperation::AddTriSquareGrid(size, subdivisions) => {
                let out = add_tri_square_grid(size, subdivisions);
                proof {
                    lemma_grid_inds_valid(
                        subdivisions as int + 1,
                        (subdivisions as int + 1) * (subdivisions as int + 1),
                        false,
                    );
                }
                out
            },
            MeshOperation::Subdivide(iterations) => {
                proof {
                    lemma_spec_subdivide_shape(norm_verts(verts_in@), inds_in@, iterations as int);
                }
                subdivide(verts_in, inds_in, iterations, random)
            },
            MeshOperation::_SubdivideSmooth(..) => (verts_in, inds_in),
            MeshOperation::DisplaceRandom(amount, axes) => displace_random(
                verts_in,
                inds_in,
                amount,
                axes,
                random,
            ),
            MeshOperation::DisplaceSmooth(amount, scale, octaves, axes) => displace_smooth(
                verts_in,
                inds_in,
                amount,
                scale,
                octaves,
                axes,
                random,
            ),
            MeshOperation::Smooth(amount, iterations) => {
                proof {
                    lemma_spec_smooth_len(
                        norm_verts(verts_in@),
                        inds_in@,
                        norm_bits(amount),
                        iterations as int,
                    );
                }
                smooth(verts_in, inds_in, amount, iterations)
            },
            MeshOperation::_MergeCleanup => (verts_in, inds_in),
            MeshOperation::FractalTerrain(iterations, disp, decay) => {
                proof {
                    lemma_spec_fractal_shape(
                        norm_verts(verts_in@),
                        inds_in@,
                        iterations as int,
                        norm_bits(disp),
                        norm_bits(decay),
                        random.seed(),
                        random.drawn(),
                    );
                }
                fractal_terrain(verts_in, inds_in, iterations, disp, decay, random)
            },
        }
    }
}

} // verus!
