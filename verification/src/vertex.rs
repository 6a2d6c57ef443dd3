//! The mesh's vertex: a homogeneous position and a homogeneous normal,
//! each four single-precision scalars held as bit patterns.

use vstd::prelude::*;
use crate::scalar::{add_bits, mul_bits, norm_bits, f_add, f_mul, BITS_ZERO, BITS_HALF, BITS_ONE};

verus! {

/// Four single-precision scalars, held as IEEE 754 bit patterns.
#[derive(Clone, Copy, PartialEq, Eq, Structural, Debug)]
pub struct Quad {
    pub x: u32,
    pub y: u32,
    pub z: u32,
    pub w: u32,
}

/// A mesh vertex: homogeneous position (w is 1.0 outside interpolation) and
/// homogeneous normal (w carries the accumulation weight).
#[derive(Clone, Copy, PartialEq, Eq, Structural, Debug)]
pub struct Vertex {
    pub pos: Quad,
    pub normal: Quad,
}

/// A quad with every component in canonical form.
pub open spec fn norm_quad(q: Quad) -> Quad {
    Quad { x: norm_bits(q.x), y: norm_bits(q.y), z: norm_bits(q.z), w: norm_bits(q.w) }
}

/// A vertex with every scalar in canonical form.
pub open spec fn norm_vertex(v: Vertex) -> Vertex {
    Vertex { pos: norm_quad(v.pos), normal: norm_quad(v.normal) }
}

/// A vertex buffer with every scalar in canonical form.
pub open spec fn norm_verts(s: Seq<Vertex>) -> Seq<Vertex> {
    Seq::new(s.len(), |i: int| norm_vertex(s[i]))
}

/// A quad buffer with every scalar in canonical form.
pub open spec fn norm_quads(s: Seq<Quad>) -> Seq<Quad> {
    Seq::new(s.len(), |i: int| norm_quad(s[i]))
}

/// A quad of four zero scalars: a normal before accumulation starts.
pub open spec fn quad_zero() -> Quad {
    Quad { x: BITS_ZERO, y: BITS_ZERO, z: BITS_ZERO, w: BITS_ZERO }
}

/// Componentwise single-precision sum of two quads.
pub open spec fn quad_add(a: Quad, b: Quad) -> Quad {
    Quad {
        x: add_bits(a.x, b.x),
        y: add_bits(a.y, b.y),
        z: add_bits(a.z, b.z),
        w: add_bits(a.w, b.w),
    }
}

/// Componentwise single-precision sum of two quads.
pub(crate) fn quad_add_exec(a: Quad, b: Quad) -> (r: Quad)
    ensures
        norm_quad(r) == quad_add(norm_quad(a), norm_quad(b)),
{
    Quad { x: f_add(a.x, b.x), y: f_add(a.y, b.y), z: f_add(a.z, b.z), w: f_add(a.w, b.w) }
}

/// The midpoint quad: each component is the average of the two endpoints',
/// computed as `a*0.5 + b*0.5` in single precision.
pub open spec fn spec_mid(a: Quad, b: Quad) -> Quad {
    Quad {
        x: add_bits(mul_bits(a.x, BITS_HALF), mul_bits(b.x, BITS_HALF)),
        y: add_bits(mul_bits(a.y, BITS_HALF), mul_bits(b.y, BITS_HALF)),
        z: add_bits(mul_bits(a.z, BITS_HALF), mul_bits(b.z, BITS_HALF)),
        w: add_bits(mul_bits(a.w, BITS_HALF), mul_bits(b.w, BITS_HALF)),
    }
}

impl Vertex {
    /// A finalized vertex: position (x, y, z, 1.0), normal (nx, ny, nz, 1.0).
    pub fn new(x: u32, y: u32, z: u32, nx: u32, ny: u32, nz: u32) -> (r: Vertex)
        ensures
            r == (Vertex {
                pos: Quad { x, y, z, w: BITS_ONE },
                normal: Quad { x: nx, y: ny, z: nz, w: BITS_ONE },
            }),
    {
        Vertex {
            pos: Quad { x, y, z, w: BITS_ONE },
            normal: Quad { x: nx, y: ny, z: nz, w: BITS_ONE },
        }
    }

    /// The edge-midpoint vertex: position averaged component by component,
    /// normal inherited from the first endpoint (it is recomputed by the
    /// normal-accumulation pass anyway).
    pub fn mid_ignore_normals(one: Vertex, two: Vertex) -> (r: Vertex)
        ensures
            norm_vertex(r) == (Vertex {
                pos: spec_mid(norm_quad(one.pos), norm_quad(two.pos)),
                normal: norm_quad(one.normal),
            }),
    {
        Vertex {
            pos: Quad {
                x: f_add(f_mul(one.pos.x, BITS_HALF), f_mul(two.pos.x, BITS_HALF)),
                y: f_add(f_mul(one.pos.y, BITS_HALF), f_mul(two.pos.y, BITS_HALF)),
                z: f_add(f_mul(one.pos.z, BITS_HALF), f_mul(two.pos.z, BITS_HALF)),
                w: f_add(f_mul(one.pos.w, BITS_HALF), f_mul(two.pos.w, BITS_HALF)),
            },
            normal: one.normal,
        }
    }
}

} // verus!
