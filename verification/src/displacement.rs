//! Displacement: uniform random shifts and coherent-noise shifts.

use vstd::prelude::*;
use crate::mesh_operation::AxisMask;
use crate::noise_field::{NoiseField, simplex_at, sim_coord_ok, coord_ok, lemma_coord_ok_norm};
use crate::rng::{RandomSource, stream_at};
use crate::scalar::{
    add_bits, mul_bits, sub_bits, div_bits, from_u32_bits, widen_bits, narrow_bits, dmul_bits,
    norm_bits, norm64_bits, f_add, f_sub, f_mul, f_div, f_from_u32, f_widen, f_narrow, d_mul,
    BITS_ZERO, BITS_HALF, BITS_ONE, BITS_NAN, DBITS_ONE, DBITS_TWO,
};
use crate::vertex::{Quad, Vertex, norm_quad, norm_vertex, norm_verts};

verus! {

// ---------------------------------------------------------------------------
// Random displacement: each enabled axis of each vertex, in vertex order and
// x, y, z axis order, is shifted by `draw/(2^32-1) * amount` — one draw per
// enabled axis per vertex, so the draw always lies in [0, 1].
// ---------------------------------------------------------------------------

/// How many draws one vertex consumes: one per enabled axis.
pub open spec fn axis_draws(axes: AxisMask) -> int {
    (if axes.x { 1int } else { 0int }) + (if axes.y { 1int } else { 0int }) + (if axes.z {
        1int
    } else {
        0int
    })
}

/// The shift added to one coordinate: the draw mapped into [0, 1] and
/// scaled by the amount.
pub open spec fn spec_rand_shift(draw: u32, amount: u32) -> u32 {
    mul_bits(div_bits(from_u32_bits(draw), from_u32_bits(0xFFFF_FFFFu32)), amount)
}

/// One vertex displaced along its enabled axes, consuming the stream from
/// position `k` on.
pub open spec fn spec_displace_vertex(
    v: Vertex,
    amount: u32,
    axes: AxisMask,
    seed: u64,
    k: int,
) -> Vertex {
    let p0 = v.pos;
    let p1 = if axes.x {
        Quad { x: add_bits(p0.x, spec_rand_shift(stream_at(seed, k), amount)), y: p0.y, z: p0.z, w: p0.w }
    } else {
        p0
    };
    let ky = k + (if axes.x { 1int } else { 0int });
    let p2 = if axes.y {
        Quad { x: p1.x, y: add_bits(p1.y, spec_rand_shift(stream_at(seed, ky), amount)), z: p1.z, w: p1.w }
    } else {
        p1
    };
    let kz = ky + (if axes.y { 1int } else { 0int });
    let p3 = if axes.z {
        Quad { x: p2.x, y: p2.y, z: add_bits(p2.z, spec_rand_shift(stream_at(seed, kz), amount)), w: p2.w }
    } else {
        p2
    };
    Vertex { pos: p3, normal: v.normal }
}

/// Every vertex displaced in order; vertex `i` starts at stream position
/// `k0 + i * axis_draws(axes)`.
pub open spec fn spec_displace_random(
    verts: Seq<Vertex>,
    amount: u32,
    axes: AxisMask,
    seed: u64,
    k0: int,
) -> Seq<Vertex> {
    Seq::new(verts.len(), |i: int| spec_displace_vertex(verts[i], amount, axes, seed, k0 + i * axis_draws(axes)))
}

/// Shifts every vertex by an independent uniform draw along each enabled
/// axis; topology unchanged.
pub(crate) fn displace_random(
    verts_in: Vec<Vertex>,
    inds_in: Vec<u32>,
    amount: u32,
    axes: AxisMask,
    random: &mut RandomSource,
) -> (out: (Vec<Vertex>, Vec<u32>))
    ensures
        norm_verts(out.0@) == spec_displace_random(
            norm_verts(verts_in@),
            norm_bits(amount),
            axes,
            old(random).seed(),
            old(random).drawn(),
        ),
        out.0@.len() == verts_in@.len(),
        out.1@ == inds_in@,
        final(random).seed() == old(random).seed(),
        final(random).drawn() == old(random).drawn() + verts_in@.len() * axis_draws(axes),
{
    let ghost verts0 = verts_in@;
    let ghost seed = random.seed();
    let ghost k0 = random.drawn();
    let mut verts = verts_in;

    let n = verts.len();
    let mut i: usize = 0;
    while i < n
        invariant
            i <= n,
            n == verts0.len(),
            verts@.len() == verts0.len(),
            forall|j: int| 0 <= j < i ==> norm_vertex(#[trigger] verts@[j])
                == spec_displace_vertex(
                norm_vertex(verts0[j]),
                norm_bits(amount),
                axes,
                seed,
                k0 + j * axis_draws(axes),
            ),
            forall|j: int| i <= j < verts0.len() ==> verts@[j] == verts0[j],
            random.seed() == seed,
            random.drawn() == k0 + i * axis_draws(axes),
        decreases n - i,
    {
        let mut v = verts[i];
        if axes.x {
            let draw = random.next_u32();
            v.pos.x = f_add(v.pos.x, f_mul(f_div(f_from_u32(draw), f_from_u32(0xFFFF_FFFFu32)), amount));
        }
        if axes.y {
            let draw = random.next_u32();
            v.pos.y = f_add(v.pos.y, f_mul(f_div(f_from_u32(draw), f_from_u32(0xFFFF_FFFFu32)), amount));
        }
        if axes.z {
            let draw = random.next_u32();
            v.pos.z = f_add(v.pos.z, f_mul(f_div(f_from_u32(draw), f_from_u32(0xFFFF_FFFFu32)), amount));
        }
        verts.set(i, v);
        proof {
            assert(norm_vertex(v) == spec_displace_vertex(
                norm_vertex(verts0[i as int]),
                norm_bits(amount),
                axes,
                seed,
                k0 + i * axis_draws(axes),
            ));
            assert(k0 + i * axis_draws(axes) + axis_draws(axes) == k0 + (i + 1) * axis_draws(axes)) by (nonlinear_arith);
        }
        i = i + 1;
    }
    proof {
        assert(norm_verts(verts@) =~= spec_displace_random(
            norm_verts(verts0),
            norm_bits(amount),
            axes,
            seed,
            k0,
        ));
    }
    (verts, inds_in)
}

// ---------------------------------------------------------------------------
// Smooth displacement: one independent simplex-noise field per octave, each
// seeded from a draw of the shared stream before any vertex is visited.
// Each enabled axis of each vertex is shifted by the weighted fractal sum of
// all octave fields sampled at the vertex's position scaled by 1/scale, with
// the frequency doubling and the amplitude halving per octave, normalised by
// the sum of the weights and scaled by the amount.
// ---------------------------------------------------------------------------

/// The amplitude weight of octave `o`: `0.5^o` accumulated in single
/// precision.
pub open spec fn octave_weight(o: int) -> u32
    decreases o,
{
    if o <= 0 {
        BITS_ONE
    } else {
        mul_bits(octave_weight(o - 1), BITS_HALF)
    }
}

/// The frequency factor of octave `o`: `2^o` accumulated in double
/// precision.
pub open spec fn octave_freq(o: int) -> u64
    decreases o,
{
    if o <= 0 {
        DBITS_ONE
    } else {
        dmul_bits(octave_freq(o - 1), DBITS_TWO)
    }
}

/// The sum of the first `n` octave weights, accumulated in order.
pub open spec fn octave_weight_sum(n: int) -> u32
    decreases n,
{
    if n <= 0 {
        BITS_ZERO
    } else {
        add_bits(octave_weight_sum(n - 1), octave_weight(n - 1))
    }
}

/// One octave's contribution at a scaled sample point: the narrowed field
/// sample where the point lies in the sampler's domain, and the canonical
/// NaN outside it — the sampler is never called out of its domain, and the
/// pipeline propagates the NaN as it does every other degenerate value.
pub open spec fn octave_sample(seed_o: u32, sx: u64, sy: u64, sz: u64) -> u32 {
    if sim_coord_ok(sx) && sim_coord_ok(sy) && sim_coord_ok(sz) {
        narrow_bits(simplex_at(seed_o, sx, sy, sz))
    } else {
        BITS_NAN
    }
}

/// The weighted sum of the first `n` octave samples at the point
/// `(px, py, pz)`; octave `o` is seeded from stream position `k0 + o` and
/// sampled at the point scaled by its frequency factor.
pub open spec fn octave_cum(px: u64, py: u64, pz: u64, seed: u64, k0: int, n: int) -> u32
    decreases n,
{
    if n <= 0 {
        BITS_ZERO
    } else {
        add_bits(
            octave_cum(px, py, pz, seed, k0, n - 1),
            mul_bits(
                octave_weight(n - 1),
                octave_sample(
                    stream_at(seed, k0 + n - 1),
                    dmul_bits(px, octave_freq(n - 1)),
                    dmul_bits(py, octave_freq(n - 1)),
                    dmul_bits(pz, octave_freq(n - 1)),
                ),
            ),
        )
    }
}

/// The shift added to one coordinate of a vertex at position `p`: the
/// normalised fractal sum at `p/scale`, scaled by the amount.
pub open spec fn noise_shift_spec(
    p: Quad,
    amount: u32,
    scale: u32,
    octaves: int,
    seed: u64,
    k0: int,
) -> u32 {
    let px = widen_bits(div_bits(p.x, scale));
    let py = widen_bits(div_bits(p.y, scale));
    let pz = widen_bits(div_bits(p.z, scale));
    mul_bits(
        div_bits(octave_cum(px, py, pz, seed, k0, octaves), octave_weight_sum(octaves)),
        amount,
    )
}

/// One vertex shifted along its enabled axes, each axis sampling the noise
/// at the vertex's position as already updated by the previous axes.
pub open spec fn spec_noise_vertex(
    v: Vertex,
    amount: u32,
    scale: u32,
    octaves: int,
    axes: AxisMask,
    seed: u64,
    k0: int,
) -> Vertex {
    let p0 = v.pos;
    let p1 = if axes.x {
        Quad {
            x: add_bits(p0.x, noise_shift_spec(p0, amount, scale, octaves, seed, k0)),
            y: p0.y,
            z: p0.z,
            w: p0.w,
        }
    } else {
        p0
    };
    let p2 = if axes.y {
        Quad {
            x: p1.x,
            y: add_bits(p1.y, noise_shift_spec(p1, amount, scale, octaves, seed, k0)),
            z: p1.z,
            w: p1.w,
        }
    } else {
        p1
    };
    let p3 = if axes.z {
        Quad {
            x: p2.x,
            y: p2.y,
            z: add_bits(p2.z, noise_shift_spec(p2, amount, scale, octaves, seed, k0)),
            w: p2.w,
        }
    } else {
        p2
    };
    Vertex { pos: p3, normal: v.normal }
}

/// Every vertex shifted by the octave fields seeded at stream positions
/// `k0` through `k0 + octaves - 1`.
pub open spec fn spec_displace_smooth(
    verts: Seq<Vertex>,
    amount: u32,
    scale: u32,
    octaves: int,
    axes: AxisMask,
    seed: u64,
    k0: int,
) -> Seq<Vertex> {
    Seq::new(
        verts.len(),
        |i: int| spec_noise_vertex(verts[i], amount, scale, octaves, axes, seed, k0),
    )
}

/// Samples all octave fields at `p/scale` and returns the normalised,
/// amount-scaled fractal sum.
fn noise_shift(
    fields: &Vec<NoiseField>,
    p: Quad,
    amount: u32,
    scale: u32,
    Ghost(seed): Ghost<u64>,
    Ghost(k0): Ghost<int>,
) -> (r: u32)
    requires
        forall|j: int| 0 <= j < fields@.len() ==> (#[trigger] fields@[j]).seed() == stream_at(
            seed,
            k0 + j,
        ),
    ensures
        norm_bits(r) == noise_shift_spec(
            norm_quad(p),
            norm_bits(amount),
            norm_bits(scale),
            fields@.len() as int,
            seed,
            k0,
        ),
{
    let ghost qx = widen_bits(div_bits(norm_bits(p.x), norm_bits(scale)));
    let ghost qy = widen_bits(div_bits(norm_bits(p.y), norm_bits(scale)));
    let ghost qz = widen_bits(div_bits(norm_bits(p.z), norm_bits(scale)));
    let px = f_widen(f_div(p.x, scale));
    let py = f_widen(f_div(p.y, scale));
    let pz = f_widen(f_div(p.z, scale));
    let mut sum: u32 = BITS_ZERO;
    let mut cum: u32 = BITS_ZERO;
    let mut weight: u32 = BITS_ONE;
    let mut freq: u64 = DBITS_ONE;
    let n = fields.len();
    let mut o: usize = 0;
    while o < n
        invariant
            o <= n,
            n == fields@.len(),
            forall|j: int| 0 <= j < fields@.len() ==> (#[trigger] fields@[j]).seed() == stream_at(
                seed,
                k0 + j,
            ),
            norm64_bits(px) == qx,
            norm64_bits(py) == qy,
            norm64_bits(pz) == qz,
            norm_bits(sum) == octave_weight_sum(o as int),
            norm_bits(cum) == octave_cum(qx, qy, qz, seed, k0, o as int),
            norm_bits(weight) == octave_weight(o as int),
            norm64_bits(freq) == octave_freq(o as int),
        decreases n - o,
    {
        sum = f_add(sum, weight);
        let sx = d_mul(px, freq);
        let sy = d_mul(py, freq);
        let sz = d_mul(pz, freq);
        proof {
            lemma_coord_ok_norm(sx);
            lemma_coord_ok_norm(sy);
            lemma_coord_ok_norm(sz);
        }
        let contribution: u32 = if coord_ok(sx) && coord_ok(sy) && coord_ok(sz) {
            let s = fields[o].sample(sx, sy, sz);
            f_narrow(s)
        } else {
            BITS_NAN
        };
        proof {
            assert(norm_bits(contribution) == octave_sample(
                stream_at(seed, k0 + o as int),
                dmul_bits(qx, octave_freq(o as int)),
                dmul_bits(qy, octave_freq(o as int)),
                dmul_bits(qz, octave_freq(o as int)),
            ));
        }
        cum = f_add(cum, f_mul(weight, contribution));
        weight = f_mul(weight, BITS_HALF);
        freq = d_mul(freq, DBITS_TWO);
        o = o + 1;
    }
    f_mul(f_div(cum, sum), amount)
}

/// Builds one noise field per octave from the shared stream, then shifts
/// every vertex's enabled axes by the fields' weighted fractal sum;
/// topology unchanged.  A scaled sample point outside the sampler's domain
/// (from a zero scale, a non-finite coordinate, or an enormous frequency)
/// contributes the canonical NaN in place of a sample, which propagates
/// through the sum like every other degenerate value.
pub(crate) fn displace_smooth(
    verts_in: Vec<Vertex>,
    inds_in: Vec<u32>,
    amount: u32,
    scale: u32,
    octaves: u32,
    axes: AxisMask,
    random: &mut RandomSource,
) -> (out: (Vec<Vertex>, Vec<u32>))
    ensures
        norm_verts(out.0@) == spec_displace_smooth(
            norm_verts(verts_in@),
            norm_bits(amount),
            norm_bits(scale),
            octaves as int,
            axes,
            old(random).seed(),
            old(random).drawn(),
        ),
        out.0@.len() == verts_in@.len(),
        out.1@ == inds_in@,
        final(random).seed() == old(random).seed(),
        final(random).drawn() == old(random).drawn() + octaves as int,
{
    let ghost verts0 = verts_in@;
    let ghost seed = random.seed();
    let ghost k0 = random.drawn();

    let mut fields: Vec<NoiseField> = Vec::new();
    let mut o: u32 = 0;
    while o < octaves
        invariant
            o <= octaves,
            fields@.len() == o as int,
            forall|j: int| 0 <= j < o as int ==> (#[trigger] fields@[j]).seed() == stream_at(
                seed,
                k0 + j,
            ),
            random.seed() == seed,
            random.drawn() == k0 + o as int,
        decreases octaves - o,
    {
        let field = NoiseField::from_random(random);
        fields.push(field);
        o = o + 1;
    }

    let mut verts = verts_in;
    let n = verts.len();
    let mut i: usize = 0;
    while i < n
        invariant
            i <= n,
            n == verts0.len(),
            verts@.len() == verts0.len(),
            fields@.len() == octaves as int,
            forall|j: int| 0 <= j < octaves as int ==> (#[trigger] fields@[j]).seed() == stream_at(
                seed,
                k0 + j,
            ),
            forall|j: int| 0 <= j < i ==> norm_vertex(#[trigger] verts@[j]) == spec_noise_vertex(
                norm_vertex(verts0[j]),
                norm_bits(amount),
                norm_bits(scale),
                octaves as int,
                axes,
                seed,
                k0,
            ),
            forall|j: int| i <= j < verts0.len() ==> verts@[j] == verts0[j],
            random.seed() == seed,
            random.drawn() == k0 + octaves as int,
        decreases n - i,
    {
        let mut v = verts[i];
        if axes.x {
            let shift = noise_shift(&fields, v.pos, amount, scale, Ghost(seed), Ghost(k0));
            v.pos.x = f_add(v.pos.x, shift);
        }
        if axes.y {
            let shift = noise_shift(&fields, v.pos, amount, scale, Ghost(seed), Ghost(k0));
            v.pos.y = f_add(v.pos.y, shift);
        }
        if axes.z {
            let shift = noise_shift(&fields, v.pos, amount, scale, Ghost(seed), Ghost(k0));
            v.pos.z = f_add(v.pos.z, shift);
        }
        verts.set(i, v);
        i = i + 1;
    }
    proof {
        assert(norm_verts(verts@) =~= spec_displace_smooth(
            norm_verts(verts0),
            norm_bits(amount),
            norm_bits(scale),
            octaves as int,
            axes,
            seed,
            k0,
        ));
    }
    (verts, inds_in)
}

} // verus!
