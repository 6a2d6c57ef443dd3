use noise::NoiseFn;
use noise::Simplex;
use rand::RngCore;
use rand::SeedableRng;
use terrapipe::mesh_operation::{AxisMask, MeshOperation};
use terrapipe::pipeline::generate_mesh;
use terrapipe::vertex::Vertex;

fn b(x: f32) -> u32 {
    x.to_bits()
}

fn f(bits: u32) -> f32 {
    f32::from_bits(bits)
}

fn pos(v: &Vertex) -> [f32; 4] {
    [f(v.pos.x), f(v.pos.y), f(v.pos.z), f(v.pos.w)]
}

fn normal(v: &Vertex) -> [f32; 4] {
    [f(v.normal.x), f(v.normal.y), f(v.normal.z), f(v.normal.w)]
}

const Y_ONLY: AxisMask = AxisMask { x: false, y: true, z: false };

#[test]
fn add_triangle_positions_exact() {
    let ops = vec![MeshOperation::AddTriangle(b(5.0))];
    let (verts, inds, _) = generate_mesh(&ops, 0);
    assert_eq!(verts.len(), 3);
    assert_eq!(inds, vec![0, 1, 2]);

    let size = 5.0f32;
    let z_back = -3f32.sqrt() / 6.0 * size;
    let z_front = 3f32.sqrt() / 3.0 * size;
    assert_eq!(pos(&verts[0]), [-0.5 * size, 0.0, z_back, 1.0]);
    assert_eq!(pos(&verts[1]), [0.5 * size, 0.0, z_back, 1.0]);
    assert_eq!(pos(&verts[2]), [0.0, 0.0, z_front, 1.0]);
}

#[test]
fn flat_triangle_normals_identical_and_downward() {
    // A single flat triangle in the XZ plane: after normal accumulation all
    // three corners carry the same unit normal along the Y axis.
    let ops = vec![MeshOperation::AddTriangle(b(5.0))];
    let (verts, _, _) = generate_mesh(&ops, 0);
    let n0 = (verts[0].normal.x, verts[0].normal.y, verts[0].normal.z);
    let n1 = (verts[1].normal.x, verts[1].normal.y, verts[1].normal.z);
    let n2 = (verts[2].normal.x, verts[2].normal.y, verts[2].normal.z);
    assert_eq!(n0, n1);
    assert_eq!(n1, n2);
    assert_eq!(f(verts[0].normal.y), -1.0);
    assert_eq!(f(verts[0].normal.x), 0.0);
    assert_eq!(f(verts[0].normal.z).abs(), 0.0);
    // One incident triangle per corner: the accumulated weight is 1.
    assert_eq!(normal(&verts[0])[3], 1.0);
}

#[test]
fn end_to_end_single_triangle() {
    // AddTriangle(5.0) followed by the normal pass: 3 vertices, 1 triangle,
    // identical normals at all corners.
    let ops = vec![MeshOperation::AddTriangle(b(5.0))];
    let (verts, inds, seed) = generate_mesh(&ops, 9);
    assert_eq!(seed, 9);
    assert_eq!(verts.len(), 3);
    assert_eq!(inds.len(), 3);
    assert_eq!(verts[0].normal, verts[1].normal);
    assert_eq!(verts[1].normal, verts[2].normal);
}

#[test]
fn subdivide_triangle_counts_and_exact_midpoints() {
    let ops = vec![MeshOperation::AddTriangle(b(4.0)), MeshOperation::Subdivide(1)];
    let (verts, inds, _) = generate_mesh(&ops, 0);
    assert_eq!(verts.len(), 6, "one subdivision of a triangle adds one midpoint per edge");
    assert_eq!(inds.len(), 12, "one subdivision of a triangle yields four triangles");

    let base = vec![MeshOperation::AddTriangle(b(4.0))];
    let (orig, _, _) = generate_mesh(&base, 0);
    for (m, (a, bb)) in [(3, (0, 1)), (4, (1, 2)), (5, (2, 0))] {
        let pa = pos(&orig[a]);
        let pb = pos(&orig[bb]);
        let got = pos(&verts[m]);
        for c in 0..4 {
            assert_eq!(got[c].to_bits(), (pa[c] * 0.5 + pb[c] * 0.5).to_bits());
        }
    }
}

#[test]
fn subdivide_quad_creates_five_midpoints() {
    let ops = vec![MeshOperation::AddTriSquare(b(2.0)), MeshOperation::Subdivide(1)];
    let (verts, inds, _) = generate_mesh(&ops, 0);
    assert_eq!(verts.len(), 9, "the shared edge's midpoint is created once, not twice");
    assert_eq!(inds.len(), 24);
}

#[test]
fn smooth_zero_amount_is_identity_on_positions() {
    let plain = vec![MeshOperation::AddTriSquare(b(3.0)), MeshOperation::Subdivide(2)];
    let smoothed = vec![
        MeshOperation::AddTriSquare(b(3.0)),
        MeshOperation::Subdivide(2),
        MeshOperation::Smooth(b(0.0), 4),
    ];
    let (v1, i1, _) = generate_mesh(&plain, 0);
    let (v2, i2, _) = generate_mesh(&smoothed, 0);
    assert_eq!(i1, i2);
    assert_eq!(v1.len(), v2.len());
    for (a, bb) in v1.iter().zip(v2.iter()) {
        assert_eq!(pos(a), pos(bb));
    }
}

#[test]
fn smooth_full_amount_moves_to_neighbour_average() {
    let base = vec![MeshOperation::AddTriangle(b(6.0))];
    let (orig, _, _) = generate_mesh(&base, 0);
    let ops = vec![MeshOperation::AddTriangle(b(6.0)), MeshOperation::Smooth(b(1.0), 1)];
    let (verts, _, _) = generate_mesh(&ops, 0);

    // In a lone triangle each vertex hears from its two neighbours once.
    for i in 0..3usize {
        let j = (i + 1) % 3;
        let k = (i + 2) % 3;
        let (pi, pj, pk) = (pos(&orig[i]), pos(&orig[j]), pos(&orig[k]));
        let got = pos(&verts[i]);
        for c in 0..3 {
            // The accumulator sums homogeneous positions, so the average is
            // the component sum divided by the summed unit weights.
            let target = (pj[c] + pk[c]) / 2.0;
            let expect = 1.0f32 * target + (1.0 - 1.0f32) * pi[c];
            assert_eq!(got[c].to_bits(), expect.to_bits());
        }
    }
}

#[test]
fn fractal_zero_displacement_matches_subdivide() {
    let frac = vec![
        MeshOperation::AddTriangle(b(5.0)),
        MeshOperation::FractalTerrain(2, b(0.0), b(2.0)),
    ];
    let sub = vec![MeshOperation::AddTriangle(b(5.0)), MeshOperation::Subdivide(2)];
    let (v1, i1, _) = generate_mesh(&frac, 11);
    let (v2, i2, _) = generate_mesh(&sub, 11);
    assert_eq!(i1, i2, "zero displacement leaves the topology of plain subdivision");
    assert_eq!(v1.len(), v2.len());
    for (a, bb) in v1.iter().zip(v2.iter()) {
        assert_eq!(pos(a), pos(bb), "midpoint positions match exactly");
    }
}

#[test]
fn displace_random_follows_the_seeded_stream() {
    let ops = vec![
        MeshOperation::AddTriangle(b(2.0)),
        MeshOperation::DisplaceRandom(b(1.5), Y_ONLY),
    ];
    let (verts, _, _) = generate_mesh(&ops, 42);

    let base = vec![MeshOperation::AddTriangle(b(2.0))];
    let (orig, _, _) = generate_mesh(&base, 42);

    let mut rng = rand::rngs::StdRng::seed_from_u64(42);
    for i in 0..3usize {
        let draw = rng.next_u32();
        let expect = f(orig[i].pos.y) + (draw as f32 / u32::MAX as f32) * 1.5f32;
        assert_eq!(f(verts[i].pos.y).to_bits(), expect.to_bits());
        assert_eq!(verts[i].pos.x, orig[i].pos.x);
        assert_eq!(verts[i].pos.z, orig[i].pos.z);
    }
}

#[test]
fn displace_smooth_matches_noise_fields() {
    let ops = vec![
        MeshOperation::AddTriangle(b(3.0)),
        MeshOperation::DisplaceSmooth(b(1.0), b(1.0), 2, Y_ONLY),
    ];
    let (verts, _, _) = generate_mesh(&ops, 5);

    let base = vec![MeshOperation::AddTriangle(b(3.0))];
    let (orig, _, _) = generate_mesh(&base, 5);

    let mut rng = rand::rngs::StdRng::seed_from_u64(5);
    let fields: Vec<Simplex> = (0..2).map(|_| Simplex::new(rng.next_u32())).collect();
    for i in 0..3usize {
        let p = pos(&orig[i]);
        let sample = [
            (p[0] / 1.0f32) as f64,
            (p[1] / 1.0f32) as f64,
            (p[2] / 1.0f32) as f64,
        ];
        let mut sum = 0.0f32;
        let mut cum = 0.0f32;
        for o in 0..2i32 {
            sum += 0.5f32.powi(o);
            cum += 0.5f32.powi(o)
                * fields[o as usize].get([
                    sample[0] * 2f64.powi(o),
                    sample[1] * 2f64.powi(o),
                    sample[2] * 2f64.powi(o),
                ]) as f32;
        }
        cum /= sum;
        let expect = p[1] + cum * 1.0f32;
        assert_eq!(f(verts[i].pos.y).to_bits(), expect.to_bits());
    }
}

#[test]
fn same_seed_is_bit_identical() {
    let ops = vec![
        MeshOperation::AddTriangleGrid(b(10.0), 4),
        MeshOperation::FractalTerrain(3, b(1.5), b(2.0)),
        MeshOperation::DisplaceRandom(b(0.2), AxisMask { x: true, y: true, z: true }),
        MeshOperation::Smooth(b(0.5), 1),
    ];
    let (v1, i1, s1) = generate_mesh(&ops, 7);
    let (v2, i2, s2) = generate_mesh(&ops, 7);
    assert_eq!(s1, 7);
    assert_eq!(s2, 7);
    assert_eq!(i1, i2);
    assert_eq!(v1, v2);
}

#[test]
fn fresh_seed_is_reported_and_replayable() {
    let ops = vec![
        MeshOperation::AddTriangle(b(5.0)),
        MeshOperation::FractalTerrain(2, b(1.0), b(2.0)),
    ];
    let (v1, i1, reported) = generate_mesh(&ops, -1);
    assert!(reported >= 0 && reported <= u32::MAX as i64);
    let (v2, i2, again) = generate_mesh(&ops, reported);
    assert_eq!(again, reported);
    assert_eq!(i1, i2);
    assert_eq!(v1, v2);
}
