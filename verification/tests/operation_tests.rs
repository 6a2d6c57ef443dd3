use terrapipe::mesh_operation::{apply_response, wireframe_indices, AxisMask, MeshOperation, ShowResponse};
use terrapipe::pipeline::{generate_mesh, pipeline_fits_exec};
use terrapipe::rng::RandomSource;
use terrapipe::vertex::{Quad, Vertex};

fn b(x: f32) -> u32 {
    x.to_bits()
}

fn f(bits: u32) -> f32 {
    f32::from_bits(bits)
}

#[test]
fn wireframe_lists_each_shared_edge_once() {
    let inds: Vec<u32> = vec![0, 1, 2, 1, 3, 2];
    let wire = wireframe_indices(&inds);
    assert_eq!(wire, vec![0, 1, 1, 2, 0, 2, 1, 3, 3, 2]);
}

#[test]
fn wireframe_of_subdivided_quad() {
    let ops = vec![MeshOperation::AddTriSquare(b(1.0)), MeshOperation::Subdivide(1)];
    let (_, inds, _) = generate_mesh(&ops, 0);
    let wire = wireframe_indices(&inds);
    // Eight triangles over nine vertices share their interior edges: each
    // pair in the list is a distinct undirected edge.
    assert_eq!(wire.len() % 2, 0);
    let mut seen: Vec<(u32, u32)> = Vec::new();
    for p in wire.chunks(2) {
        let key = (p[0].min(p[1]), p[0].max(p[1]));
        assert!(!seen.contains(&key), "edge listed twice: {:?}", key);
        seen.push(key);
    }
    assert_eq!(seen.len(), 16);
}

#[test]
fn captions_name_every_operation() {
    assert_eq!(MeshOperation::AddTriangle(b(5.0)).caption(), "Add Triangle");
    assert_eq!(MeshOperation::AddTriSquare(b(5.0)).caption(), "Add Triangle Square");
    assert_eq!(MeshOperation::AddTriangleGrid(b(10.0), 20).caption(), "Add Triangle Grid");
    assert_eq!(
        MeshOperation::AddTriSquareGrid(b(10.0), 20).caption(),
        "Add Triangle Square Grid"
    );
    assert_eq!(MeshOperation::Subdivide(1).caption(), "Subdivide");
    assert_eq!(
        MeshOperation::DisplaceRandom(b(0.2), AxisMask { x: false, y: true, z: false }).caption(),
        "Displace Random"
    );
    assert_eq!(
        MeshOperation::DisplaceSmooth(b(1.0), b(1.0), 1, AxisMask { x: false, y: true, z: false })
            .caption(),
        "Displace Smooth"
    );
    assert_eq!(MeshOperation::Smooth(b(0.5), 1).caption(), "Smooth");
    assert_eq!(MeshOperation::FractalTerrain(6, b(2.0), b(2.0)).caption(), "Fractal Terrain");
}

#[test]
fn triangle_grid_lattice_positions() {
    let subdivisions = 2u32;
    let size = 10.0f32;
    let ops = vec![MeshOperation::AddTriangleGrid(b(size), subdivisions)];
    let (verts, inds, _) = generate_mesh(&ops, 0);
    let num = subdivisions + 1;
    assert_eq!(verts.len(), (num * num) as usize);
    // Interior cells only: (num-1)^2 cells, two triangles each.
    assert_eq!(inds.len(), ((num - 1) * (num - 1) * 6) as usize);

    for x in 0..num {
        for z in 0..num {
            let v = &verts[(x * num + z) as usize];
            let x_world = (x as f32 / subdivisions as f32 - 0.5) * size * 3f32.sqrt() / 2.0;
            let shift = if x % 2 == 0 { 0.5 } else { 0.0 };
            let z_world = ((z as f32 - shift) / subdivisions as f32 - 0.5) * size;
            assert_eq!(f(v.pos.x).to_bits(), x_world.to_bits());
            assert_eq!(f(v.pos.z).to_bits(), z_world.to_bits());
            assert_eq!(f(v.pos.y), 0.0);
        }
    }
}

#[test]
fn square_grid_lattice_positions() {
    let subdivisions = 3u32;
    let size = 8.0f32;
    let ops = vec![MeshOperation::AddTriSquareGrid(b(size), subdivisions)];
    let (verts, inds, _) = generate_mesh(&ops, 0);
    let num = subdivisions + 1;
    assert_eq!(verts.len(), (num * num) as usize);
    assert_eq!(inds.len(), ((num - 1) * (num - 1) * 6) as usize);

    for x in 0..num {
        for z in 0..num {
            let v = &verts[(x * num + z) as usize];
            let x_world = (x as f32 / num as f32 - 0.5) * size;
            let z_world = (z as f32 / num as f32 - 0.5) * size;
            assert_eq!(f(v.pos.x).to_bits(), x_world.to_bits());
            assert_eq!(f(v.pos.z).to_bits(), z_world.to_bits());
        }
    }
}

#[test]
fn legacy_variants_pass_the_buffer_through() {
    let mut random = RandomSource::from_seed(0);
    let verts = vec![Vertex::new(b(1.0), b(2.0), b(3.0), b(0.0), b(0.0), b(0.0))];
    let inds: Vec<u32> = vec![0, 0, 0];
    let (v1, i1) = MeshOperation::_MergeCleanup.execute(verts.clone(), inds.clone(), &mut random);
    assert_eq!(v1, verts);
    assert_eq!(i1, inds);
    let (v2, i2) =
        MeshOperation::_SubdivideSmooth(2, b(1.0)).execute(verts.clone(), inds.clone(), &mut random);
    assert_eq!(v2, verts);
    assert_eq!(i2, inds);
}

#[test]
fn vertex_constructors() {
    let v = Vertex::new(b(1.0), b(2.0), b(3.0), b(4.0), b(5.0), b(6.0));
    assert_eq!(v.pos, Quad { x: b(1.0), y: b(2.0), z: b(3.0), w: b(1.0) });
    assert_eq!(v.normal, Quad { x: b(4.0), y: b(5.0), z: b(6.0), w: b(1.0) });

    let a = Vertex::new(b(0.0), b(2.0), b(-4.0), b(0.0), b(0.0), b(0.0));
    let c = Vertex::new(b(1.0), b(6.0), b(-2.0), b(0.0), b(0.0), b(0.0));
    let m = Vertex::mid_ignore_normals(a, c);
    assert_eq!(f(m.pos.x), 0.0 * 0.5 + 1.0 * 0.5);
    assert_eq!(f(m.pos.y), 2.0 * 0.5 + 6.0 * 0.5);
    assert_eq!(f(m.pos.z), -4.0f32 * 0.5 + -2.0f32 * 0.5);
    assert_eq!(f(m.pos.w), 1.0);
    assert_eq!(m.normal, a.normal);
}

#[test]
fn defaults_palette_holds_every_active_operation() {
    let y_only = AxisMask { x: false, y: true, z: false };
    let expect = vec![
        MeshOperation::AddTriangle(b(5.0)),
        MeshOperation::AddTriSquare(b(5.0)),
        MeshOperation::AddTriangleGrid(b(10.0), 20),
        MeshOperation::AddTriSquareGrid(b(10.0), 20),
        MeshOperation::Subdivide(1),
        MeshOperation::DisplaceRandom(b(0.2), y_only),
        MeshOperation::DisplaceSmooth(b(1.0), b(1.0), 1, y_only),
        MeshOperation::Smooth(b(0.5), 1),
        MeshOperation::FractalTerrain(6, b(2.0), b(2.0)),
    ];
    assert_eq!(MeshOperation::defaults(), expect);
    // The palette never proposes the disabled legacy variants.
    let _ = ShowResponse::NoChange;
}

#[test]
fn apply_response_edits_the_operation_list() {
    let a = MeshOperation::AddTriangle(b(1.0));
    let s = MeshOperation::Subdivide(1);
    let m = MeshOperation::Smooth(b(0.5), 1);

    let mut ops = vec![a, s, m];
    assert_eq!(apply_response(&mut ops, 1, ShowResponse::Delete), None);
    assert_eq!(ops, vec![a, m]);

    let mut ops = vec![a, s, m];
    assert_eq!(apply_response(&mut ops, 2, ShowResponse::MoveUp), None);
    assert_eq!(ops, vec![a, m, s]);

    let mut ops = vec![a, s, m];
    assert_eq!(apply_response(&mut ops, 0, ShowResponse::MoveUp), None);
    assert_eq!(ops, vec![a, s, m], "the first stage cannot move further up");

    let mut ops = vec![a, s, m];
    assert_eq!(apply_response(&mut ops, 0, ShowResponse::MoveDown), None);
    assert_eq!(ops, vec![s, a, m]);

    let mut ops = vec![a, s, m];
    assert_eq!(apply_response(&mut ops, 2, ShowResponse::MoveDown), None);
    assert_eq!(ops, vec![a, s, m], "the last stage cannot move further down");

    let mut ops = vec![a, s, m];
    assert_eq!(apply_response(&mut ops, 1, ShowResponse::GenerateUpToThis), Some(2));
    assert_eq!(ops, vec![a, s, m]);

    let mut ops = vec![a, s, m];
    assert_eq!(apply_response(&mut ops, 1, ShowResponse::NoChange), None);
    assert_eq!(ops, vec![a, s, m]);
}

#[test]
fn fits_checker_accepts_small_and_rejects_huge_pipelines() {
    let small = vec![
        MeshOperation::AddTriangleGrid(b(10.0), 4),
        MeshOperation::FractalTerrain(5, b(1.53), b(2.0)),
        MeshOperation::Subdivide(2),
        MeshOperation::Smooth(b(0.5), 1),
    ];
    assert!(pipeline_fits_exec(&small));

    let empty: Vec<MeshOperation> = Vec::new();
    assert!(pipeline_fits_exec(&empty));

    // Thirty refinement passes of a grid overrun the 32-bit index space.
    let huge = vec![
        MeshOperation::AddTriangleGrid(b(10.0), 20),
        MeshOperation::Subdivide(30),
    ];
    assert!(!pipeline_fits_exec(&huge));

    // A lattice finer than 65536 cells a side cannot index its vertices.
    let wide = vec![MeshOperation::AddTriSquareGrid(b(10.0), 0x1_0000)];
    assert!(!pipeline_fits_exec(&wide));
}

#[test]
fn empty_pipeline_yields_empty_mesh() {
    let ops: Vec<MeshOperation> = Vec::new();
    let (verts, inds, _) = generate_mesh(&ops, 0);
    assert!(verts.is_empty());
    assert!(inds.is_empty());
}

#[test]
fn generators_ignore_the_incoming_buffer() {
    let ops = vec![
        MeshOperation::AddTriSquare(b(2.0)),
        MeshOperation::Subdivide(1),
        MeshOperation::AddTriangle(b(5.0)),
    ];
    let (verts, inds, _) = generate_mesh(&ops, 0);
    assert_eq!(verts.len(), 3);
    assert_eq!(inds, vec![0, 1, 2]);
}
