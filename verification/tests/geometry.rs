use geo_render::geo_gen::{
    create_cube, create_floor, create_sphere, create_square, Surface, Vertex,
};

const PI: f32 = std::f32::consts::PI;

/// Evaluates the floating-point position of a vertex, as the GPU edge does:
/// half-unit planar coordinates are halved, sphere grid steps become the
/// two angles of the parametrization.
fn eval_position(v: &Vertex, surface: &Surface) -> [f32; 3] {
    match (v, surface) {
        (Vertex::Flat { x2, y2, z2, .. }, _) => {
            [*x2 as f32 / 2.0, *y2 as f32 / 2.0, *z2 as f32 / 2.0]
        }
        (Vertex::Sphere { azim, polar }, Surface::Sphere { radius, azim_div, polar_div }) => {
            let r = *radius as f32;
            let theta = *polar as f32 * PI / *polar_div as f32;
            let phi = *azim as f32 * 2.0 * PI / *azim_div as f32;
            [
                r * theta.sin() * phi.cos(),
                r * theta.cos(),
                -r * theta.sin() * phi.sin(),
            ]
        }
        _ => panic!("vertex does not fit its surface"),
    }
}

#[test]
fn square_scenario() {
    let obj = create_square(26, 40);
    assert_eq!(obj.index_data, vec![0, 1, 2, 2, 3, 0]);
    assert_eq!(
        obj.vertex_data,
        vec![
            Vertex::Flat { x2: 40, y2: 26, z2: 0, tex_u: 1, tex_v: 1 },
            Vertex::Flat { x2: -40, y2: 26, z2: 0, tex_u: 0, tex_v: 1 },
            Vertex::Flat { x2: -40, y2: -26, z2: 0, tex_u: 0, tex_v: 0 },
            Vertex::Flat { x2: 40, y2: -26, z2: 0, tex_u: 1, tex_v: 0 },
        ]
    );
    // X of every corner is 20 or -20, Y is 13 or -13
    for v in &obj.vertex_data {
        let [x, y, z] = eval_position(v, &obj.surface);
        assert!(x == 20.0 || x == -20.0);
        assert!(y == 13.0 || y == -13.0);
        assert_eq!(z, 0.0);
    }
}

#[test]
fn square_symmetric_about_origin() {
    let obj = create_square(15, 7);
    let xs: Vec<i64> = obj
        .vertex_data
        .iter()
        .map(|v| match v {
            Vertex::Flat { x2, .. } => *x2,
            _ => panic!("planar vertex expected"),
        })
        .collect();
    let ys: Vec<i64> = obj
        .vertex_data
        .iter()
        .map(|v| match v {
            Vertex::Flat { y2, .. } => *y2,
            _ => panic!("planar vertex expected"),
        })
        .collect();
    assert_eq!(xs.iter().max(), Some(&7));
    assert_eq!(xs.iter().min(), Some(&-7));
    assert_eq!(ys.iter().max(), Some(&15));
    assert_eq!(ys.iter().min(), Some(&-15));
}

#[test]
fn floor_is_tiled() {
    let obj = create_floor(2800, 2800);
    assert_eq!(obj.index_data, vec![0, 1, 2, 2, 3, 0]);
    match obj.vertex_data[0] {
        Vertex::Flat { tex_u, tex_v, .. } => {
            assert_eq!(tex_u, 100);
            assert_eq!(tex_v, 100);
        }
        _ => panic!("planar vertex expected"),
    }
}

#[test]
fn cube_counts_and_faces() {
    let obj = create_cube(10);
    assert_eq!(obj.vertex_data.len(), 8);
    assert_eq!(obj.index_data.len(), 36);
    // every face's triangles reference only that face's four corners
    let quads: [[u16; 4]; 6] = [
        [0, 1, 2, 3],
        [4, 5, 6, 7],
        [3, 2, 6, 7],
        [0, 4, 5, 1],
        [0, 3, 7, 4],
        [1, 5, 6, 2],
    ];
    for (k, ix) in obj.index_data.iter().enumerate() {
        let quad = quads[k / 6];
        assert!(quad.contains(ix), "index {} at {} outside its face", ix, k);
    }
    // all eight corners at half the edge length from each axis plane
    for v in &obj.vertex_data {
        let [x, y, z] = eval_position(v, &obj.surface);
        assert_eq!(x.abs(), 5.0);
        assert_eq!(y.abs(), 5.0);
        assert_eq!(z.abs(), 5.0);
    }
}

#[test]
fn sphere_scenario() {
    let obj = create_sphere(10, 3, 2);
    assert_eq!(obj.index_data.len(), 36);
    assert_eq!(obj.vertex_data.len(), 12);
    // the exact sharing pattern of the lookup grid
    let expected_grid: [(usize, usize); 12] = [
        (0, 0),
        (0, 1),
        (1, 1),
        (1, 0),
        (2, 1),
        (2, 0),
        (3, 1),
        (3, 0),
        (0, 2),
        (1, 2),
        (2, 2),
        (3, 2),
    ];
    for (k, v) in obj.vertex_data.iter().enumerate() {
        match v {
            Vertex::Sphere { azim, polar } => {
                assert_eq!((*azim, *polar), expected_grid[k], "vertex {}", k);
            }
            _ => panic!("sphere vertex expected"),
        }
    }
    let expected_indices: [u16; 36] = [
        0, 1, 3, 3, 1, 2, 3, 2, 5, 5, 2, 4, 5, 4, 7, 7, 4, 6, 1, 8, 2, 2, 8, 9, 2, 9, 4, 4, 9,
        10, 4, 10, 6, 6, 10, 11,
    ];
    assert_eq!(obj.index_data, expected_indices.to_vec());
    // every position at distance 10 from the origin
    for v in &obj.vertex_data {
        let [x, y, z] = eval_position(v, &obj.surface);
        let dist = (x * x + y * y + z * z).sqrt();
        assert!((dist - 10.0).abs() < 1e-4, "distance {}", dist);
    }
}

#[test]
fn sphere_counts() {
    for u in 2..=6usize {
        for v in 2..=5usize {
            let obj = create_sphere(4, u, v);
            assert_eq!(obj.index_data.len(), 6 * u * v);
            assert_eq!(obj.vertex_data.len(), (u + 1) * (v + 1));
            for ix in &obj.index_data {
                assert!((*ix as usize) < obj.vertex_data.len());
            }
        }
    }
}

#[test]
fn sphere_positions_on_radius() {
    let obj = create_sphere(7, 8, 5);
    for v in &obj.vertex_data {
        let [x, y, z] = eval_position(v, &obj.surface);
        let dist = (x * x + y * y + z * z).sqrt();
        assert!((dist - 7.0).abs() < 1e-3, "distance {}", dist);
    }
}

#[test]
fn sphere_seam_vertices_are_duplicated() {
    // the wrap column azim == u stores its own vertices: grid points
    // (0, p) and (u, p) describe the same seam position but are distinct
    let obj = create_sphere(10, 3, 2);
    let has_first_column = obj
        .vertex_data
        .iter()
        .any(|v| matches!(v, Vertex::Sphere { azim: 0, polar: 1 }));
    let has_wrap_column = obj
        .vertex_data
        .iter()
        .any(|v| matches!(v, Vertex::Sphere { azim: 3, polar: 1 }));
    assert!(has_first_column && has_wrap_column);
}

#[test]
fn sphere_degenerate_counts() {
    let obj = create_sphere(10, 0, 4);
    assert_eq!(obj.index_data.len(), 0);
    assert_eq!(obj.vertex_data.len(), 0);
    let obj = create_sphere(10, 4, 0);
    assert_eq!(obj.index_data.len(), 0);
    assert_eq!(obj.vertex_data.len(), 0);
}

#[test]
fn index_range_covers_whole_mesh() {
    let obj = create_cube(4);
    let span = obj.get_index_range();
    assert_eq!(span.start, 0);
    assert_eq!(span.end, 36);
}
