use bezier_surface::{tessellate, LatticePoint, PatchMesh, SurfaceError, TessellationResolution, Triangle};

fn points(n: usize) -> Vec<(i32, i32, i32)> {
    (0..n).map(|k| (k as i32, 0, 0)).collect()
}

fn lattice(mesh: &PatchMesh) -> Vec<(u32, u32)> {
    mesh.vertices.iter().map(|p| (p.col, p.row)).collect()
}

fn tris(mesh: &PatchMesh) -> Vec<(u32, u32, u32)> {
    mesh.triangles.iter().map(|t| (t.a, t.b, t.c)).collect()
}

#[test]
fn unit_square_patch_tessellates_to_two_triangles() {
    let grid = points(4);
    let mesh = tessellate(&grid, 2, 2, TessellationResolution::new(1, 1)).unwrap();
    assert_eq!(lattice(&mesh), vec![(0, 0), (1, 0), (0, 1), (1, 1)]);
    assert_eq!(tris(&mesh), vec![(2, 0, 3), (0, 1, 3)]);
}

#[test]
fn two_cells_in_a_row_follow_the_lattice_formula() {
    let grid = points(4);
    let mesh = tessellate(&grid, 2, 2, TessellationResolution::new(2, 1)).unwrap();
    assert_eq!(
        lattice(&mesh),
        vec![(0, 0), (1, 0), (2, 0), (0, 1), (1, 1), (2, 1)]
    );
    assert_eq!(
        tris(&mesh),
        vec![(3, 0, 4), (0, 1, 4), (4, 1, 5), (1, 2, 5)]
    );
    assert_eq!(mesh.vertices[5], LatticePoint { col: 2, row: 1 });
    assert_eq!(mesh.triangles[2], Triangle { a: 4, b: 1, c: 5 });
}

#[test]
fn mesh_counts_match_resolution() {
    for &(nu, nv, us, vs) in &[(2usize, 2usize, 1usize, 1usize), (3, 4, 5, 7), (4, 2, 10, 3), (2, 5, 1, 9)] {
        let grid = points(nu * nv);
        let mesh = tessellate(&grid, nu, nv, TessellationResolution::new(us, vs)).unwrap();
        let n = (us + 1) * (vs + 1);
        assert_eq!(mesh.vertices.len(), n);
        assert_eq!(mesh.triangles.len(), 2 * us * vs);
        for t in &mesh.triangles {
            assert!((t.a as usize) < n && (t.b as usize) < n && (t.c as usize) < n);
            assert!(t.a != t.b && t.b != t.c && t.a != t.c);
        }
    }
}

#[test]
fn default_resolution_mesh_counts() {
    let grid = points(9);
    let mesh = tessellate(&grid, 3, 3, TessellationResolution::default()).unwrap();
    assert_eq!(mesh.vertices.len(), 101 * 101);
    assert_eq!(mesh.triangles.len(), 2 * 100 * 100);
}

#[test]
fn tessellation_is_deterministic() {
    let grid = points(12);
    let res = TessellationResolution::new(6, 4);
    let a = tessellate(&grid, 3, 4, res).unwrap();
    let b = tessellate(&grid, 3, 4, res).unwrap();
    assert_eq!(a.vertices, b.vertices);
    assert_eq!(a.triangles, b.triangles);
}

#[test]
fn wrong_grid_length_is_invalid_geometry() {
    let grid = points(5);
    let r = tessellate(&grid, 3, 2, TessellationResolution::new(1, 1));
    assert_eq!(r.unwrap_err(), SurfaceError::InvalidGeometry);
}

#[test]
fn too_few_control_points_per_axis_is_invalid_geometry() {
    let grid = points(3);
    assert_eq!(
        tessellate(&grid, 1, 3, TessellationResolution::new(2, 2)).unwrap_err(),
        SurfaceError::InvalidGeometry
    );
    assert_eq!(
        tessellate(&grid, 3, 1, TessellationResolution::new(2, 2)).unwrap_err(),
        SurfaceError::InvalidGeometry
    );
    let empty: Vec<(i32, i32, i32)> = Vec::new();
    assert_eq!(
        tessellate(&empty, 0, 0, TessellationResolution::new(2, 2)).unwrap_err(),
        SurfaceError::InvalidGeometry
    );
}

#[test]
fn zero_samples_is_invalid_geometry() {
    let grid = points(4);
    assert_eq!(
        tessellate(&grid, 2, 2, TessellationResolution::new(0, 3)).unwrap_err(),
        SurfaceError::InvalidGeometry
    );
    assert_eq!(
        tessellate(&grid, 2, 2, TessellationResolution::new(3, 0)).unwrap_err(),
        SurfaceError::InvalidGeometry
    );
}

#[test]
fn overflowing_grid_shape_is_invalid_geometry() {
    let grid = points(4);
    assert_eq!(
        tessellate(&grid, usize::MAX, 2, TessellationResolution::new(1, 1)).unwrap_err(),
        SurfaceError::InvalidGeometry
    );
}

#[test]
fn default_resolution_is_a_hundred_cells_each_way() {
    let r = TessellationResolution::default();
    assert_eq!(r, TessellationResolution { u_samples: 100, v_samples: 100 });
}
