use bezier_surface::{tessellate, Activity, BezierSurface, TessellationResolution};
use ncollide3d::na::{Isometry3, Point3};
use ncollide3d::procedural::bezier_surface_at;

#[test]
fn unit_square_vertices_lie_on_the_corners() {
    let grid = vec![
        Point3::new(0.0f32, 0.0, 0.0),
        Point3::new(1.0, 0.0, 0.0),
        Point3::new(0.0, 1.0, 0.0),
        Point3::new(1.0, 1.0, 0.0),
    ];
    let res = TessellationResolution::new(1, 1);
    let mesh = tessellate(&grid, 2, 2, res).unwrap();
    assert_eq!(mesh.vertices.len(), 4);
    assert_eq!(mesh.triangles.len(), 2);
    let mut uc = Vec::new();
    let mut vc = Vec::new();
    let pos: Vec<Point3<f32>> = mesh
        .vertices
        .iter()
        .map(|p| {
            let u = 1.0 - p.col as f32 / res.u_samples as f32;
            let v = 1.0 - p.row as f32 / res.v_samples as f32;
            bezier_surface_at(&grid, 2, 2, u, v, &mut uc, &mut vc)
        })
        .collect();
    assert_eq!(pos[0], Point3::new(1.0, 1.0, 0.0));
    assert_eq!(pos[1], Point3::new(0.0, 1.0, 0.0));
    assert_eq!(pos[2], Point3::new(1.0, 0.0, 0.0));
    assert_eq!(pos[3], Point3::new(0.0, 0.0, 0.0));
}

#[test]
fn identity_body_and_offset_give_identity_pose() {
    let body: Isometry3<f32> = Isometry3::identity();
    let offset: Isometry3<f32> = Isometry3::identity();
    let s = BezierSurface::new(body, offset, Some(())).unwrap();
    let action = s.update(Activity::Active);
    assert!(action.write_transform);
    assert_eq!(*s.body() * *s.offset(), Isometry3::identity());
}
