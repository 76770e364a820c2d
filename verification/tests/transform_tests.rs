use vtuber_core::fixed::FP_ONE;
use vtuber_core::transform::{mat_mul, mat_vec_mul, Mat4, Renderer, Vec3Fp, Vec4Fp};

#[test]
fn center_axis_vertex_projects_to_screen_center() {
    let renderer = Renderer::new(80, 24);
    let p = renderer
        .project(Vec3Fp { x: 0, y: 0, z: 0 })
        .expect("the origin is in front of the camera");
    assert_eq!(p.x, 40);
    assert_eq!(p.y, 12);
}

#[test]
fn center_axis_vertex_projects_to_center_at_any_depth() {
    let renderer = Renderer::new(79, 25);
    for z in [-3 * FP_ONE, -FP_ONE, 0, FP_ONE, 4 * FP_ONE] {
        let p = renderer.project(Vec3Fp { x: 0, y: 0, z }).unwrap();
        assert_eq!(p.x, 39);
        assert_eq!(p.y, 12);
    }
}

#[test]
fn unit_offset_above_axis_maps_up_screen() {
    let renderer = Renderer::new(80, 24);
    let p = renderer
        .project(Vec3Fp { x: 0, y: FP_ONE, z: 0 })
        .unwrap();
    // ndc_y = (1/5) truncated in fixed point: 13107/65536; the screen
    // row is (65536 - 13107) * 24 / 131072 = 9.
    assert_eq!(p.x, 40);
    assert_eq!(p.y, 9);
}

#[test]
fn vertex_behind_camera_is_skipped() {
    let renderer = Renderer::new(80, 24);
    assert!(renderer.project(Vec3Fp { x: 0, y: 0, z: 10 * FP_ONE }).is_none());
    // exactly at the camera plane the homogeneous w vanishes
    assert!(renderer.project(Vec3Fp { x: 0, y: 0, z: 5 * FP_ONE }).is_none());
}

#[test]
fn quarter_turn_about_y_sends_x_to_minus_z() {
    let rot = Mat4::rotation_y(FP_ONE, 0);
    let v = mat_vec_mul(&rot, Vec4Fp { x: FP_ONE, y: 0, z: 0, w: FP_ONE });
    assert_eq!((v.x, v.y, v.z, v.w), (0, 0, -FP_ONE, FP_ONE));
}

#[test]
fn translation_composes_with_identity() {
    let t = Mat4::translation(FP_ONE, 2 * FP_ONE, -FP_ONE);
    let m = mat_mul(&Mat4::identity(), &t);
    let v = mat_vec_mul(&m, Vec4Fp { x: 0, y: 0, z: 0, w: FP_ONE });
    assert_eq!((v.x, v.y, v.z), (FP_ONE, 2 * FP_ONE, -FP_ONE));
}

#[test]
fn model_matrix_moves_projected_vertex() {
    let renderer = Renderer::new(80, 24);
    let push_left = Mat4::translation(-FP_ONE, 0, 0);
    let centered = renderer.project(Vec3Fp { x: 0, y: 0, z: 0 }).unwrap();
    let moved = renderer
        .project_with_model(&push_left, Vec3Fp { x: 0, y: 0, z: 0 })
        .unwrap();
    assert!(moved.x < centered.x);
    assert_eq!(moved.y, centered.y);
}
