use vtuber_core::data::load_model;
use vtuber_core::fixed::FP_ONE;
use vtuber_core::raster::{FrameBuffer, BLANK_GLYPH, MARKER_GLYPH};
use vtuber_core::transform::{Mat4, Renderer};
use vtuber_core::PipelineFault;

#[test]
fn load_model_rejects_empty_path() {
    match load_model("") {
        Err(err) => assert!(matches!(err, PipelineFault::AssetFault)),
        Ok(_) => panic!("an empty path must be rejected"),
    }
}

#[test]
fn load_model_yields_the_centered_quad() {
    let model = match load_model("assets/Box.glb") {
        Ok(m) => m,
        Err(_) => panic!("a non-empty path must load"),
    };
    assert_eq!(model.name, "assets/Box.glb");
    assert_eq!(model.vertices.len(), 4);
    assert_eq!(
        (model.vertices[0].position.x, model.vertices[0].position.y, model.vertices[0].position.z),
        (0, 0, 0)
    );
    assert_eq!(
        (model.vertices[1].position.x, model.vertices[1].position.y),
        (-FP_ONE, FP_ONE)
    );
    assert_eq!(
        (model.vertices[3].position.x, model.vertices[3].position.y),
        (FP_ONE, -FP_ONE)
    );
    assert_eq!(model.indices, vec![(0, 1, 2), (0, 2, 3)]);
}

#[test]
fn rendering_the_model_marks_the_center_cell() {
    let model = load_model("assets/Box.glb").unwrap_or_else(|_| panic!("path is non-empty"));
    let renderer = Renderer::new(80, 24);
    let push_back = Mat4::translation(0, 0, -2 * FP_ONE);
    let mut fb = FrameBuffer::new(80, 24);
    model.render(&renderer, &push_back, &mut fb);

    // The first vertex sits on the view axis and lands on the center
    // cell; the whole frame is no longer blank.
    assert_eq!(fb.glyph_at(40, 12), MARKER_GLYPH);
    let marked: usize = (0..24)
        .map(|y| fb.glyph_row(y).iter().filter(|&&g| g != BLANK_GLYPH).count())
        .sum();
    assert!(marked >= 2);
}
