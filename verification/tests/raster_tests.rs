use vtuber_core::raster::{FrameBuffer, ProjectedPoint, BLANK_GLYPH, DEPTH_FAR, MARKER_GLYPH};

#[test]
fn new_buffer_is_cleared() {
    let fb = FrameBuffer::new(10, 5);
    for y in 0..5 {
        for x in 0..10 {
            assert_eq!(fb.depth_at(x, y), DEPTH_FAR);
            assert_eq!(fb.glyph_at(x, y), BLANK_GLYPH);
        }
    }
}

#[test]
fn nearest_depth_wins_in_either_order() {
    let near = ProjectedPoint { x: 3, y: 2, depth: 100 };
    let far = ProjectedPoint { x: 3, y: 2, depth: 200 };

    let mut fb1 = FrameBuffer::new(10, 5);
    fb1.plot(near);
    fb1.plot(far);

    let mut fb2 = FrameBuffer::new(10, 5);
    fb2.plot(far);
    fb2.plot(near);

    assert_eq!(fb1.depth_at(3, 2), 100);
    assert_eq!(fb2.depth_at(3, 2), 100);
    assert_eq!(fb1.glyph_at(3, 2), MARKER_GLYPH);
    assert_eq!(fb2.glyph_at(3, 2), MARKER_GLYPH);
}

#[test]
fn out_of_bounds_points_are_ignored() {
    let mut fb = FrameBuffer::new(4, 4);
    fb.plot(ProjectedPoint { x: -1, y: 0, depth: 1 });
    fb.plot(ProjectedPoint { x: 0, y: -7, depth: 1 });
    fb.plot(ProjectedPoint { x: 4, y: 0, depth: 1 });
    fb.plot(ProjectedPoint { x: 0, y: 4, depth: 1 });
    for y in 0..4 {
        for x in 0..4 {
            assert_eq!(fb.glyph_at(x, y), BLANK_GLYPH);
            assert_eq!(fb.depth_at(x, y), DEPTH_FAR);
        }
    }
}

#[test]
fn equal_depth_does_not_overwrite() {
    let mut fb = FrameBuffer::new(4, 4);
    fb.plot(ProjectedPoint { x: 1, y: 1, depth: 50 });
    fb.plot(ProjectedPoint { x: 1, y: 1, depth: 50 });
    assert_eq!(fb.depth_at(1, 1), 50);
}

#[test]
fn render_points_writes_each_vertex() {
    let mut fb = FrameBuffer::new(4, 4);
    let pts = vec![
        ProjectedPoint { x: 0, y: 0, depth: 7 },
        ProjectedPoint { x: 3, y: 3, depth: 9 },
        ProjectedPoint { x: 0, y: 0, depth: 3 },
    ];
    fb.render_points(&pts);
    assert_eq!(fb.depth_at(0, 0), 3);
    assert_eq!(fb.depth_at(3, 3), 9);
    assert_eq!(fb.glyph_at(0, 0), MARKER_GLYPH);
    assert_eq!(fb.glyph_at(1, 1), BLANK_GLYPH);
}

#[test]
fn clear_resets_after_a_frame() {
    let mut fb = FrameBuffer::new(4, 4);
    fb.plot(ProjectedPoint { x: 2, y: 2, depth: 10 });
    fb.clear();
    assert_eq!(fb.depth_at(2, 2), DEPTH_FAR);
    assert_eq!(fb.glyph_at(2, 2), BLANK_GLYPH);
}

#[test]
fn glyph_row_matches_cells() {
    let mut fb = FrameBuffer::new(4, 2);
    fb.plot(ProjectedPoint { x: 1, y: 1, depth: 5 });
    let row0 = fb.glyph_row(0);
    let row1 = fb.glyph_row(1);
    assert_eq!(row0, vec![BLANK_GLYPH; 4]);
    assert_eq!(row1, vec![BLANK_GLYPH, MARKER_GLYPH, BLANK_GLYPH, BLANK_GLYPH]);
}
