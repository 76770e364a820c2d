use vtuber_core::decode::{decode_pose, ActivationGrid, CONFIDENCE_ONE, CONFIDENCE_THRESHOLD, PoseEstimate};

fn grid_1x1(gh: usize, gw: usize, vals: Vec<i64>) -> ActivationGrid {
    ActivationGrid { batch: 1, channels: 1, gh, gw, vals }
}

#[test]
fn one_hot_cell_decodes_to_cell_center() {
    let mut vals = vec![0i64; 16];
    vals[1 * 4 + 2] = CONFIDENCE_ONE;
    let grid = grid_1x1(4, 4, vals);
    let pose = decode_pose(&grid, CONFIDENCE_THRESHOLD, 640, 480).unwrap();
    // x = (2*2 + 1) * 640 / (2*4), y = (2*1 + 1) * 480 / (2*4)
    assert_eq!(pose, PoseEstimate { x: 400, y: 180 });
}

#[test]
fn all_zero_grid_is_not_found() {
    let grid = grid_1x1(4, 4, vec![0i64; 16]);
    assert!(decode_pose(&grid, CONFIDENCE_THRESHOLD, 640, 480).is_none());
}

#[test]
fn below_threshold_is_not_found() {
    let mut vals = vec![0i64; 16];
    vals[5] = CONFIDENCE_THRESHOLD - 1;
    let grid = grid_1x1(4, 4, vals);
    assert!(decode_pose(&grid, CONFIDENCE_THRESHOLD, 640, 480).is_none());
}

#[test]
fn first_maximum_wins_ties() {
    let mut vals = vec![0i64; 16];
    vals[1] = CONFIDENCE_ONE;
    vals[11] = CONFIDENCE_ONE;
    let grid = grid_1x1(4, 4, vals);
    let pose = decode_pose(&grid, CONFIDENCE_THRESHOLD, 640, 480).unwrap();
    // cell (row 0, col 1): x = 3 * 640 / 8, y = 1 * 480 / 8
    assert_eq!(pose, PoseEstimate { x: 240, y: 60 });
}

#[test]
fn only_first_plane_is_consulted() {
    // Batch 2, channels 2: a larger value outside batch 0 channel 0
    // must be ignored.
    let mut vals = vec![0i64; 2 * 2 * 2 * 2];
    vals[3] = CONFIDENCE_ONE;
    vals[10] = 10 * CONFIDENCE_ONE;
    let grid = ActivationGrid { batch: 2, channels: 2, gh: 2, gw: 2, vals };
    let pose = decode_pose(&grid, CONFIDENCE_THRESHOLD, 640, 480).unwrap();
    // cell (row 1, col 1) of the 2x2 plane
    assert_eq!(pose, PoseEstimate { x: 480, y: 360 });
}

#[test]
fn empty_grid_is_not_found() {
    let grid = ActivationGrid { batch: 1, channels: 1, gh: 0, gw: 4, vals: vec![] };
    assert!(decode_pose(&grid, CONFIDENCE_THRESHOLD, 640, 480).is_none());
}
