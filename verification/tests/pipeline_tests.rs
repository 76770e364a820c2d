use vtuber_core::color::convert_yuyv_to_rgb;
use vtuber_core::decode::{decode_pose, ActivationGrid, CONFIDENCE_THRESHOLD};
use vtuber_core::tensor::{frame_to_tensor, image_to_tensor, RgbImageBuf, CAM_HEIGHT, CAM_WIDTH, FRAME_SIZE};

#[test]
fn mid_gray_frame_runs_the_whole_pipeline_to_not_found() {
    // A full 640x480 4:2:2 frame of mid-gray pixels.
    let raw = vec![128u8; FRAME_SIZE];

    // Conversion yields an all-mid-gray RGB image.
    let rgb = convert_yuyv_to_rgb(&raw);
    assert_eq!(rgb.len(), CAM_WIDTH * CAM_HEIGHT * 3);
    assert!(rgb.iter().all(|&b| b == 128));

    // Resizing and reordering yields a tensor of all-equal entries.
    let tensor = frame_to_tensor(&raw, CAM_WIDTH, CAM_HEIGHT).expect("dimensions match");
    assert_eq!(tensor.data.len(), 30720);
    let first = tensor.data[0];
    assert!(tensor.data.iter().all(|&b| b == first));

    // A stub inference returning an all-zero grid decodes to
    // "not found".
    let grid = ActivationGrid {
        batch: 10,
        channels: 1,
        gh: 8,
        gw: 8,
        vals: vec![0i64; 10 * 8 * 8],
    };
    assert!(decode_pose(&grid, CONFIDENCE_THRESHOLD, CAM_WIDTH, CAM_HEIGHT).is_none());
}

#[test]
fn mismatched_frame_dimensions_are_rejected() {
    assert!(frame_to_tensor(&[0u8; 100], CAM_WIDTH, CAM_HEIGHT).is_none());
    assert!(frame_to_tensor(&[], 0, 0).is_none());
    // odd width cannot carry packed 4:2:2 pixel pairs
    assert!(frame_to_tensor(&vec![0u8; 3 * 3 * 2], 3, 3).is_none());
}

#[test]
fn tensor_replicates_one_frame_across_the_batch() {
    // A 2x2 image with four distinct pixels must be genuinely
    // resampled to 32x32; a resize that handed its input back would
    // leave too few bytes and this call would panic.
    let img = RgbImageBuf {
        width: 2,
        height: 2,
        data: vec![10, 20, 30, 40, 50, 60, 70, 80, 90, 100, 110, 120],
    };
    let t = image_to_tensor(&img);
    assert_eq!(t.data.len(), 30720);
    let slice = 3 * 32 * 32;
    for n in 1..10 {
        assert_eq!(t.data[..slice], t.data[n * slice..(n + 1) * slice]);
    }
}
