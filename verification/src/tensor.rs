//! Tensor assembly: from a converted RGB image to the network's
//! fixed-shape input batch.
//!
//! The converted image is resized to the network's fixed resolution
//! with an area-weighted (triangular) filter, reordered from
//! row-major height×width×channel to channel-major, and the single
//! frame is replicated across the batch dimension to satisfy the
//! network's fixed batch size (a known single-frame approximation).
//! Entries are kept as the resized bytes; the caller scales them by
//! 1/255 when it hands the tensor to the inference engine, so the
//! byte here is the exact numerator of the value the network sees.

use vstd::prelude::*;
use vstd::arithmetic::div_mod::lemma_fundamental_div_mod_converse;

verus! {

/// Width the network expects.
pub const MODEL_WIDTH: usize = 32;

/// Height the network expects.
pub const MODEL_HEIGHT: usize = 32;

/// Batch size the network expects: the one frame is replicated this
/// many times.
pub const MODEL_BATCH: usize = 10;

/// Width requested from the capture device.
pub const CAM_WIDTH: usize = 640;

/// Height requested from the capture device.
pub const CAM_HEIGHT: usize = 480;

/// Bytes per raw 4:2:2 frame at the requested resolution: two bytes
/// per pixel.
pub const FRAME_SIZE: usize = 640 * 480 * 2;

/// A width×height×3 byte image in linear RGB order, row-major.
pub struct RgbImageBuf {
    /// Width in pixels.
    pub width: usize,
    /// Height in pixels.
    pub height: usize,
    /// The bytes, three per pixel.
    pub data: Vec<u8>,
}

impl RgbImageBuf {
    /// The buffer holds exactly three bytes per pixel.
    pub open spec fn well_formed(self) -> bool {
        self.data@.len() == self.width * self.height * 3
    }
}

/// The network's input batch of shape [batch, 3, height, width],
/// row-major, one byte per entry.
pub struct InputTensor {
    /// The entries, row-major over all four dimensions.
    pub data: Vec<u8>,
}

impl InputTensor {
    /// The tensor holds exactly the fixed shape.
    pub open spec fn well_formed(self) -> bool {
        self.data@.len() == 30720
    }
}

/// What resizing an RGB byte image with the triangular filter
/// returns.  The result depends on the source bytes and the four
/// dimensions alone.
pub uninterp spec fn resize_triangle_of(
    data: Seq<u8>,
    width: int,
    height: int,
    nwidth: int,
    nheight: int,
) -> Seq<u8>;

/// Relies on image::imageops::resize with FilterType::Triangle: an
/// area-weighted resampling of the source image into a buffer of the
/// requested dimensions, three bytes per pixel, a pure function of
/// the source pixels and the dimensions.
#[verifier::external_body]
fn resize_triangle(img: &RgbImageBuf, nwidth: usize, nheight: usize) -> (r: Vec<u8>)
    requires
        img.well_formed(),
        1 <= img.width <= 0xffff,
        1 <= img.height <= 0xffff,
        1 <= nwidth <= 0xffff,
        1 <= nheight <= 0xffff,
    ensures
        r@ == resize_triangle_of(
            img.data@,
            img.width as int,
            img.height as int,
            nwidth as int,
            nheight as int,
        ),
        r@.len() == nwidth * nheight * 3,
{
    let buf = image::ImageBuffer::<image::Rgb<u8>, Vec<u8>>::from_vec(
        img.width as u32,
        img.height as u32,
        img.data.clone(),
    ).unwrap();
    let resized = image::imageops::resize(
        &buf,
        nwidth as u32,
        nheight as u32,
        image::imageops::FilterType::Triangle,
    );
    resized.into_vec()
}

/// Entry `k` of the assembled tensor, read from the resized image:
/// position [n, c, y, x] of the [10, 3, 32, 32] batch holds byte
/// (y·32 + x)·3 + c of the 32×32 image, whatever the batch index.
pub open spec fn tensor_entry(resized: Seq<u8>, k: int) -> u8 {
    let c = (k / 1024) % 3;
    let y = (k / 32) % 32;
    let x = k % 32;
    resized[(y * 32 + x) * 3 + c]
}

/// The flat tensor index of [n, c, y, x] decomposes back to the
/// image byte at (y, x), channel c: every batch slice repeats the
/// one frame.
pub proof fn lemma_tensor_layout(resized: Seq<u8>, n: int, c: int, y: int, x: int)
    requires
        0 <= n < 10,
        0 <= c < 3,
        0 <= y < 32,
        0 <= x < 32,
    ensures
        tensor_entry(resized, ((n * 3 + c) * 32 + y) * 32 + x) == resized[(y * 32 + x) * 3 + c],
{
    let k = ((n * 3 + c) * 32 + y) * 32 + x;
    assert(k == n * 3072 + c * 1024 + y * 32 + x);
    lemma_fundamental_div_mod_converse(k, 1024, n * 3 + c, y * 32 + x);
    lemma_fundamental_div_mod_converse(n * 3 + c, 3, n, c);
    lemma_fundamental_div_mod_converse(k, 32, (n * 3 + c) * 32 + y, x);
    lemma_fundamental_div_mod_converse((n * 3 + c) * 32 + y, 32, n * 3 + c, y);
}

/// Assemble the network input from a converted image: resize to the
/// fixed resolution, reorder to channel-major, and replicate the
/// frame across the batch dimension.
pub fn image_to_tensor(img: &RgbImageBuf) -> (t: InputTensor)
    requires
        img.well_formed(),
        1 <= img.width <= 0xffff,
        1 <= img.height <= 0xffff,
    ensures
        t.well_formed(),
        forall|k: int| 0 <= k < 30720 ==> #[trigger] t.data@[k] == tensor_entry(
            resize_triangle_of(img.data@, img.width as int, img.height as int, 32, 32),
            k,
        ),
        forall|n: int, c: int, y: int, x: int|
            0 <= n < 10 && 0 <= c < 3 && 0 <= y < 32 && 0 <= x < 32 ==> #[trigger] t.data@[((n
                * 3 + c) * 32 + y) * 32 + x] == resize_triangle_of(
                img.data@,
                img.width as int,
                img.height as int,
                32,
                32,
            )[(y * 32 + x) * 3 + c],
{
    let resized = resize_triangle(img, MODEL_WIDTH, MODEL_HEIGHT);
    let ghost rs = resized@;
    let mut data: Vec<u8> = Vec::new();
    let mut k: usize = 0;
    while k < 30720
        invariant
            rs == resized@,
            rs.len() == 3072,
            k <= 30720,
            data@.len() == k,
            forall|j: int| 0 <= j < k ==> #[trigger] data@[j] == tensor_entry(rs, j),
        decreases 30720 - k,
    {
        let c: usize = (k / 1024) % 3;
        let y: usize = (k / 32) % 32;
        let x: usize = k % 32;
        let idx: usize = (y * 32 + x) * 3 + c;
        data.push(resized[idx]);
        k = k + 1;
    }
    let t = InputTensor { data };
    proof {
        assert forall|n: int, c: int, y: int, x: int|
            0 <= n < 10 && 0 <= c < 3 && 0 <= y < 32 && 0 <= x < 32 implies #[trigger] t.data@[((
        n * 3 + c) * 32 + y) * 32 + x] == rs[(y * 32 + x) * 3 + c] by {
            assert(0 <= ((n * 3 + c) * 32 + y) * 32 + x < 30720);
            lemma_tensor_layout(rs, n, c, y, x);
        }
    }
    t
}


/// Whether a raw frame and its negotiated dimensions are acceptable
/// to the preprocessing stage.
pub open spec fn frame_dims_ok(len: int, width: int, height: int) -> bool {
    &&& 1 <= width <= 0x7fff
    &&& 1 <= height <= 0x7fff
    &&& width % 2 == 0
    &&& len == width * height * 2
}

/// The full preprocessing stage: convert a raw 4:2:2 frame to RGB,
/// resize to the network resolution and assemble the batch tensor.
/// Mismatched dimensions are rejected.
pub fn frame_to_tensor(raw: &[u8], width: usize, height: usize) -> (r: Option<InputTensor>)
    ensures
        r is Some <==> frame_dims_ok(raw@.len() as int, width as int, height as int),
        r matches Some(t) ==> {
            &&& t.well_formed()
            &&& forall|k: int| 0 <= k < 30720 ==> #[trigger] t.data@[k] == tensor_entry(
                resize_triangle_of(
                    crate::color::converted_rgb(raw@),
                    width as int,
                    height as int,
                    32,
                    32,
                ),
                k,
            )
        },
{
    if width < 1 || width > 0x7fff || height < 1 || height > 0x7fff || width % 2 != 0 {
        return None;
    }
    proof {
        assert((width as int) * (height as int) <= 0x7fff * 0x7fff) by (nonlinear_arith)
            requires
                1 <= width <= 0x7fff,
                1 <= height <= 0x7fff,
        ;
    }
    if (raw.len() as u64) != (width as u64) * (height as u64) * 2 {
        return None;
    }
    proof {
        let m = width as int / 2;
        vstd::arithmetic::div_mod::lemma_fundamental_div_mod(width as int, 2);
        assert(raw@.len() as int == (m * (height as int)) * 4 && 0 <= m * (height as int)
            && (m * (height as int)) * 6 == (width as int) * (height as int) * 3)
            by (nonlinear_arith)
            requires
                raw@.len() as int == (width as int) * (height as int) * 2,
                width as int == 2 * m + (width as int) % 2,
                (width as int) % 2 == 0,
                0 <= m,
                0 <= height,
        ;
        vstd::arithmetic::div_mod::lemma_div_by_multiple(m * (height as int), 4);
        assert(raw@.len() as int / 4 * 6 == (width as int) * (height as int) * 3);
        assert(raw@.len() as int % 4 == 0) by {
            vstd::arithmetic::div_mod::lemma_mod_multiples_basic(m * (height as int), 4);
        }
    }
    let rgb = crate::color::convert_yuyv_to_rgb(raw);
    let img = RgbImageBuf { width, height, data: rgb };
    Some(image_to_tensor(&img))
}

} // verus!

