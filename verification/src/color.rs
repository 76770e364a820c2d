//! Colorspace conversion of raw 4:2:2 packed frames.
//!
//! Each 4-byte group of a raw frame encodes two horizontally adjacent
//! pixels as (Y0, U, Y1, V).  Per pixel the conversion computes
//! R = Y + 1.402·(V−128), G = Y − 0.344·(U−128) − 0.714·(V−128),
//! B = Y + 1.772·(U−128), each channel clamped to [0, 255] and rounded
//! to the nearest byte.  The coefficients are thousandths, so each
//! channel is an exact integer computation in milli-units.

use vstd::prelude::*;
use vstd::arithmetic::div_mod::lemma_fundamental_div_mod;
use vstd::arithmetic::div_mod::lemma_fundamental_div_mod_converse;

verus! {

/// Round a milli-unit value to the nearest integer (half rounds up)
/// and clamp the result to the byte range.
pub open spec fn clamp_round_milli(num: int) -> int {
    let rounded = (2 * num + 1000) / 2000;
    if rounded < 0 {
        0
    } else if rounded > 255 {
        255
    } else {
        rounded
    }
}

/// The red channel of a pixel with luma `y` and chroma `u`, `v`.
pub open spec fn red_of(y: int, u: int, v: int) -> int {
    clamp_round_milli(1000 * y + 1402 * (v - 128))
}

/// The green channel of a pixel with luma `y` and chroma `u`, `v`.
pub open spec fn green_of(y: int, u: int, v: int) -> int {
    clamp_round_milli(1000 * y - 344 * (u - 128) - 714 * (v - 128))
}

/// The blue channel of a pixel with luma `y` and chroma `u`, `v`.
pub open spec fn blue_of(y: int, u: int, v: int) -> int {
    clamp_round_milli(1000 * y + 1772 * (u - 128))
}

/// Group `i` of the raw buffer converted correctly: the 4 source
/// bytes (Y0, U, Y1, V) at `4i` became the 6 output bytes
/// (R0, G0, B0, R1, G1, B1) at `6i`.
pub open spec fn group_converted(raw: Seq<u8>, rgb: Seq<u8>, i: int) -> bool {
    let y0 = raw[4 * i] as int;
    let u = raw[4 * i + 1] as int;
    let y1 = raw[4 * i + 2] as int;
    let v = raw[4 * i + 3] as int;
    &&& rgb[6 * i] == red_of(y0, u, v)
    &&& rgb[6 * i + 1] == green_of(y0, u, v)
    &&& rgb[6 * i + 2] == blue_of(y0, u, v)
    &&& rgb[6 * i + 3] == red_of(y1, u, v)
    &&& rgb[6 * i + 4] == green_of(y1, u, v)
    &&& rgb[6 * i + 5] == blue_of(y1, u, v)
}

/// Byte `j` of the converted image, as a function of the raw bytes:
/// the pixel pair at group `j / 6` supplies the luma and chroma, and
/// `j % 6` selects the pixel and channel.
pub open spec fn rgb_byte_of(raw: Seq<u8>, j: int) -> u8 {
    let g = j / 6;
    let o = j % 6;
    let y = if o < 3 {
        raw[4 * g] as int
    } else {
        raw[4 * g + 2] as int
    };
    let u = raw[4 * g + 1] as int;
    let v = raw[4 * g + 3] as int;
    if o % 3 == 0 {
        red_of(y, u, v) as u8
    } else if o % 3 == 1 {
        green_of(y, u, v) as u8
    } else {
        blue_of(y, u, v) as u8
    }
}

/// The whole converted image as a function of the raw buffer.
pub open spec fn converted_rgb(raw: Seq<u8>) -> Seq<u8> {
    Seq::new((raw.len() / 4 * 6) as nat, |j: int| rgb_byte_of(raw, j))
}

/// Every channel of every converted pixel lies in the byte range.
pub proof fn lemma_channel_in_byte_range(y: int, u: int, v: int)
    ensures
        0 <= red_of(y, u, v) <= 255,
        0 <= green_of(y, u, v) <= 255,
        0 <= blue_of(y, u, v) <= 255,
{
}

/// A pure gray pair (U = V = 128) converts each pixel to
/// R = G = B = Y exactly.
pub proof fn lemma_gray_is_identity(y: int)
    requires
        0 <= y <= 255,
    ensures
        red_of(y, 128, 128) == y,
        green_of(y, 128, 128) == y,
        blue_of(y, 128, 128) == y,
{
    assert(2 * (1000 * y) + 1000 == 2000 * y + 1000);
    lemma_fundamental_div_mod_converse(2000 * y + 1000, 2000, y, 1000);
}

/// Compute one channel from its milli-unit value.
fn milli_channel(num: i32) -> (b: u8)
    requires
        -1000000 <= num <= 1000000,
    ensures
        b == clamp_round_milli(num as int),
{
    if num < 0 {
        proof {
            let t = 2 * (num as int) + 1000;
            if t >= 0 {
                // then 0 <= t < 1000, so the quotient is 0
                assert(t / 2000 == 0) by {
                    lemma_fundamental_div_mod_converse(t, 2000, 0, t);
                }
            } else {
                assert(t / 2000 < 0) by {
                    vstd::arithmetic::div_mod::lemma_div_is_ordered(t, -1, 2000);
                    assert((-1int) / 2000 == -1) by {
                        lemma_fundamental_div_mod_converse(-1, 2000, -1, 1999);
                    }
                }
            }
        }
        0
    } else {
        let t: i32 = 2 * num + 1000;
        let q: i32 = t / 2000;
        proof {
            vstd::arithmetic::div_mod::lemma_div_pos_is_pos(t as int, 2000);
        }
        if q > 255 {
            255
        } else {
            q as u8
        }
    }
}

/// Convert a raw 4:2:2 packed buffer to packed linear RGB bytes, two
/// pixels per 4-byte source group, output ordering matching input
/// pixel ordering.
pub fn convert_yuyv_to_rgb(yuyv: &[u8]) -> (rgb: Vec<u8>)
    requires
        yuyv@.len() % 4 == 0,
        yuyv@.len() * 2 <= usize::MAX,
    ensures
        rgb@.len() == yuyv@.len() / 4 * 6,
        forall|i: int| 0 <= i < yuyv@.len() / 4 ==> #[trigger] group_converted(yuyv@, rgb@, i),
        rgb@ == converted_rgb(yuyv@),
{
    let groups: usize = yuyv.len() / 4;
    proof {
        lemma_fundamental_div_mod(yuyv@.len() as int, 4);
    }
    let mut rgb: Vec<u8> = Vec::new();
    let mut i: usize = 0;
    while i < groups
        invariant
            groups == yuyv@.len() / 4,
            yuyv@.len() == 4 * groups,
            yuyv@.len() * 2 <= usize::MAX,
            i <= groups,
            rgb@.len() == 6 * i,
            forall|j: int| 0 <= j < i ==> #[trigger] group_converted(yuyv@, rgb@, j),
        decreases groups - i,
    {
        let y0 = yuyv[4 * i] as i32;
        let u = yuyv[4 * i + 1] as i32;
        let y1 = yuyv[4 * i + 2] as i32;
        let v = yuyv[4 * i + 3] as i32;
        let ghost prev = rgb@;
        rgb.push(milli_channel(1000 * y0 + 1402 * (v - 128)));
        rgb.push(milli_channel(1000 * y0 - 344 * (u - 128) - 714 * (v - 128)));
        rgb.push(milli_channel(1000 * y0 + 1772 * (u - 128)));
        rgb.push(milli_channel(1000 * y1 + 1402 * (v - 128)));
        rgb.push(milli_channel(1000 * y1 - 344 * (u - 128) - 714 * (v - 128)));
        rgb.push(milli_channel(1000 * y1 + 1772 * (u - 128)));
        proof {
            assert forall|j: int| 0 <= j < i implies #[trigger] group_converted(
                yuyv@,
                rgb@,
                j,
            ) by {
                assert(group_converted(yuyv@, prev, j));
                assert(rgb@[6 * j] == prev[6 * j]);
                assert(rgb@[6 * j + 1] == prev[6 * j + 1]);
                assert(rgb@[6 * j + 2] == prev[6 * j + 2]);
                assert(rgb@[6 * j + 3] == prev[6 * j + 3]);
                assert(rgb@[6 * j + 4] == prev[6 * j + 4]);
                assert(rgb@[6 * j + 5] == prev[6 * j + 5]);
            }
            assert(group_converted(yuyv@, rgb@, i as int));
        }
        i = i + 1;
    }
    proof {
        assert forall|j: int| 0 <= j < rgb@.len() implies rgb@[j] == rgb_byte_of(yuyv@, j) by {
            lemma_fundamental_div_mod(j, 6);
            let g = j / 6;
            let o = j % 6;
            vstd::arithmetic::div_mod::lemma_mod_division_less_than_divisor(j, 6);
            vstd::arithmetic::div_mod::lemma_div_pos_is_pos(j, 6);
            assert(g < yuyv@.len() / 4) by {
                if g >= yuyv@.len() as int / 4 {
                    vstd::arithmetic::mul::lemma_mul_inequality(
                        yuyv@.len() as int / 4,
                        g,
                        6,
                    );
                }
            }
            assert(group_converted(yuyv@, rgb@, g));
            lemma_channel_in_byte_range(
                yuyv@[4 * g] as int,
                yuyv@[4 * g + 1] as int,
                yuyv@[4 * g + 3] as int,
            );
            lemma_channel_in_byte_range(
                yuyv@[4 * g + 2] as int,
                yuyv@[4 * g + 1] as int,
                yuyv@[4 * g + 3] as int,
            );
        }
        assert(rgb@ =~= converted_rgb(yuyv@));
    }
    rgb
}

} // verus!
