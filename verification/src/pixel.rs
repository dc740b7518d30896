//! The gradient renderer: a pure function from (position, shift, size) to
//! pixel bytes, with the 32-bit little-endian alpha-red-green-blue packing
//! stated and proved.

use vstd::prelude::*;

verus! {

use vstd::arithmetic::div_mod::{
    lemma_add_mod_noop, lemma_div_is_ordered, lemma_div_multiples_vanish, lemma_div_pos_is_pos,
    lemma_fundamental_div_mod_converse, lemma_mod_division_less_than_divisor, lemma_multiply_divide_lt,
    lemma_small_mod,
};
use crate::MAX_DIM;

/// The smaller of two integers.
pub open spec fn min2(a: int, b: int) -> int {
    if a <= b {
        a
    } else {
        b
    }
}

/// Red channel of the diagonal gradient: the lesser of the normalized
/// distances to the right and bottom edges, scaled to 0..=255.
pub open spec fn chan_r(x: int, y: int, w: int, h: int) -> int {
    min2(((w - x) * 255) / w, ((h - y) * 255) / h)
}

/// Green channel: the lesser of the normalized distances to the left and
/// bottom edges, scaled to 0..=255.
pub open spec fn chan_g(x: int, y: int, w: int, h: int) -> int {
    min2((x * 255) / w, ((h - y) * 255) / h)
}

/// Blue channel: the lesser of the normalized distances to the right and top
/// edges, scaled to 0..=255.
pub open spec fn chan_b(x: int, y: int, w: int, h: int) -> int {
    min2(((w - x) * 255) / w, (y * 255) / h)
}

/// Column that pixel index `p` samples once the animation shift is applied.
pub open spec fn shifted_x(p: int, shift: int, w: int) -> int {
    (p + shift) % w
}

/// Row of pixel index `p` in row-major order.
pub open spec fn pixel_y(p: int, w: int) -> int {
    p / w
}

/// Byte `i` of a rendered frame. Pixels are packed as 32-bit words in
/// alpha-red-green-blue channel order, stored little-endian, so the bytes of
/// each pixel are blue, green, red, alpha in that order, and the alpha byte
/// is always 255.
pub open spec fn frame_byte(i: int, shift: int, w: int, h: int) -> u8 {
    let p = i / 4;
    let k = i % 4;
    let x = shifted_x(p, shift, w);
    let y = pixel_y(p, w);
    if k == 0 {
        chan_b(x, y, w, h) as u8
    } else if k == 1 {
        chan_g(x, y, w, h) as u8
    } else if k == 2 {
        chan_r(x, y, w, h) as u8
    } else {
        255u8
    }
}

/// The whole frame, as the byte sequence handed to the compositor.
pub open spec fn frame_bytes(w: int, h: int, shift: int) -> Seq<u8> {
    Seq::new((4 * (w * h)) as nat, |i: int| frame_byte(i, shift, w, h))
}

/// The 32-bit word stored by four consecutive little-endian bytes.
pub open spec fn word_from_le_bytes(b0: u8, b1: u8, b2: u8, b3: u8) -> int {
    b0 + 256 * b1 + 65536 * b2 + 16777216 * b3
}

/// The packed alpha-red-green-blue word of the gradient at (x, y).
pub open spec fn packed_pixel(x: int, y: int, w: int, h: int) -> int {
    16777216 * 255 + 65536 * chan_r(x, y, w, h) + 256 * chan_g(x, y, w, h) + chan_b(x, y, w, h)
}

/// Alpha channel of a packed 32-bit word.
pub open spec fn unpack_a(v: int) -> int {
    (v / 16777216) % 256
}

/// Red channel of a packed 32-bit word.
pub open spec fn unpack_r(v: int) -> int {
    (v / 65536) % 256
}

/// Green channel of a packed 32-bit word.
pub open spec fn unpack_g(v: int) -> int {
    (v / 256) % 256
}

/// Blue channel of a packed 32-bit word.
pub open spec fn unpack_b(v: int) -> int {
    v % 256
}

/// Each gradient channel lies in 0..=255.
pub proof fn lemma_channel_bounds(x: int, y: int, w: int, h: int)
    requires
        0 <= x < w,
        0 <= y < h,
    ensures
        0 <= chan_r(x, y, w, h) <= 255,
        0 <= chan_g(x, y, w, h) <= 255,
        0 <= chan_b(x, y, w, h) <= 255,
{
    lemma_div_pos_is_pos((w - x) * 255, w);
    lemma_div_pos_is_pos(x * 255, w);
    lemma_div_pos_is_pos((h - y) * 255, h);
    lemma_div_pos_is_pos(y * 255, h);
    lemma_div_is_ordered((w - x) * 255, w * 255, w);
    lemma_div_is_ordered(x * 255, w * 255, w);
    lemma_div_is_ordered((h - y) * 255, h * 255, h);
    lemma_div_is_ordered(y * 255, h * 255, h);
    lemma_div_multiples_vanish(255, w);
    lemma_div_multiples_vanish(255, h);
    assert(w * 255 == 255 * w) by (nonlinear_arith);
    assert(h * 255 == 255 * h) by (nonlinear_arith);
}

/// Every pixel of every frame is fully opaque: the alpha byte (the fourth of
/// each little-endian pixel) is 255 whatever the position, shift and size.
pub proof fn lemma_alpha_opaque(shift: int, w: int, h: int)
    ensures
        forall|p: int| 0 <= p ==> #[trigger] frame_byte(4 * p + 3, shift, w, h) == 255u8,
{
    assert forall|p: int| 0 <= p implies #[trigger] frame_byte(4 * p + 3, shift, w, h)
        == 255u8 by {
        lemma_fundamental_div_mod_converse(4 * p + 3, 4, p, 3);
    }
}

/// Round trip of the declared packing: the four bytes a frame stores for
/// pixel `p`, read back as one little-endian 32-bit word, equal the packed
/// alpha-red-green-blue word of the gradient, and unpacking that word channel
/// by channel returns exactly the computed (a, r, g, b) values.
pub proof fn lemma_round_trip(p: int, shift: int, w: int, h: int)
    requires
        1 <= w,
        1 <= h,
        0 <= shift,
        0 <= p < w * h,
    ensures
        ({
            let x = shifted_x(p, shift, w);
            let y = pixel_y(p, w);
            let v = word_from_le_bytes(
                frame_byte(4 * p, shift, w, h),
                frame_byte(4 * p + 1, shift, w, h),
                frame_byte(4 * p + 2, shift, w, h),
                frame_byte(4 * p + 3, shift, w, h),
            );
            &&& v == packed_pixel(x, y, w, h)
            &&& unpack_a(v) == 255
            &&& unpack_r(v) == chan_r(x, y, w, h)
            &&& unpack_g(v) == chan_g(x, y, w, h)
            &&& unpack_b(v) == chan_b(x, y, w, h)
        }),
{
    let x = shifted_x(p, shift, w);
    let y = pixel_y(p, w);
    lemma_mod_division_less_than_divisor(p + shift, w);
    lemma_div_pos_is_pos(p, w);
    lemma_multiply_divide_lt(p, w, h);
    lemma_channel_bounds(x, y, w, h);
    let cb = chan_b(x, y, w, h);
    let cg = chan_g(x, y, w, h);
    let cr = chan_r(x, y, w, h);
    lemma_fundamental_div_mod_converse(4 * p, 4, p, 0);
    lemma_fundamental_div_mod_converse(4 * p + 1, 4, p, 1);
    lemma_fundamental_div_mod_converse(4 * p + 2, 4, p, 2);
    lemma_fundamental_div_mod_converse(4 * p + 3, 4, p, 3);
    let v = cb + 256 * cg + 65536 * cr + 16777216 * 255;
    assert(v == word_from_le_bytes(
        frame_byte(4 * p, shift, w, h),
        frame_byte(4 * p + 1, shift, w, h),
        frame_byte(4 * p + 2, shift, w, h),
        frame_byte(4 * p + 3, shift, w, h),
    ));
    lemma_fundamental_div_mod_converse(v, 256, cg + 256 * cr + 65536 * 255, cb);
    lemma_fundamental_div_mod_converse(cg + 256 * cr + 65536 * 255, 256, cr + 256 * 255, cg);
    lemma_fundamental_div_mod_converse(v, 65536, 256 * 255 + cr, 256 * cg + cb);
    lemma_fundamental_div_mod_converse(256 * 255 + cr, 256, 255, cr);
    lemma_fundamental_div_mod_converse(v, 16777216, 255, 65536 * cr + 256 * cg + cb);
    lemma_small_mod(255, 256);
}

/// Render one full frame of `width * height` pixels for the given animation
/// shift. The result is exactly the byte sequence `frame_bytes` describes: a
/// deterministic function of width, height and shift alone.
pub fn render_frame(width: u32, height: u32, shift: u32) -> (r: Vec<u8>)
    requires
        1 <= width <= MAX_DIM,
        1 <= height <= MAX_DIM,
        shift < width,
        4 * ((width as int) * (height as int)) <= usize::MAX,
    ensures
        r@ == frame_bytes(width as int, height as int, shift as int),
        r@.len() == 4 * ((width as int) * (height as int)),
{
    let w: usize = width as usize;
    proof {
        assert((width as int) * (height as int) >= 0) by (nonlinear_arith);
    }
    let npix: usize = w * (height as usize);
    let mut buf: Vec<u8> = Vec::new();
    let mut p: usize = 0;
    while p < npix
        invariant
            1 <= width <= MAX_DIM,
            1 <= height <= MAX_DIM,
            shift < width,
            w == width,
            npix == width * height,
            4 * npix <= usize::MAX,
            p <= npix,
            buf@.len() == 4 * p,
            forall|i: int|
                0 <= i < 4 * p ==> buf@[i] == frame_byte(
                    i,
                    shift as int,
                    width as int,
                    height as int,
                ),
        decreases npix - p,
    {
        proof {
            lemma_mod_division_less_than_divisor(p as int, w as int);
            lemma_div_pos_is_pos(p as int, w as int);
            lemma_multiply_divide_lt(p as int, w as int, height as int);
        }
        let xi: u32 = (p % w) as u32;
        let y: u32 = (p / w) as u32;
        let sx: u32 = (xi + shift) % width;
        proof {
            lemma_mod_division_less_than_divisor(xi + shift, width as int);
            lemma_small_mod(shift as nat, width as nat);
            lemma_add_mod_noop(p as int, shift as int, width as int);
            assert(shifted_x(p as int, shift as int, width as int) == sx);
            lemma_channel_bounds(sx as int, y as int, width as int, height as int);
        }
        let dr: u32 = ((width - sx) * 255) / width;
        let db: u32 = ((height - y) * 255) / height;
        let dg: u32 = (sx * 255) / width;
        let dt: u32 = (y * 255) / height;
        let cr: u32 = if dr <= db {
            dr
        } else {
            db
        };
        let cg: u32 = if dg <= db {
            dg
        } else {
            db
        };
        let cb: u32 = if dr <= dt {
            dr
        } else {
            dt
        };
        proof {
            assert(cr == chan_r(sx as int, y as int, width as int, height as int));
            assert(cg == chan_g(sx as int, y as int, width as int, height as int));
            assert(cb == chan_b(sx as int, y as int, width as int, height as int));
            lemma_fundamental_div_mod_converse(4 * p as int, 4, p as int, 0);
            lemma_fundamental_div_mod_converse(4 * p as int + 1, 4, p as int, 1);
            lemma_fundamental_div_mod_converse(4 * p as int + 2, 4, p as int, 2);
            lemma_fundamental_div_mod_converse(4 * p as int + 3, 4, p as int, 3);
        }
        buf.push(cb as u8);
        buf.push(cg as u8);
        buf.push(cr as u8);
        buf.push(255u8);
        p = p + 1;
    }
    proof {
        assert(buf@ =~= frame_bytes(width as int, height as int, shift as int));
    }
    buf
}

} // verus!
