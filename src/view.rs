//! Fitting the canvas into the window, and fading and packing its pixels.

use vstd::prelude::*;

use crate::geometry::{in_design, Point, DESIGN_HEIGHT, DESIGN_ORIGIN_X, DESIGN_ORIGIN_Y, DESIGN_WIDTH};

verus! {

/// How the canvas maps onto a window: `scale_num / scale_den` pixels per
/// design unit, then shifted right by `offset_x_num / (2 * scale_den)` pixels
/// and down by `offset_y_num / (2 * scale_den)` pixels to centre it.
#[derive(Clone, Copy, Debug, PartialEq, Eq, Structural)]
pub struct Fit {
    pub scale_num: u64,
    pub scale_den: u64,
    pub offset_x_num: u64,
    pub offset_y_num: u64,
}

/// The largest uniform scale that shows the whole canvas in a `width` by
/// `height` window, centred with equal margins on either side.
pub open spec fn spec_fit(width: u32, height: u32) -> Fit {
    let (num, den) = if width * DESIGN_HEIGHT <= height * DESIGN_WIDTH {
        (width as int, DESIGN_WIDTH as int)
    } else {
        (height as int, DESIGN_HEIGHT as int)
    };
    Fit {
        scale_num: num as u64,
        scale_den: den as u64,
        offset_x_num: (width * den - DESIGN_WIDTH * num) as u64,
        offset_y_num: (height * den - DESIGN_HEIGHT * num) as u64,
    }
}

/// Chooses the scale and margins that fit the canvas into the window.
pub fn fit(width: u32, height: u32) -> (r: Fit)
    ensures
        r == spec_fit(width, height),
{
    let w = width as u64;
    let h = height as u64;
    let dw = DESIGN_WIDTH as u64;
    let dh = DESIGN_HEIGHT as u64;
    let (num, den) = if w * dh <= h * dw {
        (w, dw)
    } else {
        (h, dh)
    };
    proof {
        if w * dh <= h * dw {
            assert(h * den - dh * num >= 0);
        } else {
            assert(w * den - dw * num >= 0);
        }
    }
    Fit { scale_num: num, scale_den: den, offset_x_num: w * den - dw * num, offset_y_num: h * den - dh * num }
}

/// The scale is the smaller of `width / DESIGN_WIDTH` and
/// `height / DESIGN_HEIGHT`, and every point of the canvas lands inside the
/// window: twice its pixel position times `scale_den` lies between zero and
/// twice the window's size times `scale_den`.
pub proof fn lemma_fit_inside(width: u32, height: u32, p: Point)
    requires
        width > 0,
        height > 0,
        in_design(p),
    ensures
        ({
            let f = spec_fit(width, height);
            let px = 2 * (p.x + DESIGN_ORIGIN_X) * f.scale_num + f.offset_x_num;
            let py = 2 * (p.y + DESIGN_ORIGIN_Y) * f.scale_num + f.offset_y_num;
            &&& f.scale_den > 0
            &&& width * DESIGN_HEIGHT < height * DESIGN_WIDTH ==> f.scale_num == width
                && f.scale_den == DESIGN_WIDTH
            &&& height * DESIGN_WIDTH < width * DESIGN_HEIGHT ==> f.scale_num == height
                && f.scale_den == DESIGN_HEIGHT
            &&& f.scale_num * DESIGN_WIDTH <= width * f.scale_den
            &&& f.scale_num * DESIGN_HEIGHT <= height * f.scale_den
            &&& 0 <= px <= 2 * width * f.scale_den
            &&& 0 <= py <= 2 * height * f.scale_den
        }),
{
    let f = spec_fit(width, height);
    let num = f.scale_num as int;
    let den = f.scale_den as int;
    let ux = p.x + DESIGN_ORIGIN_X;
    let uy = p.y + DESIGN_ORIGIN_Y;
    assert(0 <= ux * num <= DESIGN_WIDTH * num) by (nonlinear_arith)
        requires
            0 <= ux <= DESIGN_WIDTH,
            0 <= num,
    ;
    assert(0 <= uy * num <= DESIGN_HEIGHT * num) by (nonlinear_arith)
        requires
            0 <= uy <= DESIGN_HEIGHT,
            0 <= num,
    ;
    assert(2 * ux * num == 2 * (ux * num)) by (nonlinear_arith);
    assert(2 * uy * num == 2 * (uy * num)) by (nonlinear_arith);
    assert(2 * width * den == 2 * (width * den)) by (nonlinear_arith);
    assert(2 * height * den == 2 * (height * den)) by (nonlinear_arith);
}

/// A channel faded to `opacity` hundredths, rounded down.
pub open spec fn fade(c: u8, opacity: u32) -> u32 {
    ((c as int) * (opacity as int) / 100) as u32
}

/// Blue in the low byte, then green, red and alpha.
pub open spec fn packed(r: u32, g: u32, b: u32, a: u32) -> u32 {
    (b + g * 0x100 + r * 0x1_0000 + a * 0x100_0000) as u32
}

/// The pixels of an RGBA byte buffer, faded and packed, one word per pixel.
pub open spec fn composited(data: Seq<u8>, opacity: u32) -> Seq<u32> {
    Seq::new(
        data.len() / 4,
        |i: int|
            packed(
                fade(data[4 * i], opacity),
                fade(data[4 * i + 1], opacity),
                fade(data[4 * i + 2], opacity),
                fade(data[4 * i + 3], opacity),
            ),
    )
}

/// Packs four channels below 256 into one word.
pub fn pack(r: u32, g: u32, b: u32, a: u32) -> (w: u32)
    requires
        r < 0x100,
        g < 0x100,
        b < 0x100,
        a < 0x100,
    ensures
        w == packed(r, g, b, a),
{
    let w = b | (g << 8) | (r << 16) | (a << 24);
    assert(w == b + g * 0x100 + r * 0x1_0000 + a * 0x100_0000) by (bit_vector)
        requires
            r < 0x100,
            g < 0x100,
            b < 0x100,
            a < 0x100,
            w == b | (g << 8) | (r << 16) | (a << 24),
    ;
    w
}

fn fade_channel(c: u8, opacity: u32) -> (r: u32)
    requires
        opacity <= 100,
    ensures
        r == fade(c, opacity),
        r < 0x100,
{
    proof {
        assert(0 <= (c as int) * (opacity as int) <= 255 * 100) by (nonlinear_arith)
            requires
                0 <= c <= 255,
                0 <= opacity <= 100,
        ;
        assert((c as int) * (opacity as int) / 100 <= 255) by (nonlinear_arith)
            requires
                0 <= (c as int) * (opacity as int) <= 255 * 100,
        ;
    }
    (c as u32) * opacity / 100
}

/// Fades every channel of an RGBA byte buffer, alpha included, to `opacity`
/// hundredths, rounding down, and packs each pixel into one word.
pub fn composite(data: &[u8], opacity: u32) -> (r: Vec<u32>)
    requires
        data@.len() % 4 == 0,
        opacity <= 100,
    ensures
        r@ == composited(data@, opacity),
{
    let len = data.len();
    let n = len / 4;
    let mut out: Vec<u32> = Vec::with_capacity(n);
    let mut i: usize = 0;
    while i < n
        invariant
            len == data@.len(),
            n == data@.len() / 4,
            data@.len() % 4 == 0,
            opacity <= 100,
            i <= n,
            out@ == composited(data@, opacity).subrange(0, i as int),
        decreases n - i,
    {
        proof {
            let len = len as int;
            vstd::arithmetic::div_mod::lemma_fundamental_div_mod(len, 4);
            assert(4 * i + 4 <= len) by (nonlinear_arith)
                requires
                    len == 4 * (len / 4) + len % 4,
                    i < len / 4,
                    i >= 0,
            ;
        }
        let k = 4 * i;
        let px = pack(
            fade_channel(data[k], opacity),
            fade_channel(data[k + 1], opacity),
            fade_channel(data[k + 2], opacity),
            fade_channel(data[k + 3], opacity),
        );
        out.push(px);
        proof {
            assert(composited(data@, opacity).subrange(0, i + 1) =~= composited(data@, opacity).subrange(
                0,
                i as int,
            ).push(px));
        }
        i = i + 1;
    }
    proof {
        assert(composited(data@, opacity).subrange(0, n as int) =~= composited(data@, opacity));
    }
    out
}

/// At full opacity compositing only packs the pixels; at zero opacity every
/// pixel is zero.
pub proof fn lemma_composite_extremes(data: Seq<u8>)
    ensures
        composited(data, 100) == Seq::new(
            data.len() / 4,
            |i: int|
                packed(
                    data[4 * i] as u32,
                    data[4 * i + 1] as u32,
                    data[4 * i + 2] as u32,
                    data[4 * i + 3] as u32,
                ),
        ),
        composited(data, 0) == Seq::new(data.len() / 4, |i: int| 0u32),
{
    assert forall|c: u8| #[trigger] fade(c, 100) == c as u32 && fade(c, 0) == 0 by {
        assert((c as int) * 100 / 100 == c as int) by (nonlinear_arith);
    }
    assert(composited(data, 100) =~= Seq::new(
        data.len() / 4,
        |i: int|
            packed(
                data[4 * i] as u32,
                data[4 * i + 1] as u32,
                data[4 * i + 2] as u32,
                data[4 * i + 3] as u32,
            ),
    ));
    assert(composited(data, 0) =~= Seq::new(data.len() / 4, |i: int| 0u32));
}

} // verus!
