//! Integer pixel work of the overlay: reading the screenshot, writing the
//! magnified lens, blending glyph coverage and the final RGBA to BGRA swizzle.

use vstd::prelude::*;

verus! {

/// `v` limited to the last valid coordinate of an axis of `size` pixels
/// (to 0 when the axis is empty).
pub open spec fn clamp_coord(v: u32, size: u32) -> u32 {
    let last: u32 = if size == 0 { 0 } else { (size - 1) as u32 };
    if v < last { v } else { last }
}

/// Byte offset of pixel `(x, y)` in a tightly packed RGBA image `w` pixels wide,
/// after both coordinates are clamped into the image.
pub open spec fn sample_offset(w: u32, h: u32, x: u32, y: u32) -> int {
    (clamp_coord(y, h) * w + clamp_coord(x, w)) * 4
}

/// The RGBA colour at `(x, y)`, clamped into the image; opaque black when the
/// pixel lies beyond the end of `shot`.
pub open spec fn spec_sample_pixel(shot: Seq<u8>, w: u32, h: u32, x: u32, y: u32) -> Seq<u8> {
    let idx = sample_offset(w, h, x, y);
    if idx + 3 < shot.len() {
        seq![shot[idx], shot[idx + 1], shot[idx + 2], shot[idx + 3]]
    } else {
        seq![0u8, 0u8, 0u8, 255u8]
    }
}

/// Reads the RGBA colour of the screenshot at `(x, y)`, with the coordinates
/// clamped into the `shot_w` x `shot_h` image.
pub fn sample_pixel(screenshot: &[u8], shot_w: u32, shot_h: u32, x: u32, y: u32) -> (res: [u8; 4])
    requires
        sample_offset(shot_w, shot_h, x, y) <= u32::MAX,
    ensures
        res@ == spec_sample_pixel(screenshot@, shot_w, shot_h, x, y),
{
    let last_x = shot_w.saturating_sub(1);
    let last_y = shot_h.saturating_sub(1);
    let cx = if x < last_x { x } else { last_x };
    let cy = if y < last_y { y } else { last_y };
    let row = cy * shot_w;
    let idx = ((row + cx) * 4) as usize;
    let len = screenshot.len();
    if idx < len && len - idx > 3 {
        let res = [screenshot[idx], screenshot[idx + 1], screenshot[idx + 2], screenshot[idx + 3]];
        assert(res@ =~= spec_sample_pixel(screenshot@, shot_w, shot_h, x, y));
        res
    } else {
        let res = [0u8, 0u8, 0u8, 255u8];
        assert(res@ =~= seq![0u8, 0u8, 0u8, 255u8]);
        res
    }
}

/// `(px, py)` lies on a canvas `pw` x `ph` pixels large.
pub open spec fn on_canvas(pw: i32, ph: i32, px: i32, py: i32) -> bool {
    0 <= px < pw && 0 <= py < ph
}

/// Byte offset of canvas pixel `(px, py)` in a canvas `pw` pixels wide.
pub open spec fn canvas_offset(pw: i32, px: i32, py: i32) -> int {
    (py * pw + px) * 4
}

/// `data` with the four bytes at `idx` replaced by `p`.
pub open spec fn put_pixel(data: Seq<u8>, idx: int, p: Seq<u8>) -> Seq<u8> {
    data.update(idx, p[0]).update(idx + 1, p[1]).update(idx + 2, p[2]).update(idx + 3, p[3])
}

/// The lens writes the sampled colour, fully opaque, at `(px, py)` when that
/// pixel is on the canvas and inside `data`; otherwise `data` stays as it is.
pub open spec fn spec_store_lens_pixel(
    data: Seq<u8>,
    pw: i32,
    ph: i32,
    px: i32,
    py: i32,
    color: Seq<u8>,
) -> Seq<u8> {
    let idx = canvas_offset(pw, px, py);
    if on_canvas(pw, ph, px, py) && idx + 3 < data.len() {
        put_pixel(data, idx, seq![color[0], color[1], color[2], 255u8])
    } else {
        data
    }
}

/// Writes one magnified lens pixel of the colour `color` into the canvas.
pub fn store_lens_pixel(data: &mut [u8], pw: i32, ph: i32, px: i32, py: i32, color: [u8; 4])
    requires
        on_canvas(pw, ph, px, py) ==> canvas_offset(pw, px, py) <= i32::MAX,
    ensures
        final(data)@ == spec_store_lens_pixel(old(data)@, pw, ph, px, py, color@),
{
    if px < 0 || py < 0 || px >= pw || py >= ph {
        return;
    }
    let row = py * pw;
    let idx = ((row + px) * 4) as usize;
    let len = data.len();
    if idx < len && len - idx > 3 {
        data[idx] = color[0];
        data[idx + 1] = color[1];
        data[idx + 2] = color[2];
        data[idx + 3] = 255;
        assert(data@ =~= spec_store_lens_pixel(old(data)@, pw, ph, px, py, color@));
    }
}

/// One colour channel of the glyph colour `c` laid over `d` with coverage
/// alpha `a` out of 255.
pub open spec fn blend_channel(d: u8, c: u8, a: u32) -> u8 {
    ((d * (255 - a) + c * a) / 255) as u8
}

/// The alpha channel after laying coverage alpha `a` over alpha `d`.
pub open spec fn blend_alpha(d: u8, a: u32) -> u8 {
    (d + a * (255 - d) / 255) as u8
}

/// The canvas after blending the glyph colour `color` with coverage alpha `a`
/// into pixel `(px, py)`; pixels off the canvas, beyond `data` or of zero
/// coverage leave it as it is.
pub open spec fn spec_blend_glyph_pixel(
    data: Seq<u8>,
    pw: i32,
    ph: i32,
    px: i32,
    py: i32,
    color: Seq<u8>,
    a: u32,
) -> Seq<u8> {
    let idx = canvas_offset(pw, px, py);
    if on_canvas(pw, ph, px, py) && idx + 3 < data.len() && a != 0 {
        put_pixel(
            data,
            idx,
            seq![
                blend_channel(data[idx], color[0], a),
                blend_channel(data[idx + 1], color[1], a),
                blend_channel(data[idx + 2], color[2], a),
                blend_alpha(data[idx + 3], a),
            ],
        )
    } else {
        data
    }
}

/// Blends one covered pixel of a text glyph into the canvas; `src_a` is the
/// glyph's coverage times the colour's alpha, rounded.
pub fn blend_glyph_pixel(
    data: &mut [u8],
    pw: i32,
    ph: i32,
    px: i32,
    py: i32,
    color: [u8; 4],
    src_a: u32,
)
    requires
        src_a <= 255,
        on_canvas(pw, ph, px, py) ==> canvas_offset(pw, px, py) <= i32::MAX,
    ensures
        final(data)@ == spec_blend_glyph_pixel(old(data)@, pw, ph, px, py, color@, src_a),
{
    if px < 0 || py < 0 || px >= pw || py >= ph {
        return;
    }
    let row = py * pw;
    let idx = ((row + px) * 4) as usize;
    let len = data.len();
    if !(idx < len && len - idx > 3) {
        return;
    }
    if src_a == 0 {
        return;
    }
    let inv_a = 255 - src_a;
    let d0 = data[idx] as u32;
    let d1 = data[idx + 1] as u32;
    let d2 = data[idx + 2] as u32;
    let d3 = data[idx + 3] as u32;
    assert(d0 * inv_a <= 255 * 255 && color[0] as u32 * src_a <= 255 * 255) by (nonlinear_arith)
        requires d0 <= 255, inv_a <= 255, color[0] <= 255, src_a <= 255;
    assert(d1 * inv_a <= 255 * 255 && color[1] as u32 * src_a <= 255 * 255) by (nonlinear_arith)
        requires d1 <= 255, inv_a <= 255, color[1] <= 255, src_a <= 255;
    assert(d2 * inv_a <= 255 * 255 && color[2] as u32 * src_a <= 255 * 255) by (nonlinear_arith)
        requires d2 <= 255, inv_a <= 255, color[2] <= 255, src_a <= 255;
    assert(src_a * (255 - d3) <= 255 * 255) by (nonlinear_arith)
        requires d3 <= 255, src_a <= 255;
    data[idx] = ((d0 * inv_a + color[0] as u32 * src_a) / 255) as u8;
    data[idx + 1] = ((d1 * inv_a + color[1] as u32 * src_a) / 255) as u8;
    data[idx + 2] = ((d2 * inv_a + color[2] as u32 * src_a) / 255) as u8;
    data[idx + 3] = (d3 + (src_a * (255 - d3) / 255)) as u8;
    assert(data@ =~= spec_blend_glyph_pixel(old(data)@, pw, ph, px, py, color@, src_a));
}

/// `s` with bytes 0 and 2 of every four-byte pixel in `[start, end)` swapped:
/// RGBA becomes BGRA there.
pub open spec fn swap_red_blue(s: Seq<u8>, start: int, end: int) -> Seq<u8> {
    Seq::new(
        s.len(),
        |i: int|
            if start <= i < end && (i - start) % 4 == 0 {
                s[i + 2]
            } else if start <= i < end && (i - start) % 4 == 2 {
                s[i - 2]
            } else {
                s[i]
            },
    )
}

/// Byte offset of the first pixel of `row` in a canvas `w` pixels wide.
pub open spec fn row_offset(w: u32, row: int) -> int {
    row * w * 4
}

/// The canvas after the rows `y0 .. y` have had columns `x0 .. x1` swizzled
/// from RGBA to BGRA, one row after the other; a row whose span does not end
/// within the canvas is left out.
pub open spec fn swizzle_rows(s: Seq<u8>, w: u32, x0: int, x1: int, y0: int, y: int) -> Seq<u8>
    decreases y - y0,
{
    if y <= y0 {
        s
    } else {
        let prev = swizzle_rows(s, w, x0, x1, y0, y - 1);
        let start = row_offset(w, y - 1) + x0 * 4;
        let end = row_offset(w, y - 1) + x1 * 4;
        if end <= s.len() {
            swap_red_blue(prev, start, end)
        } else {
            prev
        }
    }
}

proof fn lemma_row_offset_bound(w: u32, row: int, last: int)
    requires
        0 <= row <= last,
    ensures
        row_offset(w, row) <= row_offset(w, last),
        0 <= row_offset(w, row),
{
    assert(row * w <= last * w) by (nonlinear_arith)
        requires 0 <= row <= last, 0 <= w;
    assert(0 <= row * w) by (nonlinear_arith)
        requires 0 <= row, 0 <= w;
}

/// Converts the pixels of the region `x0 .. x1` by `y0 .. y1` of a canvas `w`
/// pixels wide from RGBA to BGRA, the byte order the compositor expects.
/// Rows whose span does not end within the canvas are skipped.
pub fn swizzle_region(canvas: &mut [u8], w: u32, x0: usize, y0: usize, x1: usize, y1: usize)
    requires
        x0 <= x1 || y1 <= y0 || row_offset(w, y0 as int) + x1 * 4 > old(canvas)@.len(),
        y0 < y1 ==> row_offset(w, y1 - 1) + x0 * 4 <= usize::MAX,
        y0 < y1 ==> row_offset(w, y1 - 1) + x1 * 4 <= usize::MAX,
    ensures
        final(canvas)@ == swizzle_rows(old(canvas)@, w, x0 as int, x1 as int, y0 as int, y1 as int),
{
    let ghost orig = canvas@;
    let mut row = y0;
    while row < y1
        invariant
            y0 <= row,
            y0 < y1 ==> row <= y1,
            y1 <= y0 ==> row == y0,
            x0 <= x1 || y1 <= y0 || row_offset(w, y0 as int) + x1 * 4 > orig.len(),
            y0 < y1 ==> row_offset(w, y1 - 1) + x0 * 4 <= usize::MAX,
            y0 < y1 ==> row_offset(w, y1 - 1) + x1 * 4 <= usize::MAX,
            canvas@.len() == orig.len(),
            canvas@ == swizzle_rows(orig, w, x0 as int, x1 as int, y0 as int, row as int),
        decreases y1 - row,
    {
        proof {
            lemma_row_offset_bound(w, row as int, y1 - 1);
            lemma_row_offset_bound(w, y0 as int, row as int);
            assert(row * w <= row_offset(w, row as int)) by (nonlinear_arith)
                requires 0 <= row * w;
        }
        let row_start = row * (w as usize) * 4;
        let start = row_start + x0 * 4;
        let end = row_start + x1 * 4;
        let ghost prev = canvas@;
        if end <= canvas.len() {
            assert(start <= end);
            let mut p = start;
            while p < end
                invariant
                    start <= p <= end,
                    end <= canvas@.len(),
                    (p - start) % 4 == 0,
                    (end - start) % 4 == 0,
                    canvas@.len() == prev.len(),
                    canvas@ == swap_red_blue(prev, start as int, p as int),
                decreases end - p,
            {
                let red = canvas[p];
                let blue = canvas[p + 2];
                canvas[p] = blue;
                canvas[p + 2] = red;
                p = p + 4;
                assert(canvas@ =~= swap_red_blue(prev, start as int, p as int));
            }
        }
        row = row + 1;
    }
    proof {
        if y1 <= y0 {
            assert(swizzle_rows(orig, w, x0 as int, x1 as int, y0 as int, y1 as int) == orig);
            assert(swizzle_rows(orig, w, x0 as int, x1 as int, y0 as int, y0 as int) == orig);
        }
    }
}

/// Half the side of the square around the lens that drawing may touch.
pub const LENS_MARGIN: i32 = 93;

/// Extra rows above and below that the colour label may cover.
pub const LABEL_EXTRA: i32 = 66;

/// The region `(x0, y0, x1, y1)` around the lens anchor `(lx, ly)` that a frame
/// may have drawn into, cut to the canvas `w` x `h` at the top left and the
/// bottom right.
pub open spec fn spec_lens_damage(lx: i32, ly: i32, w: u32, h: u32) -> (usize, usize, usize, usize) {
    let left = lx - LENS_MARGIN;
    let top = ly - LENS_MARGIN - LABEL_EXTRA;
    let right = lx + LENS_MARGIN;
    let bottom = ly + LENS_MARGIN + LABEL_EXTRA;
    let x0: i32 = if left > 0 { left as i32 } else { 0 };
    let y0: i32 = if top > 0 { top as i32 } else { 0 };
    let x1: i32 = if right < (w as i32) { right as i32 } else { w as i32 };
    let y1: i32 = if bottom < (h as i32) { bottom as i32 } else { h as i32 };
    ((x0 as u32) as usize, (y0 as u32) as usize, (x1 as u32) as usize, (y1 as u32) as usize)
}

/// Computes the region around the lens whose pixels a frame converts to BGRA.
pub fn lens_damage(lx: i32, ly: i32, w: u32, h: u32) -> (res: (usize, usize, usize, usize))
    requires
        i32::MIN + LENS_MARGIN <= lx <= i32::MAX - LENS_MARGIN,
        i32::MIN + LENS_MARGIN + LABEL_EXTRA <= ly <= i32::MAX - LENS_MARGIN - LABEL_EXTRA,
    ensures
        res == spec_lens_damage(lx, ly, w, h),
        0 <= lx < w <= i32::MAX ==> res.0 <= res.2 <= w,
        0 <= ly < h <= i32::MAX ==> res.1 <= res.3 <= h,
{
    let left = lx - LENS_MARGIN;
    let top = ly - LENS_MARGIN - LABEL_EXTRA;
    let right = lx + LENS_MARGIN;
    let bottom = ly + LENS_MARGIN + LABEL_EXTRA;
    let wi = w as i32;
    let hi = h as i32;
    let x0: i32 = if left > 0 { left } else { 0 };
    let y0: i32 = if top > 0 { top } else { 0 };
    let x1: i32 = if right < wi { right } else { wi };
    let y1: i32 = if bottom < hi { bottom } else { hi };
    ((x0 as u32) as usize, (y0 as u32) as usize, (x1 as u32) as usize, (y1 as u32) as usize)
}

/// Byte `i` of a canvas `w` pixels wide lies in a pixel of columns `x0 .. x1`
/// and rows `y0 .. y1` whose row span ends within the `len` bytes.
pub open spec fn in_swizzled_area(len: int, w: u32, x0: int, x1: int, y0: int, y1: int, i: int) -> bool {
    &&& w > 0
    &&& y0 <= i / (4 * w) < y1
    &&& 4 * x0 <= i % (4 * w) < 4 * x1
    &&& row_offset(w, i / (4 * w)) + 4 * x1 <= len
}

/// Byte `i` of `s` after the swizzle: in the area, red and blue trade places;
/// everything else is as it was.
pub open spec fn swizzled_byte(s: Seq<u8>, w: u32, x0: int, x1: int, y0: int, y1: int, i: int) -> u8 {
    if in_swizzled_area(s.len() as int, w, x0, x1, y0, y1, i) && i % 4 == 0 {
        s[i + 2]
    } else if in_swizzled_area(s.len() as int, w, x0, x1, y0, y1, i) && i % 4 == 2 {
        s[i - 2]
    } else {
        s[i]
    }
}

proof fn lemma_position_in_row(w: u32, x0: int, x1: int, row: int, i: int)
    requires
        0 <= x0 <= x1 <= w,
        0 <= row,
        row_offset(w, row) + 4 * x0 <= i < row_offset(w, row) + 4 * x1,
    ensures
        i / (4 * w) == row,
        i % (4 * w) == i - row_offset(w, row),
        (i - row_offset(w, row) - 4 * x0) % 4 == i % 4,
{
    assert(row * w * 4 == row * (4 * w)) by (nonlinear_arith);
    vstd::arithmetic::div_mod::lemma_fundamental_div_mod_converse(
        i,
        4 * w,
        row,
        i - row_offset(w, row),
    );
    assert((i - row_offset(w, row) - 4 * x0) % 4 == i % 4) by (nonlinear_arith)
        requires row_offset(w, row) == row * w * 4;
}

/// Only the pixels of the region change, and in each of them red and blue
/// trade places, when the region lies within the canvas's width.
pub proof fn lemma_swizzle_region_effect(s: Seq<u8>, w: u32, x0: int, x1: int, y0: int, y1: int)
    requires
        0 <= x0 <= x1 <= w,
        0 <= y0,
    ensures
        swizzle_rows(s, w, x0, x1, y0, y1).len() == s.len(),
        forall|i: int|
            0 <= i < s.len() ==> #[trigger] swizzle_rows(s, w, x0, x1, y0, y1)[i] == swizzled_byte(
                s,
                w,
                x0,
                x1,
                y0,
                y1,
                i,
            ),
    decreases y1 - y0,
{
    if y1 <= y0 {
        assert forall|i: int| 0 <= i < s.len() implies #[trigger] swizzle_rows(s, w, x0, x1, y0, y1)[i]
            == swizzled_byte(s, w, x0, x1, y0, y1, i) by {
            assert(!in_swizzled_area(s.len() as int, w, x0, x1, y0, y1, i));
        }
    } else {
        let row = y1 - 1;
        lemma_swizzle_region_effect(s, w, x0, x1, y0, row);
        let prev = swizzle_rows(s, w, x0, x1, y0, row);
        let start = row_offset(w, row) + x0 * 4;
        let end = row_offset(w, row) + x1 * 4;
        assert(row * w * 4 >= 0) by (nonlinear_arith)
            requires row >= 0, w >= 0;
        assert forall|i: int| 0 <= i < s.len() implies #[trigger] swizzle_rows(s, w, x0, x1, y0, y1)[i]
            == swizzled_byte(s, w, x0, x1, y0, y1, i) by {
            let len = s.len() as int;
            if end <= len && start <= i < end {
                lemma_position_in_row(w, x0, x1, row, i);
                assert(in_swizzled_area(len, w, x0, x1, y0, y1, i));
                assert(!in_swizzled_area(len, w, x0, x1, y0, row, i));
                if i % 4 == 0 {
                    lemma_position_in_row(w, x0, x1, row, i + 2);
                    assert(!in_swizzled_area(len, w, x0, x1, y0, row, i + 2));
                } else if i % 4 == 2 {
                    lemma_position_in_row(w, x0, x1, row, i - 2);
                    assert(!in_swizzled_area(len, w, x0, x1, y0, row, i - 2));
                }
            } else {
                if in_swizzled_area(len, w, x0, x1, y0, y1, i) && !in_swizzled_area(
                    len,
                    w,
                    x0,
                    x1,
                    y0,
                    row,
                    i,
                ) {
                    let q = i / (4 * w);
                    assert(q == row);
                    assert(i == q * (4 * w) + i % (4 * w)) by (nonlinear_arith)
                        requires w > 0, q == i / (4 * w);
                    assert(row * w * 4 == row * (4 * w)) by (nonlinear_arith);
                    assert(false);
                }
            }
        }
    }
}

/// Swizzling the same region twice gives back the original canvas.
pub proof fn lemma_swizzle_twice(s: Seq<u8>, w: u32, x0: int, x1: int, y0: int, y1: int)
    requires
        0 <= x0 <= x1 <= w,
        0 <= y0,
    ensures
        swizzle_rows(swizzle_rows(s, w, x0, x1, y0, y1), w, x0, x1, y0, y1) == s,
{
    let t = swizzle_rows(s, w, x0, x1, y0, y1);
    lemma_swizzle_region_effect(s, w, x0, x1, y0, y1);
    lemma_swizzle_region_effect(t, w, x0, x1, y0, y1);
    let u = swizzle_rows(t, w, x0, x1, y0, y1);
    assert forall|i: int| 0 <= i < s.len() implies u[i] == s[i] by {
        let len = s.len() as int;
        if in_swizzled_area(len, w, x0, x1, y0, y1, i) && (i % 4 == 0 || i % 4 == 2) {
            let q = i / (4 * w);
            let c = i % (4 * w);
            let j = if i % 4 == 0 { i + 2 } else { i - 2 };
            assert(i == q * (4 * w) + c) by (nonlinear_arith)
                requires w > 0, q == i / (4 * w), c == i % (4 * w);
            assert(q * (4 * w) == 4 * (q * w)) by (nonlinear_arith);
            vstd::arithmetic::div_mod::lemma_mod_multiples_vanish(q * w, c, 4);
            assert(c % 4 == i % 4);
            assert(4 * x0 <= c + (j - i) < 4 * x1) by (nonlinear_arith)
                requires
                    4 * x0 <= c < 4 * x1,
                    c % 4 == i % 4,
                    i % 4 == 0 ==> j - i == 2,
                    i % 4 == 2 ==> j - i == -2,
                    i % 4 == 0 || i % 4 == 2;
            vstd::arithmetic::div_mod::lemma_fundamental_div_mod_converse(j, 4 * w, q, c + (j - i));
            assert(row_offset(w, q) + 4 * x1 <= len);
            assert(in_swizzled_area(len, w, x0, x1, y0, y1, j));
            assert(0 <= j < len) by (nonlinear_arith)
                requires
                    j == q * (4 * w) + c + (j - i),
                    0 <= c + (j - i) < 4 * x1,
                    row_offset(w, q) + 4 * x1 <= len,
                    row_offset(w, q) == q * w * 4,
                    q >= 0;
        }
    }
    assert(u =~= s);
}

/// Blending never wraps around: a colour channel ends between its old value
/// and the glyph's, the alpha never drops, no coverage changes nothing and
/// full coverage paints the glyph's colour fully opaque.
pub proof fn lemma_blend_bounds(d: u8, c: u8, a: u32)
    requires
        a <= 255,
    ensures
        blend_channel(d, c, a) as int == (d * (255 - a) + c * a) / 255,
        d <= c ==> d <= blend_channel(d, c, a) <= c,
        c <= d ==> c <= blend_channel(d, c, a) <= d,
        a == 0 ==> blend_channel(d, c, a) == d,
        a == 255 ==> blend_channel(d, c, a) == c,
        blend_alpha(d, a) as int == d + a * (255 - d) / 255,
        d <= blend_alpha(d, a),
        a == 255 ==> blend_alpha(d, a) == 255,
{
    let v = d * (255 - a) + c * a;
    assert(d <= c ==> 255 * d <= v <= 255 * c) by (nonlinear_arith)
        requires v == d * (255 - a) + c * a, a <= 255, 0 <= d, 0 <= c;
    assert(c <= d ==> 255 * c <= v <= 255 * d) by (nonlinear_arith)
        requires v == d * (255 - a) + c * a, a <= 255, 0 <= d, 0 <= c;
    assert(d <= c ==> d <= v / 255 <= c) by (nonlinear_arith)
        requires d <= c ==> 255 * d <= v <= 255 * c;
    assert(c <= d ==> c <= v / 255 <= d) by (nonlinear_arith)
        requires c <= d ==> 255 * c <= v <= 255 * d;
    assert(a == 0 ==> v == 255 * d) by (nonlinear_arith)
        requires v == d * (255 - a) + c * a;
    assert(a == 255 ==> v == 255 * c) by (nonlinear_arith)
        requires v == d * (255 - a) + c * a;
    let e = a * (255 - d);
    assert(0 <= e <= 255 * (255 - d)) by (nonlinear_arith)
        requires e == a * (255 - d), a <= 255, d <= 255;
    assert(e / 255 <= 255 - d) by (nonlinear_arith)
        requires 0 <= e <= 255 * (255 - d);
    assert(a == 255 ==> e / 255 == 255 - d) by (nonlinear_arith)
        requires e == a * (255 - d), d <= 255;
}

/// Inside the image, sampling reads the four bytes of pixel `(x, y)` of a
/// row-major RGBA image whose rows are `4 * w` bytes apart.
pub proof fn lemma_sample_reads_pixel(shot: Seq<u8>, w: u32, h: u32, x: u32, y: u32)
    requires
        x < w,
        y < h,
        (y * w + x) * 4 + 3 < shot.len(),
    ensures
        spec_sample_pixel(shot, w, h, x, y) == shot.subrange((y * w + x) * 4, (y * w + x) * 4 + 4),
{
    assert(clamp_coord(x, w) == x);
    assert(clamp_coord(y, h) == y);
    assert(spec_sample_pixel(shot, w, h, x, y) =~= shot.subrange(
        (y * w + x) * 4,
        (y * w + x) * 4 + 4,
    ));
}

/// Coordinates beyond the image read its last column or row.
pub proof fn lemma_sample_clamps(shot: Seq<u8>, w: u32, h: u32, x: u32, y: u32)
    requires
        0 < w,
        0 < h,
    ensures
        spec_sample_pixel(shot, w, h, x, y) == spec_sample_pixel(
            shot,
            w,
            h,
            if x < w { x } else { (w - 1) as u32 },
            if y < h { y } else { (h - 1) as u32 },
        ),
{
}

} // verus!
