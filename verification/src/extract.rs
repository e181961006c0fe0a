//! From a padded staging capture to a dense pixel buffer, and back.
//!
//! A capture holds `rows` rows of `stride` bytes each; the first `row` bytes
//! of every row are pixels, the rest is padding. Stripping keeps the pixel
//! bytes in row-major order, top row first. Padding puts them back at the
//! same offsets and fills the gaps with zero bytes.

use vstd::prelude::*;
use vstd::arithmetic::div_mod::{
    lemma_fundamental_div_mod,
    lemma_fundamental_div_mod_converse_div,
    lemma_fundamental_div_mod_converse_mod,
};
use crate::layout::{
    FrameDims,
    FrameLayout,
    padded_row_bytes,
    pixel_bytes,
    staging_bytes,
    unpadded_row_bytes,
    lemma_padded_row_is_least_multiple,
};

verus! {

/// Offset in a capture of the pixel byte that stands at offset `k` of the
/// dense buffer.
pub open spec fn capture_offset(k: int, row: int, stride: int) -> int {
    (k / row) * stride + k % row
}

/// The pixel bytes of a capture of `rows` rows, `row` bytes of each `stride`.
pub open spec fn strip_rows(capture: Seq<u8>, row: int, stride: int, rows: int) -> Seq<u8> {
    Seq::new((row * rows) as nat, |k: int| capture[capture_offset(k, row, stride)])
}

/// The byte at offset `k` of the capture that holds `pixels`: a pixel byte
/// inside the first `row` bytes of a row, zero behind them.
pub open spec fn padded_byte(pixels: Seq<u8>, k: int, row: int, stride: int) -> u8 {
    if k % stride < row {
        pixels[(k / stride) * row + k % stride]
    } else {
        0u8
    }
}

/// The capture of `rows` rows that holds `pixels` with zeroed padding.
pub open spec fn pad_rows(pixels: Seq<u8>, row: int, stride: int, rows: int) -> Seq<u8> {
    Seq::new((stride * rows) as nat, |k: int| padded_byte(pixels, k, row, stride))
}

/// Whether every padding byte of a capture is zero.
pub open spec fn padding_is_zero(capture: Seq<u8>, row: int, stride: int) -> bool {
    forall|k: int| 0 <= k < capture.len() && k % stride >= row ==> #[trigger] capture[k] == 0u8
}

/// The dense pixel buffer of a capture of a frame.
pub open spec fn unpadded(capture: Seq<u8>, dims: FrameDims) -> Seq<u8> {
    strip_rows(
        capture,
        unpadded_row_bytes(dims.width as int),
        padded_row_bytes(dims.width as int),
        dims.height as int,
    )
}

/// The capture of a frame that holds a dense pixel buffer.
pub open spec fn repadded(pixels: Seq<u8>, dims: FrameDims) -> Seq<u8> {
    pad_rows(
        pixels,
        unpadded_row_bytes(dims.width as int),
        padded_row_bytes(dims.width as int),
        dims.height as int,
    )
}

/// Column `c` of row `r` is offset `r * row + c` of the dense buffer and
/// offset `r * stride + c` of the capture, inside both.
proof fn lemma_cell(r: int, c: int, row: int, stride: int, rows: int)
    requires
        0 <= r < rows,
        0 <= c < row <= stride,
    ensures
        0 <= r * row + c < row * rows,
        0 <= r * stride + c < stride * rows,
        (r * row + c) / row == r,
        (r * row + c) % row == c,
        (r * stride + c) / stride == r,
        (r * stride + c) % stride == c,
        capture_offset(r * row + c, row, stride) == r * stride + c,
{
    lemma_fundamental_div_mod_converse_div(r * row + c, row, r, c);
    lemma_fundamental_div_mod_converse_mod(r * row + c, row, r, c);
    lemma_fundamental_div_mod_converse_div(r * stride + c, stride, r, c);
    lemma_fundamental_div_mod_converse_mod(r * stride + c, stride, r, c);
    assert(0 <= r * row && r * row + row <= row * rows) by (nonlinear_arith)
        requires
            0 <= r < rows,
            0 < row,
    ;
    assert(0 <= r * stride && r * stride + stride <= stride * rows) by (nonlinear_arith)
        requires
            0 <= r < rows,
            0 < stride,
    ;
}

/// Every offset below `d * rows` lies in a row below `rows`.
proof fn lemma_row_of(k: int, d: int, rows: int)
    requires
        0 < d,
        0 <= k < d * rows,
    ensures
        0 <= k / d < rows,
        0 <= k % d < d,
        k == (k / d) * d + k % d,
{
    lemma_fundamental_div_mod(k, d);
    assert(d * (k / d) == (k / d) * d) by (nonlinear_arith);
    assert(0 <= k / d < rows) by (nonlinear_arith)
        requires
            0 < d,
            0 <= k < d * rows,
            0 <= k % d < d,
            k == d * (k / d) + k % d,
    ;
}

/// Stripping a capture of `stride * rows` bytes leaves `row * rows` bytes.
pub proof fn lemma_strip_len(capture: Seq<u8>, row: int, stride: int, rows: int)
    requires
        0 <= row <= stride,
        0 <= rows,
    ensures
        strip_rows(capture, row, stride, rows).len() == row * rows,
{
    assert(0 <= row * rows) by (nonlinear_arith)
        requires
            0 <= row,
            0 <= rows,
    ;
}

/// Padding, then stripping, gives the pixel buffer back.
pub proof fn lemma_strip_pad(pixels: Seq<u8>, row: int, stride: int, rows: int)
    requires
        0 <= row <= stride,
        0 <= rows,
        pixels.len() == row * rows,
    ensures
        strip_rows(pad_rows(pixels, row, stride, rows), row, stride, rows) == pixels,
{
    let capture = pad_rows(pixels, row, stride, rows);
    let back = strip_rows(capture, row, stride, rows);
    lemma_strip_len(capture, row, stride, rows);
    assert(0 <= stride * rows) by (nonlinear_arith)
        requires
            0 <= stride,
            0 <= rows,
    ;
    assert forall|k: int| 0 <= k < pixels.len() implies back[k] == pixels[k] by {
        assert(row != 0) by (nonlinear_arith)
            requires
                0 <= k < row * rows,
        ;
        lemma_row_of(k, row, rows);
        lemma_cell(k / row, k % row, row, stride, rows);
    }
    assert(back =~= pixels);
}

/// Stripping, then padding, gives a capture of the same length that holds
/// the same byte at every pixel offset and zero at every padding offset.
pub proof fn lemma_pad_strip_pixels(capture: Seq<u8>, row: int, stride: int, rows: int)
    requires
        0 <= row <= stride,
        0 <= rows,
        capture.len() == stride * rows,
    ensures
        pad_rows(strip_rows(capture, row, stride, rows), row, stride, rows).len() == capture.len(),
        forall|k: int|
            0 <= k < capture.len() && k % stride < row ==> #[trigger] pad_rows(
                strip_rows(capture, row, stride, rows),
                row,
                stride,
                rows,
            )[k] == capture[k],
        forall|k: int|
            0 <= k < capture.len() && k % stride >= row ==> #[trigger] pad_rows(
                strip_rows(capture, row, stride, rows),
                row,
                stride,
                rows,
            )[k] == 0u8,
{
    let pixels = strip_rows(capture, row, stride, rows);
    let again = pad_rows(pixels, row, stride, rows);
    lemma_strip_len(capture, row, stride, rows);
    assert forall|k: int| 0 <= k < capture.len() implies #[trigger] again[k] == padded_byte(
        pixels,
        k,
        row,
        stride,
    ) by {}
    assert forall|k: int| 0 <= k < capture.len() && k % stride < row implies #[trigger] again[k]
        == capture[k] by {
        lemma_row_of(k, stride, rows);
        lemma_cell(k / stride, k % stride, row, stride, rows);
    }
}

/// Stripping, then padding, reproduces a capture whose padding is zero,
/// byte for byte.
pub proof fn lemma_pad_strip(capture: Seq<u8>, row: int, stride: int, rows: int)
    requires
        0 <= row <= stride,
        0 <= rows,
        capture.len() == stride * rows,
        padding_is_zero(capture, row, stride),
    ensures
        pad_rows(strip_rows(capture, row, stride, rows), row, stride, rows) == capture,
{
    lemma_pad_strip_pixels(capture, row, stride, rows);
    let again = pad_rows(strip_rows(capture, row, stride, rows), row, stride, rows);
    assert forall|k: int| 0 <= k < capture.len() implies again[k] == capture[k] by {
        if k % stride >= row {
            assert(capture[k] == 0u8);
        }
    }
    assert(again =~= capture);
}

/// Round trip of a frame's pixels: the capture that [`add_padding`] builds
/// strips back to the pixels it was built from.
pub proof fn lemma_unpadded_repadded(pixels: Seq<u8>, dims: FrameDims)
    requires
        pixels.len() == pixel_bytes(dims.width as int, dims.height as int),
    ensures
        repadded(pixels, dims).len() == staging_bytes(dims.width as int, dims.height as int),
        unpadded(repadded(pixels, dims), dims) == pixels,
{
    let w = dims.width as int;
    let h = dims.height as int;
    lemma_padded_row_is_least_multiple(w);
    lemma_strip_pad(pixels, unpadded_row_bytes(w), padded_row_bytes(w), h);
    assert(0 <= padded_row_bytes(w) * h) by (nonlinear_arith)
        requires
            0 <= padded_row_bytes(w),
            0 <= h,
    ;
}

/// Round trip of a frame's capture: stripping a capture of the staging size
/// yields exactly the frame's pixel bytes, and padding them again gives a
/// capture of the same size that agrees with the first at every pixel offset.
/// Where the padding bytes of the first are zero, the two captures are equal
/// byte for byte.
pub proof fn lemma_repadded_unpadded(capture: Seq<u8>, dims: FrameDims)
    requires
        capture.len() == staging_bytes(dims.width as int, dims.height as int),
    ensures
        unpadded(capture, dims).len() == pixel_bytes(dims.width as int, dims.height as int),
        repadded(unpadded(capture, dims), dims).len() == capture.len(),
        forall|k: int|
            0 <= k < capture.len() && k % padded_row_bytes(dims.width as int) < unpadded_row_bytes(
                dims.width as int,
            ) ==> #[trigger] repadded(unpadded(capture, dims), dims)[k] == capture[k],
        padding_is_zero(
            capture,
            unpadded_row_bytes(dims.width as int),
            padded_row_bytes(dims.width as int),
        ) ==> repadded(unpadded(capture, dims), dims) == capture,
{
    let w = dims.width as int;
    let h = dims.height as int;
    let row = unpadded_row_bytes(w);
    let stride = padded_row_bytes(w);
    lemma_padded_row_is_least_multiple(w);
    lemma_strip_len(capture, row, stride, h);
    lemma_pad_strip_pixels(capture, row, stride, h);
    if padding_is_zero(capture, row, stride) {
        lemma_pad_strip(capture, row, stride, h);
    }
}

/// Strips the row padding from a staging capture of a frame.
///
/// Returns the frame's pixel bytes, row-major from the top row, or `None`
/// when the capture does not have the staging size of the layout.
pub fn strip_padding(capture: &[u8], layout: &FrameLayout) -> (pixels: Option<Vec<u8>>)
    ensures
        pixels is Some <==> capture@.len() == staging_bytes(
            layout@.width as int,
            layout@.height as int,
        ),
        pixels matches Some(p) ==> p@ == unpadded(capture@, layout@),
        pixels matches Some(p) ==> p@.len() == pixel_bytes(
            layout@.width as int,
            layout@.height as int,
        ),
{
    let row: usize = layout.unpadded_bytes_per_row() as usize;
    let stride: usize = layout.padded_bytes_per_row() as usize;
    let rows: usize = layout.height() as usize;
    if layout.staging_size() != capture.len() as u64 {
        return None;
    }
    proof {
        lemma_padded_row_is_least_multiple(layout@.width as int);
        lemma_strip_len(capture@, row as int, stride as int, rows as int);
    }
    let total: usize = capture.len();
    let mut out: Vec<u8> = Vec::new();
    let mut r: usize = 0;
    let mut start: usize = 0;
    while r < rows
        invariant
            0 <= r <= rows,
            0 <= row <= stride,
            start == r * stride,
            capture@.len() == total,
            capture@.len() == stride * rows,
            out@ == strip_rows(capture@, row as int, stride as int, r as int),
        decreases rows - r,
    {
        let mut c: usize = 0;
        proof {
            assert(r * stride + stride <= stride * rows) by (nonlinear_arith)
                requires
                    0 <= r < rows,
                    0 <= stride,
            ;
            assert(0 <= row * r) by (nonlinear_arith)
                requires
                    0 <= row,
                    0 <= r,
            ;
        }
        while c < row
            invariant
                0 <= r < rows,
                0 <= c <= row <= stride,
                start == r * stride,
                start + stride <= capture@.len(),
                capture@.len() == total,
                capture@.len() == stride * rows,
                0 <= row * r,
                out@ == Seq::new(
                    (row * r + c) as nat,
                    |k: int| capture@[capture_offset(k, row as int, stride as int)],
                ),
            decreases row - c,
        {
            let byte: u8 = capture[start + c];
            proof {
                lemma_cell(r as int, c as int, row as int, stride as int, rows as int);
                assert(row * r == r * row) by (nonlinear_arith);
            }
            out.push(byte);
            c += 1;
            assert(out@ =~= Seq::new(
                (row * r + c) as nat,
                |k: int| capture@[capture_offset(k, row as int, stride as int)],
            ));
        }
        start += stride;
        r += 1;
        proof {
            assert(row * (r - 1) + row == row * r) by (nonlinear_arith);
            assert(r * stride == (r - 1) * stride + stride) by (nonlinear_arith);
            assert(out@ =~= strip_rows(capture@, row as int, stride as int, r as int));
        }
    }
    Some(out)
}

/// Lays a frame's pixel bytes out as a staging capture with zeroed padding.
///
/// Returns `None` when `pixels` does not hold exactly the frame's pixel
/// bytes, or when the capture would be longer than a vector can be.
pub fn add_padding(pixels: &[u8], layout: &FrameLayout) -> (capture: Option<Vec<u8>>)
    ensures
        capture is Some <==> pixels@.len() == pixel_bytes(
            layout@.width as int,
            layout@.height as int,
        ) && staging_bytes(layout@.width as int, layout@.height as int) <= usize::MAX,
        capture matches Some(c) ==> c@ == repadded(pixels@, layout@),
        capture matches Some(c) ==> c@.len() == staging_bytes(
            layout@.width as int,
            layout@.height as int,
        ),
{
    let row: usize = layout.unpadded_bytes_per_row() as usize;
    let stride: usize = layout.padded_bytes_per_row() as usize;
    let rows: usize = layout.height() as usize;
    if layout.pixel_size() != pixels.len() as u64 {
        return None;
    }
    if layout.staging_size() > usize::MAX as u64 {
        return None;
    }
    proof {
        lemma_padded_row_is_least_multiple(layout@.width as int);
    }
    let total: usize = pixels.len();
    let mut out: Vec<u8> = Vec::new();
    let mut r: usize = 0;
    let mut from: usize = 0;
    while r < rows
        invariant
            0 <= r <= rows,
            0 <= row <= stride,
            from == r * row,
            pixels@.len() == total,
            pixels@.len() == row * rows,
            stride * rows <= usize::MAX,
            out@ == pad_rows(pixels@, row as int, stride as int, r as int),
        decreases rows - r,
    {
        let mut c: usize = 0;
        proof {
            assert(r * row + row <= row * rows) by (nonlinear_arith)
                requires
                    0 <= r < rows,
                    0 <= row,
            ;
            assert(0 <= stride * r && stride * r + stride <= stride * rows) by (nonlinear_arith)
                requires
                    0 <= r < rows,
                    0 <= stride,
            ;
        }
        while c < stride
            invariant
                0 <= r < rows,
                0 <= c <= stride,
                0 <= row <= stride,
                from == r * row,
                from + row <= pixels@.len(),
                pixels@.len() == total,
                0 <= stride * r,
                stride * r + stride <= usize::MAX,
                out@ == Seq::new(
                    (stride * r + c) as nat,
                    |k: int| padded_byte(pixels@, k, row as int, stride as int),
                ),
            decreases stride - c,
        {
            proof {
                assert(stride * r == r * stride) by (nonlinear_arith);
                lemma_fundamental_div_mod_converse_div(
                    r * stride + c,
                    stride as int,
                    r as int,
                    c as int,
                );
                lemma_fundamental_div_mod_converse_mod(
                    r * stride + c,
                    stride as int,
                    r as int,
                    c as int,
                );
            }
            let byte: u8 = if c < row {
                pixels[from + c]
            } else {
                0u8
            };
            out.push(byte);
            c += 1;
            assert(out@ =~= Seq::new(
                (stride * r + c) as nat,
                |k: int| padded_byte(pixels@, k, row as int, stride as int),
            ));
        }
        from += row;
        r += 1;
        proof {
            assert(stride * (r - 1) + stride == stride * r) by (nonlinear_arith);
            assert(r * row == (r - 1) * row + row) by (nonlinear_arith);
            assert(out@ =~= pad_rows(pixels@, row as int, stride as int, r as int));
        }
    }
    Some(out)
}

} // verus!
