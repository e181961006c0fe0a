//! Byte layout of a rendered frame in a staging buffer.
//!
//! A texture-to-buffer copy writes each row of pixels at a stride that is a
//! multiple of the device's row alignment, so every row of the staging buffer
//! ends in padding bytes that belong to no pixel.

use vstd::prelude::*;

verus! {

/// Bytes of one RGBA8 pixel.
pub const BYTES_PER_PIXEL: u32 = 4;

/// The row alignment of buffer-texture copies, in bytes.
pub open spec fn row_alignment() -> int {
    256
}

/// Bytes of the pixels of one row, without padding.
pub open spec fn unpadded_row_bytes(width: int) -> int {
    4 * width
}

/// Padding bytes behind the pixels of one row.
pub open spec fn row_padding(width: int) -> int {
    (row_alignment() - unpadded_row_bytes(width) % row_alignment()) % row_alignment()
}

/// Bytes from the start of one row to the start of the next.
pub open spec fn padded_row_bytes(width: int) -> int {
    unpadded_row_bytes(width) + row_padding(width)
}

/// Bytes of a staging buffer that holds `height` padded rows.
pub open spec fn staging_bytes(width: int, height: int) -> int {
    padded_row_bytes(width) * height
}

/// Bytes of the dense pixel buffer of a `width` x `height` frame.
pub open spec fn pixel_bytes(width: int, height: int) -> int {
    unpadded_row_bytes(width) * height
}

/// The padded row length is the least multiple of the row alignment that
/// holds the pixels of a row.
pub proof fn lemma_padded_row_is_least_multiple(width: int)
    requires
        0 <= width,
    ensures
        padded_row_bytes(width) % row_alignment() == 0,
        unpadded_row_bytes(width) <= padded_row_bytes(width),
        padded_row_bytes(width) < unpadded_row_bytes(width) + row_alignment(),
        0 <= row_padding(width) < row_alignment(),
{
}

/// The row alignment that `wgpu` demands of buffer-texture copies.
///
/// Trusted: returns `wgpu::COPY_BYTES_PER_ROW_ALIGNMENT`, which the crate
/// declares as the constant 256.
#[verifier::external_body]
fn copy_row_alignment() -> (align: u32)
    ensures
        align == row_alignment(),
{
    wgpu::COPY_BYTES_PER_ROW_ALIGNMENT
}

/// Width and height of a frame, in pixels.
pub ghost struct FrameDims {
    pub width: nat,
    pub height: nat,
}

/// The layout of a `width` x `height` RGBA8 frame whose padded row length
/// fits the 32-bit row stride of a buffer-texture copy.
pub struct FrameLayout {
    width: u32,
    height: u32,
    padded: u32,
}

impl View for FrameLayout {
    type V = FrameDims;

    closed spec fn view(&self) -> FrameDims {
        FrameDims { width: self.width as nat, height: self.height as nat }
    }
}

impl FrameLayout {
    #[verifier::type_invariant]
    spec fn inv(self) -> bool {
        self.padded == padded_row_bytes(self.width as int)
    }

    /// The layout of a `width` x `height` frame, or `None` when a padded row
    /// is longer than a 32-bit stride can say.
    pub fn new(width: u32, height: u32) -> (layout: Option<FrameLayout>)
        ensures
            layout is Some <==> padded_row_bytes(width as int) <= u32::MAX,
            layout matches Some(l) ==> l@ == (FrameDims {
                width: width as nat,
                height: height as nat,
            }),
    {
        let align: u64 = copy_row_alignment() as u64;
        let unpadded: u64 = BYTES_PER_PIXEL as u64 * width as u64;
        let padding: u64 = (align - unpadded % align) % align;
        let padded: u64 = unpadded + padding;
        if padded <= u32::MAX as u64 {
            Some(FrameLayout { width, height, padded: padded as u32 })
        } else {
            None
        }
    }

    /// Pixels in a row.
    pub fn width(&self) -> (w: u32)
        ensures
            w == self@.width,
    {
        self.width
    }

    /// Rows in the frame.
    pub fn height(&self) -> (h: u32)
        ensures
            h == self@.height,
    {
        self.height
    }

    /// Bytes of the pixels of one row.
    pub fn unpadded_bytes_per_row(&self) -> (n: u32)
        ensures
            n == unpadded_row_bytes(self@.width as int),
    {
        proof {
            use_type_invariant(self);
            lemma_padded_row_is_least_multiple(self.width as int);
        }
        BYTES_PER_PIXEL * self.width
    }

    /// Padding bytes behind the pixels of one row.
    pub fn padding(&self) -> (n: u32)
        ensures
            n == row_padding(self@.width as int),
    {
        proof {
            use_type_invariant(self);
            lemma_padded_row_is_least_multiple(self.width as int);
        }
        self.padded - BYTES_PER_PIXEL * self.width
    }

    /// Bytes from the start of one row to the start of the next.
    pub fn padded_bytes_per_row(&self) -> (n: u32)
        ensures
            n == padded_row_bytes(self@.width as int),
    {
        proof {
            use_type_invariant(self);
        }
        self.padded
    }

    /// Bytes of the staging buffer that receives the frame.
    pub fn staging_size(&self) -> (n: u64)
        ensures
            n == staging_bytes(self@.width as int, self@.height as int),
    {
        proof {
            use_type_invariant(self);
            assert(self.padded as int * self.height as int <= u32::MAX as int * u32::MAX as int)
                by (nonlinear_arith)
                requires
                    self.padded <= u32::MAX,
                    self.height <= u32::MAX,
            ;
        }
        self.padded as u64 * self.height as u64
    }

    /// Bytes of the dense pixel buffer of the frame.
    pub fn pixel_size(&self) -> (n: u64)
        ensures
            n == pixel_bytes(self@.width as int, self@.height as int),
    {
        proof {
            use_type_invariant(self);
            lemma_padded_row_is_least_multiple(self.width as int);
            assert(4 * self.width as int * self.height as int <= u32::MAX as int * u32::MAX as int)
                by (nonlinear_arith)
                requires
                    4 * self.width <= u32::MAX,
                    self.height <= u32::MAX,
            ;
        }
        BYTES_PER_PIXEL as u64 * self.width as u64 * self.height as u64
    }
}

} // verus!
