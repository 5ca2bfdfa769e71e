//! Format descriptors and the frame geometry derived from them.

use vstd::prelude::*;

verus! {

/// A pixel layout the engine understands.
#[derive(Clone, Copy, Debug, PartialEq, Eq, Structural)]
pub enum PixelFormat {
    /// Packed 32-bit pixels: blue, green, red, then one padding byte.
    /// This is the canonical format every stage must handle.
    Bgrx,
    /// Single-channel 8-bit luma, the graceful-degradation variant offered
    /// when negotiating toward the raw side.
    Gray8,
}

impl PixelFormat {
    /// Bytes occupied by one pixel.
    pub open spec fn spec_bytes_per_pixel(self) -> int {
        match self {
            PixelFormat::Bgrx => 4,
            PixelFormat::Gray8 => 1,
        }
    }

    /// Executable counterpart of [`Self::spec_bytes_per_pixel`].
    pub fn bytes_per_pixel(self) -> (n: u32)
        ensures
            n == self.spec_bytes_per_pixel(),
    {
        match self {
            PixelFormat::Bgrx => 4,
            PixelFormat::Gray8 => 1,
        }
    }
}

/// A frame rate as a rational number of frames per second.
///
/// The numerator may be zero (a still image, or "any rate" during
/// negotiation); a descriptor with a zero denominator is rejected by
/// [`crate::negotiate::validate`].
#[derive(Clone, Copy, Debug, PartialEq, Eq, Structural)]
pub struct Fraction {
    /// Frames per `denom` seconds.
    pub numer: u32,
    /// Seconds per `numer` frames; zero only in descriptors that are still
    /// to be validated.
    pub denom: u32,
}

/// What one stage proposes to another during negotiation: a pixel layout,
/// frame dimensions and a frame rate.
///
/// Dimensions are signed because the negotiation protocol carries them in
/// signed ranges; a descriptor with a non-positive dimension is rejected by
/// [`crate::negotiate::validate`]. A descriptor is immutable once accepted
/// and replaced wholesale on renegotiation.
#[derive(Clone, Copy, Debug, PartialEq, Eq, Structural)]
pub struct FormatDescriptor {
    /// The pixel layout.
    pub format: PixelFormat,
    /// Frame width in pixels.
    pub width: i32,
    /// Frame height in pixels.
    pub height: i32,
    /// Target frame rate.
    pub rate: Fraction,
}

impl FormatDescriptor {
    /// The condition under which a descriptor is accepted: positive
    /// dimensions and a frame rate with a positive denominator.
    pub open spec fn acceptable(self) -> bool {
        self.width > 0 && self.height > 0 && self.rate.denom > 0
    }

    /// The row stride, in bytes, of a tightly packed frame of this
    /// descriptor.
    pub open spec fn tight_stride(self) -> int {
        self.width * self.format.spec_bytes_per_pixel()
    }

    /// The tightly packed frame geometry this descriptor describes.
    pub open spec fn derived_geometry(self) -> FrameGeometry {
        FrameGeometry {
            format: self.format,
            width: self.width,
            height: self.height,
            stride: self.tight_stride() as u64,
            size: (self.tight_stride() * self.height) as u64,
        }
    }
}

/// An accepted descriptor's geometry is well formed, with the tight stride
/// and exactly `height` rows: the casts in its construction lose nothing.
pub proof fn lemma_derived_geometry_wf(d: FormatDescriptor)
    requires
        d.acceptable(),
    ensures
        d.derived_geometry().wf(),
        d.derived_geometry().stride == d.tight_stride(),
        d.derived_geometry().size == d.tight_stride() * d.height,
{
    assert(1 <= d.tight_stride() <= 0x1_FFFF_FFFC) by (nonlinear_arith)
        requires
            1 <= d.width <= 0x7FFF_FFFF,
            1 <= d.format.spec_bytes_per_pixel() <= 4,
            d.tight_stride() == d.width * d.format.spec_bytes_per_pixel(),
    ;
    assert(d.tight_stride() * d.height <= 0xFFFF_FFFC_0000_0004) by (nonlinear_arith)
        requires
            1 <= d.tight_stride() <= 0x1_FFFF_FFFC,
            1 <= d.height <= 0x7FFF_FFFF,
    ;
    assert(1 <= d.tight_stride() * d.height) by (nonlinear_arith)
        requires
            1 <= d.tight_stride(),
            1 <= d.height,
    ;
}

/// The concrete layout of one frame buffer: dimensions, the byte distance
/// between consecutive rows, and the total buffer size.
///
/// The stride may exceed the row's pixel bytes; the excess is alignment
/// padding that pixel operations must leave untouched.
#[derive(Clone, Copy, Debug, PartialEq, Eq, Structural)]
pub struct FrameGeometry {
    /// The pixel layout of the buffer.
    pub format: PixelFormat,
    /// Frame width in pixels.
    pub width: i32,
    /// Frame height in pixels (the number of rows).
    pub height: i32,
    /// Bytes from the start of one row to the start of the next.
    pub stride: u64,
    /// Total buffer size in bytes.
    pub size: u64,
}

impl FrameGeometry {
    /// Bytes of one row that carry pixels (the rest of the stride is
    /// padding).
    pub open spec fn line_bytes(self) -> int {
        self.width * self.format.spec_bytes_per_pixel()
    }

    /// Well-formedness: positive dimensions, a stride that holds at least
    /// one row of pixels, and a size that is exactly `height` rows.
    pub open spec fn wf(self) -> bool {
        &&& 0 < self.width
        &&& 0 < self.height
        &&& self.line_bytes() <= self.stride
        &&& self.size == self.stride * self.height
    }

    /// Executable check of [`Self::wf`].
    pub fn is_well_formed(&self) -> (b: bool)
        ensures
            b == self.wf(),
    {
        if self.width <= 0 || self.height <= 0 {
            return false;
        }
        let bpp = self.format.bytes_per_pixel();
        let w: u64 = self.width as u64;
        assert(1 <= w * (bpp as u64) <= 0x1_FFFF_FFFC) by (nonlinear_arith)
            requires
                1 <= w <= 0x7FFF_FFFF,
                1 <= bpp <= 4,
        ;
        let line: u64 = w * (bpp as u64);
        if self.stride < line {
            return false;
        }
        // stride >= line >= 1, so dividing by it is safe; size == stride * height
        // holds exactly when the division is exact with quotient height.
        let rows: u64 = self.size / self.stride;
        let rem: u64 = self.size % self.stride;
        let exact = rem == 0 && rows == self.height as u64;
        proof {
            vstd::arithmetic::div_mod::lemma_fundamental_div_mod(
                self.size as int,
                self.stride as int,
            );
            if self.size == self.stride * self.height {
                vstd::arithmetic::div_mod::lemma_fundamental_div_mod_converse(
                    self.size as int,
                    self.stride as int,
                    self.height as int,
                    0,
                );
            }
        }
        exact
    }
}

} // verus!
