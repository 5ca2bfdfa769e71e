//! The source element's frame pattern: a solid fill whose brightness
//! breathes over each second.
//!
//! The host reads the clock and performs no pixel math; everything that
//! decides a byte's value is here, with the same stride discipline as the
//! transform: padding beyond a row's pixel bytes is never touched.

use vstd::prelude::*;
use crate::error::EngineError;
use crate::format::{FrameGeometry, PixelFormat};

verus! {

/// The pattern's brightness for a position within the second: it climbs
/// through the first half and falls back through the second.
pub open spec fn spec_brightness(millis: u32) -> u8
    recommends
        millis < 1000,
{
    if millis < 500 {
        (millis / 2) as u8
    } else {
        ((1000 - millis) / 2) as u8
    }
}

/// Executable counterpart of [`spec_brightness`].
pub fn brightness_for(millis: u32) -> (b: u8)
    requires
        millis < 1000,
    ensures
        b == spec_brightness(millis),
{
    if millis < 500 {
        (millis / 2) as u8
    } else {
        ((1000 - millis) / 2) as u8
    }
}

/// The byte the fill stores at offset `i` of a frame: the brightness in
/// the blue channel, half of it in green, a quarter in red, zero in the
/// padding channel — and, beyond a row's pixel bytes, whatever the buffer
/// already held.
pub open spec fn filled_byte(g: FrameGeometry, brightness: u8, data0: Seq<u8>, i: int) -> u8 {
    let col = i % (g.stride as int);
    if col < g.line_bytes() {
        if col % 4 == 0 {
            brightness
        } else if col % 4 == 1 {
            (brightness / 2) as u8
        } else if col % 4 == 2 {
            (brightness / 4) as u8
        } else {
            0
        }
    } else {
        data0[i]
    }
}

/// The whole buffer of one fill over initial contents `data0`.
pub open spec fn fill_spec(g: FrameGeometry, brightness: u8, data0: Seq<u8>) -> Seq<u8> {
    Seq::new(data0.len(), |i: int| filled_byte(g, brightness, data0, i))
}

/// Fills a packed frame with the solid pattern, row by row along the
/// buffer's stride. Only the canonical packed format has a defined fill;
/// any other format is an `UnsupportedFormat` hard failure that leaves the
/// buffer unchanged.
pub fn fill_frame(g: &FrameGeometry, brightness: u8, data: &mut Vec<u8>) -> (r: Result<
    (),
    EngineError,
>)
    requires
        g.wf(),
        old(data)@.len() == g.size,
    ensures
        r is Ok <==> g.format == PixelFormat::Bgrx,
        r is Ok ==> final(data)@ == fill_spec(*g, brightness, old(data)@),
        r is Err ==> final(data)@ == old(data)@ && r == Err::<(), EngineError>(
            EngineError::UnsupportedFormat,
        ),
{
    let ghost data0 = data@;
    if g.format != PixelFormat::Bgrx {
        return Err(EngineError::UnsupportedFormat);
    }
    let len = data.len();
    proof {
        vstd::arithmetic::mul::lemma_mul_ordering(g.stride as int, g.height as int);
    }
    let stride: usize = g.stride as usize;
    let height: usize = g.height as usize;
    let line: usize = (g.width as usize) * 4;
    let half: u8 = brightness / 2;
    let quarter: u8 = brightness / 4;
    let mut row: usize = 0;
    let mut base: usize = 0;
    while row < height
        invariant
            g.wf(),
            g.format == PixelFormat::Bgrx,
            data@.len() == g.size,
            data0.len() == g.size,
            data@.len() <= usize::MAX,
            stride == g.stride,
            height == g.height,
            line == g.line_bytes(),
            half == brightness / 2,
            quarter == brightness / 4,
            row <= height,
            base == row * g.stride,
            forall|i: int|
                0 <= i < data@.len() ==> data@[i] == (if i < base {
                    filled_byte(*g, brightness, data0, i)
                } else {
                    data0[i]
                }),
        decreases height - row,
    {
        proof {
            vstd::arithmetic::mul::lemma_mul_inequality(
                row + 1,
                g.height as int,
                g.stride as int,
            );
            vstd::arithmetic::mul::lemma_mul_is_distributive_add_other_way(
                g.stride as int,
                row as int,
                1,
            );
            vstd::arithmetic::mul::lemma_mul_is_commutative(g.stride as int, row + 1);
            vstd::arithmetic::mul::lemma_mul_is_commutative(g.stride as int, g.height as int);
        }
        let mut col: usize = 0;
        while col < line
            invariant
                g.wf(),
                g.format == PixelFormat::Bgrx,
                data@.len() == g.size,
                data0.len() == g.size,
                data@.len() <= usize::MAX,
                stride == g.stride,
                height == g.height,
                line == g.line_bytes(),
                half == brightness / 2,
                quarter == brightness / 4,
                row < height,
                col <= line,
                base == row * g.stride,
                base + g.stride <= g.size,
                forall|i: int|
                    0 <= i < data@.len() ==> data@[i] == (if i < base + col {
                        filled_byte(*g, brightness, data0, i)
                    } else {
                        data0[i]
                    }),
            decreases line - col,
        {
            let channel = col % 4;
            let v: u8 = if channel == 0 {
                brightness
            } else if channel == 1 {
                half
            } else if channel == 2 {
                quarter
            } else {
                0
            };
            let k = base + col;
            data.set(k, v);
            proof {
                vstd::arithmetic::div_mod::lemma_fundamental_div_mod_converse(
                    k as int,
                    g.stride as int,
                    row as int,
                    col as int,
                );
                assert((col as int) % 4 == (k as int) % (g.stride as int) % 4);
                assert(v == filled_byte(*g, brightness, data0, k as int));
            }
            col = col + 1;
        }
        // this row's padding already holds its original bytes, as the
        // specification assigns
        proof {
            assert forall|i: int|
                base + line <= i < base + g.stride implies filled_byte(
                *g,
                brightness,
                data0,
                i,
            ) == data0[i] by {
                vstd::arithmetic::div_mod::lemma_fundamental_div_mod_converse(
                    i,
                    g.stride as int,
                    row as int,
                    i - base,
                );
            }
        }
        row = row + 1;
        base = base + stride;
    }
    proof {
        vstd::arithmetic::mul::lemma_mul_is_commutative(g.height as int, g.stride as int);
        assert(base == g.size);
        assert(data@ =~= fill_spec(*g, brightness, data0));
    }
    Ok(())
}

} // verus!
