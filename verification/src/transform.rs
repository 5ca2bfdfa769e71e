//! Stateless per-frame pixel conversion between two negotiated geometries.
//!
//! The conversion itself is a simple tone remap; the value of this module is
//! the stride-aware, allocation-free iteration discipline: rows are walked by
//! each buffer's own stride, and alignment padding beyond a row's pixel
//! bytes is neither read nor written.

use vstd::prelude::*;
use crate::error::EngineError;
use crate::format::{FrameGeometry, PixelFormat};

verus! {

/// The per-channel remap of one pixel byte. `channel` is the byte's offset
/// within its 4-byte pixel: blue, green, red, then the padding channel,
/// which passes through unchanged. Halving keeps every channel at or below
/// 127, so the green offset can never overflow a byte.
pub open spec fn remapped_byte(channel: int, b: u8) -> u8 {
    if channel == 1 {
        (b / 2 + 127) as u8
    } else if channel == 3 {
        b
    } else {
        (b / 2) as u8
    }
}

/// The byte the transform stores at offset `i` of the output buffer: a
/// remapped input byte inside a row's pixel bytes, the untouched original
/// byte in the padding beyond them.
pub open spec fn transformed_byte(
    g_in: FrameGeometry,
    din: Seq<u8>,
    g_out: FrameGeometry,
    dout0: Seq<u8>,
    i: int,
) -> u8 {
    let row = i / (g_out.stride as int);
    let col = i % (g_out.stride as int);
    if col < g_out.line_bytes() {
        remapped_byte(col % 4, din[row * (g_in.stride as int) + col])
    } else {
        dout0[i]
    }
}

/// The whole output buffer of one transform run over initial contents
/// `dout0`.
pub open spec fn transform_spec(
    g_in: FrameGeometry,
    din: Seq<u8>,
    g_out: FrameGeometry,
    dout0: Seq<u8>,
) -> Seq<u8> {
    Seq::new(dout0.len(), |i: int| transformed_byte(g_in, din, g_out, dout0, i))
}

/// Splits a buffer offset into its row and column for a well-formed
/// geometry's stride.
proof fn lemma_row_col(i: int, stride: int, height: int)
    requires
        0 < stride,
        0 < height,
        0 <= i < stride * height,
    ensures
        0 <= i / stride < height,
        0 <= i % stride < stride,
        i == (i / stride) * stride + i % stride,
{
    vstd::arithmetic::div_mod::lemma_fundamental_div_mod(i, stride);
    vstd::arithmetic::div_mod::lemma_div_pos_is_pos(i, stride);
    vstd::arithmetic::div_mod::lemma_mod_bound(i, stride);
    vstd::arithmetic::mul::lemma_mul_is_commutative(stride, i / stride);
    assert(i / stride < height) by (nonlinear_arith)
        requires
            0 < stride,
            i == stride * (i / stride) + i % stride,
            0 <= i % stride < stride,
            i < stride * height,
            0 <= i / stride,
    ;
}

/// Converts pixels from one packed frame into another of the same
/// dimensions, remapping each channel and leaving each row's alignment
/// padding in the output untouched.
///
/// Both buffers are walked by their own stride. Only the canonical packed
/// format has a defined conversion; any other format reaching this step is
/// an `UnsupportedFormat` hard failure that leaves the output unchanged.
pub fn transform(
    g_in: &FrameGeometry,
    in_data: &Vec<u8>,
    g_out: &FrameGeometry,
    out_data: &mut Vec<u8>,
) -> (r: Result<(), EngineError>)
    requires
        g_in.wf(),
        g_out.wf(),
        g_in.width == g_out.width,
        g_in.height == g_out.height,
        in_data@.len() == g_in.size,
        old(out_data)@.len() == g_out.size,
    ensures
        r is Ok <==> g_in.format == PixelFormat::Bgrx && g_out.format == PixelFormat::Bgrx,
        r is Ok ==> final(out_data)@ == transform_spec(*g_in, in_data@, *g_out, old(out_data)@),
        r is Err ==> final(out_data)@ == old(out_data)@ && r == Err::<(), EngineError>(
            EngineError::UnsupportedFormat,
        ),
{
    let ghost dout0 = out_data@;
    if g_in.format != PixelFormat::Bgrx || g_out.format != PixelFormat::Bgrx {
        return Err(EngineError::UnsupportedFormat);
    }
    let in_len = in_data.len();
    let out_len = out_data.len();
    proof {
        vstd::arithmetic::mul::lemma_mul_ordering(g_in.stride as int, g_in.height as int);
        vstd::arithmetic::mul::lemma_mul_ordering(g_out.stride as int, g_out.height as int);
    }
    let in_stride: usize = g_in.stride as usize;
    let out_stride: usize = g_out.stride as usize;
    let height: usize = g_out.height as usize;
    let line: usize = (g_out.width as usize) * 4;
    let mut row: usize = 0;
    let mut in_base: usize = 0;
    let mut out_base: usize = 0;
    while row < height
        invariant
            g_in.wf(),
            g_out.wf(),
            g_in.format == PixelFormat::Bgrx,
            g_out.format == PixelFormat::Bgrx,
            g_in.width == g_out.width,
            g_in.height == g_out.height,
            in_data@.len() == g_in.size,
            out_data@.len() == g_out.size,
            dout0.len() == g_out.size,
            in_data@.len() <= usize::MAX,
            out_data@.len() <= usize::MAX,
            in_stride == g_in.stride,
            out_stride == g_out.stride,
            height == g_out.height,
            line == g_out.line_bytes(),
            row <= height,
            in_base == row * g_in.stride,
            out_base == row * g_out.stride,
            forall|i: int|
                0 <= i < out_data@.len() ==> out_data@[i] == (if i < out_base {
                    transformed_byte(*g_in, in_data@, *g_out, dout0, i)
                } else {
                    dout0[i]
                }),
        decreases height - row,
    {
        proof {
            vstd::arithmetic::mul::lemma_mul_inequality(
                row + 1,
                g_in.height as int,
                g_in.stride as int,
            );
            vstd::arithmetic::mul::lemma_mul_inequality(
                row + 1,
                g_out.height as int,
                g_out.stride as int,
            );
            vstd::arithmetic::mul::lemma_mul_is_distributive_add_other_way(
                g_in.stride as int,
                row as int,
                1,
            );
            vstd::arithmetic::mul::lemma_mul_is_distributive_add_other_way(
                g_out.stride as int,
                row as int,
                1,
            );
            vstd::arithmetic::mul::lemma_mul_is_commutative(g_in.stride as int, row + 1);
            vstd::arithmetic::mul::lemma_mul_is_commutative(
                g_in.stride as int,
                g_in.height as int,
            );
            vstd::arithmetic::mul::lemma_mul_is_commutative(g_out.stride as int, row + 1);
            vstd::arithmetic::mul::lemma_mul_is_commutative(
                g_out.stride as int,
                g_out.height as int,
            );
        }
        let mut col: usize = 0;
        while col < line
            invariant
                g_in.wf(),
                g_out.wf(),
                g_in.format == PixelFormat::Bgrx,
                g_out.format == PixelFormat::Bgrx,
                g_in.width == g_out.width,
                g_in.height == g_out.height,
                in_data@.len() == g_in.size,
                out_data@.len() == g_out.size,
                dout0.len() == g_out.size,
                in_data@.len() <= usize::MAX,
                out_data@.len() <= usize::MAX,
                in_stride == g_in.stride,
                out_stride == g_out.stride,
                height == g_out.height,
                line == g_out.line_bytes(),
                row < height,
                col <= line,
                in_base == row * g_in.stride,
                out_base == row * g_out.stride,
                in_base + g_in.stride <= g_in.size,
                out_base + g_out.stride <= g_out.size,
                forall|i: int|
                    0 <= i < out_data@.len() ==> out_data@[i] == (if i < out_base + col {
                        transformed_byte(*g_in, in_data@, *g_out, dout0, i)
                    } else {
                        dout0[i]
                    }),
            decreases line - col,
        {
            proof {
                // the row fits both buffers: the shared line is within
                // either stride, and this row ends within either size
                assert(g_in.line_bytes() == g_out.line_bytes());
                assert(in_base + col < g_in.size);
                assert(out_base + col < g_out.size);
            }
            let b = in_data[in_base + col];
            let channel = col % 4;
            let v: u8 = if channel == 1 {
                b / 2 + 127
            } else if channel == 3 {
                b
            } else {
                b / 2
            };
            let k = out_base + col;
            out_data.set(k, v);
            proof {
                vstd::arithmetic::div_mod::lemma_fundamental_div_mod_converse(
                    k as int,
                    g_out.stride as int,
                    row as int,
                    col as int,
                );
                assert((col as int) % 4 == (k as int) % (g_out.stride as int) % 4);
                assert(v == transformed_byte(*g_in, in_data@, *g_out, dout0, k as int));
            }
            col = col + 1;
        }
        // the padding bytes of this row already hold their original
        // contents, which is what the specification assigns them
        proof {
            assert forall|i: int|
                out_base + line <= i < out_base + g_out.stride implies transformed_byte(
                *g_in,
                in_data@,
                *g_out,
                dout0,
                i,
            ) == dout0[i] by {
                vstd::arithmetic::div_mod::lemma_fundamental_div_mod_converse(
                    i,
                    g_out.stride as int,
                    row as int,
                    i - out_base,
                );
            }
        }
        row = row + 1;
        in_base = in_base + in_stride;
        out_base = out_base + out_stride;
    }
    proof {
        vstd::arithmetic::mul::lemma_mul_is_commutative(g_out.height as int, g_out.stride as int);
        assert(out_base == g_out.size);
        assert(out_data@ =~= transform_spec(*g_in, in_data@, *g_out, dout0));
    }
    Ok(())
}

/// Transforming the same input twice yields identical output bytes: the
/// result is a function of the geometries and buffer contents alone.
pub proof fn lemma_transform_deterministic(
    g_in: FrameGeometry,
    din: Seq<u8>,
    g_out: FrameGeometry,
    dout0: Seq<u8>,
    first: Seq<u8>,
    second: Seq<u8>,
)
    requires
        first == transform_spec(g_in, din, g_out, dout0),
        second == transform_spec(g_in, din, g_out, dout0),
    ensures
        first == second,
{
}

/// Padding bytes beyond a row's pixel bytes are never written: at every
/// such offset the output holds the byte the buffer already held.
pub proof fn lemma_transform_preserves_padding(
    g_in: FrameGeometry,
    din: Seq<u8>,
    g_out: FrameGeometry,
    dout0: Seq<u8>,
    i: int,
)
    requires
        0 <= i < dout0.len(),
        g_out.line_bytes() <= i % (g_out.stride as int),
    ensures
        transform_spec(g_in, din, g_out, dout0)[i] == dout0[i],
{
}

/// Padding bytes of the input are never read: two inputs that agree on
/// every pixel byte of every row produce identical outputs, whatever their
/// padding holds.
pub proof fn lemma_transform_reads_no_padding(
    g_in: FrameGeometry,
    din1: Seq<u8>,
    din2: Seq<u8>,
    g_out: FrameGeometry,
    dout0: Seq<u8>,
)
    requires
        g_in.wf(),
        g_out.wf(),
        g_in.format == g_out.format,
        g_in.width == g_out.width,
        g_in.height == g_out.height,
        din1.len() == g_in.size,
        din2.len() == g_in.size,
        dout0.len() == g_out.size,
        forall|j: int|
            0 <= j < din1.len() && (j % (g_in.stride as int)) < g_in.line_bytes() ==> din1[j]
                == din2[j],
    ensures
        transform_spec(g_in, din1, g_out, dout0) == transform_spec(g_in, din2, g_out, dout0),
{
    let s1 = transform_spec(g_in, din1, g_out, dout0);
    let s2 = transform_spec(g_in, din2, g_out, dout0);
    assert forall|i: int| 0 <= i < dout0.len() implies s1[i] == s2[i] by {
        let ostride = g_out.stride as int;
        let istride = g_in.stride as int;
        lemma_row_col(i, ostride, g_out.height as int);
        let row = i / ostride;
        let col = i % ostride;
        if col < g_out.line_bytes() {
            let j = row * istride + col;
            assert(col < istride);
            vstd::arithmetic::mul::lemma_mul_inequality(row + 1, g_in.height as int, istride);
            vstd::arithmetic::mul::lemma_mul_is_distributive_add_other_way(istride, row, 1);
            vstd::arithmetic::mul::lemma_mul_is_commutative(istride, g_in.height as int);
            vstd::arithmetic::mul::lemma_mul_nonnegative(row, istride);
            vstd::arithmetic::mul::lemma_mul_is_commutative(istride, row);
            vstd::arithmetic::div_mod::lemma_fundamental_div_mod_converse(
                j,
                istride,
                row,
                col,
            );
            assert(0 <= j < din1.len());
            assert(j % istride == col);
        }
    }
    assert(s1 =~= s2);
}

} // verus!
