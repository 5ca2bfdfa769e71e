use frame_engine::error::EngineError;
use frame_engine::format::{FormatDescriptor, Fraction, FrameGeometry, PixelFormat};
use frame_engine::negotiate::validate;
use frame_engine::transform::transform;
use frame_engine::fill::{brightness_for, fill_frame};

fn packed(width: i32, height: i32) -> FrameGeometry {
    let d = FormatDescriptor {
        format: PixelFormat::Bgrx,
        width,
        height,
        rate: Fraction { numer: 30, denom: 1 },
    };
    validate(&d).expect("geometry")
}

/// A packed geometry whose rows carry extra alignment padding.
fn packed_with_stride(width: i32, height: i32, stride: u64) -> FrameGeometry {
    FrameGeometry {
        format: PixelFormat::Bgrx,
        width,
        height,
        stride,
        size: stride * height as u64,
    }
}

#[test]
fn transform_remaps_2x2_packed_pixels() {
    let g = packed(2, 2);
    assert_eq!(g.size, 16);
    // every pixel holds B=40, G=10, R=200, A=255
    let input: Vec<u8> = vec![40, 10, 200, 255].repeat(4);
    let mut output: Vec<u8> = vec![0; 16];
    transform(&g, &input, &g, &mut output).expect("packed conversion");
    // halving gives B=20 and R=100; the green offset gives 10/2+127 = 132;
    // the fourth channel passes through
    for pixel in output.chunks(4) {
        assert_eq!(pixel, [20, 132, 100, 255]);
    }
}

#[test]
fn transform_channel_arithmetic_never_overflows() {
    let g = packed(1, 1);
    let input: Vec<u8> = vec![255, 255, 255, 255];
    let mut output: Vec<u8> = vec![0; 4];
    transform(&g, &input, &g, &mut output).expect("packed conversion");
    // 255/2 = 127; the green offset tops out at 127+127 = 254
    assert_eq!(output, [127, 254, 127, 255]);
}

#[test]
fn transform_preserves_output_padding() {
    let g_in = packed(2, 2);
    let g_out = packed_with_stride(2, 2, 12);
    let input: Vec<u8> = vec![40, 10, 200, 255].repeat(4);
    let mut output: Vec<u8> = vec![0xAB; 24];
    transform(&g_in, &input, &g_out, &mut output).expect("packed conversion");
    for row in output.chunks(12) {
        assert_eq!(&row[0..8], [20, 132, 100, 255, 20, 132, 100, 255]);
        // the four padding bytes of each row keep their old contents
        assert_eq!(&row[8..12], [0xAB, 0xAB, 0xAB, 0xAB]);
    }
}

#[test]
fn transform_is_deterministic() {
    let g = packed(3, 2);
    let input: Vec<u8> = (0u8..24).collect();
    let mut first: Vec<u8> = vec![7; 24];
    let mut second: Vec<u8> = vec![7; 24];
    transform(&g, &input, &g, &mut first).expect("first run");
    transform(&g, &input, &g, &mut second).expect("second run");
    assert_eq!(first, second);
}

#[test]
fn transform_never_reads_input_padding() {
    let g_in = packed_with_stride(2, 2, 16);
    let g_out = packed(2, 2);
    let mut plain: Vec<u8> = vec![0; 32];
    let mut noisy: Vec<u8> = vec![0; 32];
    for row in 0..2 {
        for i in 0..8 {
            plain[row * 16 + i] = (row * 8 + i) as u8;
            noisy[row * 16 + i] = (row * 8 + i) as u8;
        }
        for i in 8..16 {
            noisy[row * 16 + i] = 0xEE;
        }
    }
    let mut out_plain: Vec<u8> = vec![0; 16];
    let mut out_noisy: Vec<u8> = vec![0; 16];
    transform(&g_in, &plain, &g_out, &mut out_plain).expect("plain");
    transform(&g_in, &noisy, &g_out, &mut out_noisy).expect("noisy");
    assert_eq!(out_plain, out_noisy);
}

#[test]
fn transform_rejects_luma_output() {
    let g_in = packed(2, 2);
    let d = FormatDescriptor {
        format: PixelFormat::Gray8,
        width: 2,
        height: 2,
        rate: Fraction { numer: 30, denom: 1 },
    };
    let g_out = validate(&d).expect("luma geometry");
    let input: Vec<u8> = vec![0; 32];
    let mut output: Vec<u8> = vec![9; 4];
    let r = transform(&g_in, &input, &g_out, &mut output);
    assert_eq!(r, Err(EngineError::UnsupportedFormat));
    // a hard failure aborts the operation without touching the output
    assert_eq!(output, [9, 9, 9, 9]);
}

#[test]
fn brightness_breathes_over_the_second() {
    assert_eq!(brightness_for(0), 0);
    assert_eq!(brightness_for(250), 125);
    assert_eq!(brightness_for(499), 249);
    assert_eq!(brightness_for(500), 250);
    assert_eq!(brightness_for(999), 0);
}

#[test]
fn fill_writes_the_pattern_and_preserves_padding() {
    let g = packed_with_stride(2, 2, 12);
    let mut data: Vec<u8> = vec![0xCC; 24];
    fill_frame(&g, 100, &mut data).expect("packed fill");
    for row in data.chunks(12) {
        assert_eq!(&row[0..8], [100, 50, 25, 0, 100, 50, 25, 0]);
        assert_eq!(&row[8..12], [0xCC, 0xCC, 0xCC, 0xCC]);
    }
}

#[test]
fn fill_rejects_luma_frames() {
    let d = FormatDescriptor {
        format: PixelFormat::Gray8,
        width: 4,
        height: 1,
        rate: Fraction { numer: 30, denom: 1 },
    };
    let g = validate(&d).expect("luma geometry");
    let mut data: Vec<u8> = vec![7; 4];
    assert_eq!(fill_frame(&g, 100, &mut data), Err(EngineError::UnsupportedFormat));
    assert_eq!(data, [7, 7, 7, 7]);
}
