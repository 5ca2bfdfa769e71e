use frame_engine::error::EngineError;
use frame_engine::format::{FormatDescriptor, Fraction, PixelFormat};
use frame_engine::negotiate::{propose_acceptable, validate, Direction};

fn descriptor(format: PixelFormat, width: i32, height: i32, numer: u32, denom: u32) -> FormatDescriptor {
    FormatDescriptor {
        format,
        width,
        height,
        rate: Fraction { numer, denom },
    }
}

#[test]
fn validate_accepts_positive_dimensions() {
    let d = descriptor(PixelFormat::Bgrx, 64, 64, 30, 1);
    let g = validate(&d).expect("a plain descriptor must validate");
    assert_eq!(g.format, PixelFormat::Bgrx);
    assert_eq!(g.width, 64);
    assert_eq!(g.height, 64);
    assert_eq!(g.stride, 256);
    assert_eq!(g.size, 256 * 64);
}

#[test]
fn validate_derives_luma_geometry() {
    let d = descriptor(PixelFormat::Gray8, 640, 480, 25, 1);
    let g = validate(&d).expect("a luma descriptor must validate");
    assert_eq!(g.stride, 640);
    assert_eq!(g.size, 640 * 480);
}

#[test]
fn validate_rejects_zero_width() {
    let d = descriptor(PixelFormat::Bgrx, 0, 64, 30, 1);
    assert_eq!(validate(&d), Err(EngineError::InvalidFormat));
}

#[test]
fn validate_rejects_negative_height() {
    let d = descriptor(PixelFormat::Bgrx, 64, -1, 30, 1);
    assert_eq!(validate(&d), Err(EngineError::InvalidFormat));
}

#[test]
fn validate_rejects_zero_rate_denominator() {
    let d = descriptor(PixelFormat::Bgrx, 64, 64, 30, 0);
    assert_eq!(validate(&d), Err(EngineError::InvalidFormat));
}

#[test]
fn validate_accepts_zero_rate_numerator() {
    let d = descriptor(PixelFormat::Bgrx, 64, 64, 0, 1);
    assert!(validate(&d).is_ok());
}

#[test]
fn validate_accepts_largest_dimensions() {
    let d = descriptor(PixelFormat::Bgrx, i32::MAX, i32::MAX, 30, 1);
    let g = validate(&d).expect("the largest negotiable frame must validate");
    assert_eq!(g.stride, 4 * (i32::MAX as u64));
    assert_eq!(g.size, 4 * (i32::MAX as u64) * (i32::MAX as u64));
}

#[test]
fn propose_upstream_forces_packed_format() {
    let candidates = vec![
        descriptor(PixelFormat::Gray8, 64, 64, 30, 1),
        descriptor(PixelFormat::Bgrx, 128, 128, 60, 1),
    ];
    let r = propose_acceptable(Direction::Upstream, &candidates, None);
    assert_eq!(r.len(), 2);
    assert_eq!(r[0], descriptor(PixelFormat::Bgrx, 64, 64, 30, 1));
    assert_eq!(r[1], descriptor(PixelFormat::Bgrx, 128, 128, 60, 1));
}

#[test]
fn propose_downstream_widens_with_luma_first() {
    let candidates = vec![descriptor(PixelFormat::Bgrx, 64, 64, 30, 1)];
    let r = propose_acceptable(Direction::Downstream, &candidates, None);
    assert_eq!(r.len(), 2);
    assert_eq!(r[0], descriptor(PixelFormat::Gray8, 64, 64, 30, 1));
    assert_eq!(r[1], descriptor(PixelFormat::Bgrx, 64, 64, 30, 1));
}

#[test]
fn propose_with_filter_keeps_filter_order() {
    let candidates = vec![
        descriptor(PixelFormat::Bgrx, 64, 64, 30, 1),
        descriptor(PixelFormat::Bgrx, 128, 128, 30, 1),
    ];
    // downstream accepts the luma variants and the candidates themselves;
    // the filter lists a preferred subset in its own order
    let filter = vec![
        descriptor(PixelFormat::Bgrx, 128, 128, 30, 1),
        descriptor(PixelFormat::Gray8, 64, 64, 30, 1),
        descriptor(PixelFormat::Bgrx, 512, 512, 30, 1),
    ];
    let r = propose_acceptable(Direction::Downstream, &candidates, Some(&filter));
    // the unmatched 512x512 entry drops out; the rest keep the filter's order
    assert_eq!(r.len(), 2);
    assert_eq!(r[0], descriptor(PixelFormat::Bgrx, 128, 128, 30, 1));
    assert_eq!(r[1], descriptor(PixelFormat::Gray8, 64, 64, 30, 1));
    // every survivor is both accepted and wanted
    let accepted = propose_acceptable(Direction::Downstream, &candidates, None);
    for d in &r {
        assert!(accepted.contains(d));
        assert!(filter.contains(d));
    }
}

#[test]
fn propose_empty_intersection_is_empty_not_an_error() {
    let candidates = vec![descriptor(PixelFormat::Bgrx, 64, 64, 30, 1)];
    let filter = vec![descriptor(PixelFormat::Bgrx, 99, 99, 30, 1)];
    let r = propose_acceptable(Direction::Upstream, &candidates, Some(&filter));
    assert!(r.is_empty());
}
