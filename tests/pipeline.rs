use watermark::{
    apply_opacity, apply_watermark, check_ready, output_file_name, classify_extension, composite,
    is_watermark_extension, place, raw_to_bitmap, scale_alpha, tally, target_size, Bitmap,
    BatchReport, ConfigError, DecodeError, FormatKind, RawSamples, WatermarkParams, PARAM_UNIT,
};

fn solid(width: u32, height: u32, px: [u8; 4]) -> Bitmap {
    let mut data = Vec::new();
    for _ in 0..(width as usize * height as usize) {
        data.extend_from_slice(&px);
    }
    Bitmap::new(width, height, data).unwrap()
}

fn pixel(b: &Bitmap, x: u32, y: u32) -> [u8; 4] {
    let i = 4 * (y as usize * b.width as usize + x as usize);
    [b.data[i], b.data[i + 1], b.data[i + 2], b.data[i + 3]]
}

#[test]
fn bitmap_new_checks_length() {
    assert!(Bitmap::new(2, 3, vec![0u8; 24]).is_some());
    assert!(Bitmap::new(2, 3, vec![0u8; 23]).is_none());
    assert!(Bitmap::new(0, 0, Vec::new()).is_some());
}

#[test]
fn params_ranges() {
    assert!(WatermarkParams::new(5000, 2000, 10000, 0).is_some());
    assert!(WatermarkParams::new(10001, 2000, 0, 0).is_none());
    assert!(WatermarkParams::new(0, 0, 0, 0).is_none());
    assert!(WatermarkParams::new(0, 10001, 0, 0).is_none());
    assert!(WatermarkParams::new(0, 1, 10001, 0).is_none());
    assert!(WatermarkParams::new(0, 1, 0, 10001).is_none());
}

#[test]
fn placement_bottom_right() {
    assert_eq!(place(1000, 800, 200, 100, PARAM_UNIT, PARAM_UNIT), (800, 700));
}

#[test]
fn placement_top_left_and_centre() {
    assert_eq!(place(1000, 800, 200, 100, 0, 0), (0, 0));
    assert_eq!(place(1000, 800, 200, 100, 5000, 5000), (400, 350));
    // 801 * 0.5 = 400.5 rounds up
    assert_eq!(place(1001, 800, 200, 100, 5000, 0), (401, 0));
}

#[test]
fn placement_within_margin_for_slider_stops() {
    for &(bw, bh, ww, wh) in &[(1000u32, 800u32, 200u32, 100u32), (7, 5, 7, 1), (3, 9, 2, 2)] {
        for &px in &[0u32, 5000, 10000] {
            for &py in &[0u32, 5000, 10000] {
                let (x, y) = place(bw, bh, ww, wh, px, py);
                assert!(x + ww <= bw && y + wh <= bh);
            }
        }
    }
}

#[test]
fn oversized_watermark_at_origin() {
    assert_eq!(place(100, 800, 300, 100, PARAM_UNIT, PARAM_UNIT), (0, 700));
    assert_eq!(place(100, 50, 300, 100, 5000, 5000), (0, 0));
}

#[test]
fn target_size_scenario() {
    assert_eq!(target_size(1000, 400, 200, 2000), Some((200, 100)));
}

#[test]
fn target_size_rounds_and_floors_at_one() {
    // 333 * 0.5 = 166.5 -> 167; 167 * 3 / 4 = 125.25 -> 125
    assert_eq!(target_size(333, 4, 3, 5000), Some((167, 125)));
    // tiny base: width floors at one, height of a flat watermark too
    assert_eq!(target_size(1, 1000, 1, 1), Some((1, 1)));
    assert_eq!(target_size(0, 5, 5, 10000), Some((1, 1)));
}

#[test]
fn target_size_keeps_aspect() {
    for &(bw, ww, wh, sc) in &[(1000u32, 400u32, 200u32, 2000u32), (4000, 640, 480, 1234), (17, 3, 11, 9999)] {
        let (tw, th) = target_size(bw, ww, wh, sc).unwrap();
        let lhs = th as u64 * ww as u64;
        let rhs = tw as u64 * wh as u64;
        assert!(lhs <= rhs + ww as u64 && rhs <= lhs + ww as u64);
    }
}

#[test]
fn target_size_too_tall() {
    assert_eq!(target_size(u32::MAX, 1, u32::MAX, PARAM_UNIT), None);
}

#[test]
fn alpha_scaling_rounds() {
    assert_eq!(scale_alpha(200, 5000), 100);
    assert_eq!(scale_alpha(255, 5000), 128);
    assert_eq!(scale_alpha(255, 0), 0);
    assert_eq!(scale_alpha(255, PARAM_UNIT), 255);
    assert_eq!(scale_alpha(3, 1000), 0);
}

#[test]
fn alpha_never_raised() {
    for a in 0..=255u8 {
        for &o in &[0u32, 1, 2500, 5000, 9999, 10000] {
            assert!(scale_alpha(a, o) <= a);
        }
    }
}

#[test]
fn opacity_touches_alpha_only() {
    let mut b = Bitmap::new(2, 1, vec![10, 20, 30, 200, 40, 50, 60, 100]).unwrap();
    apply_opacity(&mut b, 5000);
    assert_eq!(b.data, vec![10, 20, 30, 100, 40, 50, 60, 50]);
    let mut c = Bitmap::new(1, 1, vec![1, 2, 3, 4]).unwrap();
    apply_opacity(&mut c, PARAM_UNIT);
    assert_eq!(c.data, vec![1, 2, 3, 4]);
}

#[test]
fn composite_zero_opacity_is_identity() {
    let base = solid(6, 4, [10, 20, 30, 255]);
    let wm = solid(3, 2, [200, 100, 50, 255]);
    let out = composite(&base, wm, 0, 2, 1);
    assert_eq!(out.data, base.data);
}

#[test]
fn composite_opaque_replaces_rectangle() {
    let base = solid(6, 4, [10, 20, 30, 255]);
    let wm = solid(3, 2, [200, 100, 50, 255]);
    let out = composite(&base, wm, PARAM_UNIT, 2, 1);
    for y in 0..4 {
        for x in 0..6 {
            let inside = (2..5).contains(&x) && (1..3).contains(&y);
            let want = if inside { [200, 100, 50, 255] } else { [10, 20, 30, 255] };
            assert_eq!(pixel(&out, x, y), want);
        }
    }
}

#[test]
fn composite_clips_at_edges() {
    let base = solid(4, 4, [0, 0, 0, 255]);
    let wm = solid(3, 3, [255, 255, 255, 255]);
    let out = composite(&base, wm, PARAM_UNIT, 2, 2);
    assert_eq!(pixel(&out, 3, 3), [255, 255, 255, 255]);
    assert_eq!(pixel(&out, 1, 1), [0, 0, 0, 255]);
    assert_eq!(out.data.len(), base.data.len());
}

#[test]
fn scenario_bottom_right_half_opacity() {
    let base = solid(1000, 800, [10, 20, 30, 255]);
    let wm = solid(400, 200, [200, 100, 50, 255]);
    let params = WatermarkParams::new(5000, 2000, PARAM_UNIT, PARAM_UNIT).unwrap();
    let out = apply_watermark(&base, &wm, &params).unwrap();
    assert_eq!((out.width, out.height), (1000, 800));
    assert_eq!(out.data.len(), base.data.len());
    for y in (0..800).step_by(7) {
        for x in (0..1000).step_by(7) {
            if x < 800 || y < 700 {
                assert_eq!(pixel(&out, x, y), [10, 20, 30, 255]);
            }
        }
    }
    assert_eq!(pixel(&out, 799, 799), [10, 20, 30, 255]);
    assert_eq!(pixel(&out, 999, 699), [10, 20, 30, 255]);
    let p = pixel(&out, 900, 750);
    assert_ne!(p, [10, 20, 30, 255]);
    assert!(p[0] > 10 && p[0] < 200);
}

#[test]
fn apply_watermark_zero_opacity_keeps_base() {
    let base = solid(50, 40, [1, 2, 3, 255]);
    let wm = solid(10, 30, [9, 9, 9, 255]);
    let params = WatermarkParams::new(0, 5000, 5000, 5000).unwrap();
    let out = apply_watermark(&base, &wm, &params).unwrap();
    assert_eq!(out.data, base.data);
}

#[test]
fn apply_watermark_larger_than_base() {
    let base = solid(10, 4, [0, 0, 0, 255]);
    let wm = solid(2, 10, [255, 255, 255, 255]);
    let params = WatermarkParams::new(PARAM_UNIT, PARAM_UNIT, PARAM_UNIT, PARAM_UNIT).unwrap();
    let out = apply_watermark(&base, &wm, &params).unwrap();
    assert_eq!((out.width, out.height), (10, 4));
    assert_eq!(pixel(&out, 0, 0), [255, 255, 255, 255]);
}

#[test]
fn classify_extensions() {
    assert_eq!(classify_extension("png"), Some(FormatKind::Standard));
    assert_eq!(classify_extension("JPG"), Some(FormatKind::Standard));
    assert_eq!(classify_extension("Jpeg"), Some(FormatKind::Standard));
    assert_eq!(classify_extension("webp"), Some(FormatKind::Standard));
    for e in ["nef", "CR2", "arw", "dng", "orf", "Rw2", "raf"] {
        assert_eq!(classify_extension(e), Some(FormatKind::Raw));
    }
    assert_eq!(classify_extension("txt"), None);
    assert_eq!(classify_extension(""), None);
    assert_eq!(classify_extension("pngx"), None);
    assert!(is_watermark_extension("PNG"));
    assert!(!is_watermark_extension("nef"));
}

#[test]
fn raw_zero_width() {
    let r = raw_to_bitmap(0, 10, &RawSamples::Integer(vec![0u16; 30]));
    assert_eq!(r.unwrap_err(), DecodeError::ZeroDimensions);
    let r = raw_to_bitmap(10, 0, &RawSamples::Float);
    assert_eq!(r.unwrap_err(), DecodeError::ZeroDimensions);
}

#[test]
fn raw_float_unsupported() {
    let r = raw_to_bitmap(2, 2, &RawSamples::Float);
    assert_eq!(r.unwrap_err(), DecodeError::UnsupportedSampleFormat);
}

#[test]
fn raw_short_buffer() {
    let r = raw_to_bitmap(2, 2, &RawSamples::Integer(vec![0u16; 11]));
    assert!(matches!(r, Err(DecodeError::DecodeFailed(_))));
}

#[test]
fn raw_samples_to_rgba() {
    let s = vec![0x1234u16, 0xffff, 0x00ff, 0x8000, 0x0100, 0x7fff, 0xff00, 0, 0x0080];
    let b = raw_to_bitmap(3, 1, &RawSamples::Integer(s)).unwrap();
    assert_eq!((b.width, b.height), (3, 1));
    assert_eq!(b.data, vec![0x12, 0xff, 0x01, 255, 0x80, 0x01, 0x7f, 255, 0xfe, 0x00, 0x00, 255]);
}

#[test]
fn batch_with_one_failed_decode() {
    let inputs = [(10usize, 10usize), (4, 4), (0, 7), (3, 2), (1, 1)];
    let mut outcomes = Vec::new();
    for &(w, h) in &inputs {
        let r = raw_to_bitmap(w, h, &RawSamples::Integer(vec![500u16; 3 * w * h]));
        outcomes.push(r.is_ok());
    }
    let report = tally(&outcomes);
    assert_eq!(report, BatchReport { total: 5, succeeded: 4, failed: 1 });
}

#[test]
fn batch_report_records() {
    let mut r = BatchReport::new(2);
    assert!(!r.is_complete());
    r.record(true);
    r.record(false);
    assert!(r.is_complete());
    assert_eq!((r.succeeded, r.failed), (1, 1));
}

#[test]
fn ready_checks() {
    assert_eq!(check_ready(true, true, true), Ok(()));
    assert_eq!(check_ready(false, false, false), Err(ConfigError::MissingInput));
    assert_eq!(check_ready(true, false, true), Err(ConfigError::MissingOutput));
    assert_eq!(check_ready(true, true, false), Err(ConfigError::MissingWatermark));
}

#[test]
fn same_stem_collides() {
    // photo.nef and photo.jpg both become photo.png: the later write wins
    let first = output_file_name("photo");
    let second = output_file_name("photo");
    assert_eq!(first, "photo.png");
    assert_eq!(first, second);
    assert_eq!(output_file_name(""), ".png");
    assert_ne!(output_file_name("photo"), "photo");
}
