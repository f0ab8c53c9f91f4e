//! The export pipeline: crop rounding, rescaling, file naming and the
//! destination decision, on concrete frames.

use cleave::args::Verified;
use cleave::export::{
    crop_image, crop_region, extension, output_file_name, resize_image, save_selection,
    CropRegion, Destination, ExportError, OutputFormat, Timestamp,
};
use cleave::frame::{Frame, ResampleFilter};
use cleave::selection::{Rect, SelectionMode};

fn px(n: i64) -> i64 {
    n * 1000
}

fn test_frame(w: u32, h: u32) -> Frame {
    let bytes: Vec<u8> = (0..(4 * w * h)).map(|k| k as u8).collect();
    Frame::from_raw(w, h, bytes).unwrap()
}

fn plain_args() -> Verified {
    Verified {
        output_dir: None,
        image_format: None,
        mode: SelectionMode::Move,
        monitor: None,
        region: None,
        filename: None,
        delay: 0,
        monitor_list: false,
        scale_milli: None,
        filter: None,
    }
}

#[test]
fn crop_rounds_origin_up_and_extent_down() {
    let sel = Rect { x: 10400, y: 10600, w: 19700, h: 19200 };
    let r = crop_region(sel, 100, 100);
    assert_eq!(r, CropRegion { x: 11, y: 11, w: 19, h: 19 });
}

#[test]
fn crop_normalizes_a_negative_drag() {
    let sel = Rect { x: px(10), y: px(10), w: px(-5), h: px(-5) };
    let r = crop_region(sel, 100, 100);
    assert_eq!(r, CropRegion { x: 5, y: 5, w: 5, h: 5 });
}

#[test]
fn crop_clamps_into_the_frame() {
    let sel = Rect { x: px(-3), y: px(90), w: px(20), h: px(20) };
    let r = crop_region(sel, 100, 100);
    assert_eq!(r.x, 0);
    assert_eq!(r.y, 90);
    assert!(r.x + r.w <= 100);
    assert!(r.y + r.h <= 100);
}

#[test]
fn crop_image_copies_the_right_pixels() {
    let img = test_frame(4, 4);
    let sel = Rect { x: px(1), y: px(1), w: px(2), h: px(2) };
    let out = crop_image(&img, None, sel);
    assert_eq!(out.width(), 2);
    assert_eq!(out.height(), 2);
    // pixel (0,0) of the crop is pixel (1,1) of the source.
    assert_eq!(out.pixel_at(0, 0), (20, 21, 22, 23));
    assert_eq!(out.pixel_at(1, 0), (24, 25, 26, 27));
}

#[test]
fn explicit_region_takes_precedence() {
    let img = test_frame(4, 4);
    let sel = Rect { x: 0, y: 0, w: px(4), h: px(4) };
    let region = Rect { x: px(2), y: px(2), w: px(1), h: px(1) };
    let out = crop_image(&img, Some(region), sel);
    assert_eq!(out.width(), 1);
    assert_eq!(out.pixel_at(0, 0), (40, 41, 42, 43));
}

#[test]
fn resize_scales_the_dimensions() {
    let img = test_frame(4, 4);
    let out = resize_image(&img, 2000, ResampleFilter::Nearest);
    assert_eq!(out.width(), 8);
    assert_eq!(out.height(), 8);
    let half = resize_image(&img, 500, ResampleFilter::Triangle);
    assert_eq!(half.width(), 2);
    assert_eq!(half.height(), 2);
}

#[test]
fn resize_accepts_large_factors() {
    let img = test_frame(2, 2);
    let out = resize_image(&img, 2_000_000, ResampleFilter::Nearest);
    assert_eq!(out.width(), 4_000);
    assert_eq!(out.height(), 4_000);
}

#[test]
fn frame_from_raw_rejects_a_short_buffer() {
    assert!(Frame::from_raw(4, 4, vec![0u8; 63]).is_none());
    assert!(Frame::from_raw(4, 4, vec![0u8; 64]).is_some());
}

#[test]
fn frame_bytes_round_trip() {
    let img = test_frame(3, 2);
    let bytes = img.into_raw();
    assert!(bytes.len() >= 24);
    let expected: Vec<u8> = (0..24).map(|k| k as u8).collect();
    assert_eq!(&bytes[..24], &expected[..]);
}

#[test]
fn the_clock_reading_is_in_range() {
    let now = cleave::export::local_now();
    assert!((1..=12).contains(&now.month));
    assert!((1..=31).contains(&now.day));
    assert!(now.hour <= 23 && now.minute <= 59 && now.second <= 59);
}

#[test]
fn extensions_are_the_image_crates_preferred_ones() {
    assert_eq!(extension(OutputFormat::Png), "png");
    assert_eq!(extension(OutputFormat::Jpeg), "jpg");
    assert_eq!(extension(OutputFormat::Tiff), "tiff");
    assert_eq!(extension(OutputFormat::WebP), "webp");
}

#[test]
fn file_names_carry_the_zero_padded_timestamp() {
    let ts = Timestamp { year: 2024, month: 1, day: 2, hour: 3, minute: 4, second: 5 };
    assert_eq!(
        output_file_name("cleave", ts, OutputFormat::Png),
        "cleave-2024-01-02-03-04-05.png"
    );
    let early = Timestamp { year: 999, month: 12, day: 31, hour: 23, minute: 59, second: 59 };
    assert_eq!(
        output_file_name("shot", early, OutputFormat::Gif),
        "shot-0999-12-31-23-59-59.gif"
    );
}

#[test]
fn save_selection_defaults_to_the_clipboard() {
    let img = test_frame(4, 4);
    let ts = Timestamp { year: 2024, month: 1, day: 2, hour: 3, minute: 4, second: 5 };
    let sel = Rect { x: 0, y: 0, w: px(2), h: px(2) };
    let (out, dest) = save_selection(&img, &plain_args(), Some(sel), ts).unwrap();
    assert_eq!(out.width(), 2);
    assert_eq!(dest, Destination::Clipboard);
}

#[test]
fn save_selection_names_the_file_under_a_directory() {
    let img = test_frame(4, 4);
    let ts = Timestamp { year: 2024, month: 1, day: 2, hour: 3, minute: 4, second: 5 };
    let mut args = plain_args();
    args.output_dir = Some("shots".to_string());
    args.filename = Some("grab".to_string());
    args.image_format = Some(OutputFormat::Gif);
    let sel = Rect { x: 0, y: 0, w: px(3), h: px(3) };
    let (_, dest) = save_selection(&img, &args, Some(sel), ts).unwrap();
    assert_eq!(
        dest,
        Destination::File("grab-2024-01-02-03-04-05.gif".to_string())
    );
}

#[test]
fn save_selection_scales_when_asked() {
    let img = test_frame(4, 4);
    let ts = Timestamp { year: 2024, month: 1, day: 2, hour: 3, minute: 4, second: 5 };
    let mut args = plain_args();
    args.scale_milli = Some(500);
    let sel = Rect { x: 0, y: 0, w: px(4), h: px(4) };
    let (out, _) = save_selection(&img, &args, Some(sel), ts).unwrap();
    assert_eq!(out.width(), 2);
    assert_eq!(out.height(), 2);
}

#[test]
fn save_selection_without_anything_to_crop_fails() {
    let img = test_frame(4, 4);
    let ts = Timestamp { year: 2024, month: 1, day: 2, hour: 3, minute: 4, second: 5 };
    assert!(matches!(
        save_selection(&img, &plain_args(), None, ts),
        Err(ExportError::NoSelection)
    ));
}

#[test]
fn save_selection_prefers_the_external_region() {
    let img = test_frame(4, 4);
    let ts = Timestamp { year: 2024, month: 1, day: 2, hour: 3, minute: 4, second: 5 };
    let mut args = plain_args();
    args.region = Some(Rect { x: px(1), y: px(1), w: px(1), h: px(1) });
    let sel = Rect { x: 0, y: 0, w: px(4), h: px(4) };
    let (out, _) = save_selection(&img, &args, Some(sel), ts).unwrap();
    assert_eq!(out.width(), 1);
    assert_eq!(out.pixel_at(0, 0), (20, 21, 22, 23));
}
