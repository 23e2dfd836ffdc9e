use novel_scraper::{get_image_meta, sniff, ByteCursor, ImageFormat, ImageMeta, SniffError};

fn gif(width: u16, height: u16) -> Vec<u8> {
    let mut b = vec![0x47, 0x49, 0x46, 0x38, 0x39, 0x61];
    b.extend_from_slice(&width.to_le_bytes());
    b.extend_from_slice(&height.to_le_bytes());
    b.extend_from_slice(&[0xF7, 0x00, 0x00]);
    b
}

fn png(width: u32, height: u32) -> Vec<u8> {
    let mut b = vec![0x89, 0x50, 0x4E, 0x47, 0x0D, 0x0A, 0x1A, 0x0A, 0, 0, 0, 13];
    b.extend_from_slice(b"IHDR");
    b.extend_from_slice(&width.to_be_bytes());
    b.extend_from_slice(&height.to_be_bytes());
    b.extend_from_slice(&[8, 6, 0, 0, 0, 0x1F, 0x15, 0xC4, 0x89]);
    b
}

fn bmp(width: i32, height: i32) -> Vec<u8> {
    let mut b = vec![0x42, 0x4D, 0x46, 0, 0, 0, 0, 0, 0, 0, 0x36, 0, 0, 0, 40, 0, 0, 0];
    b.extend_from_slice(&width.to_le_bytes());
    b.extend_from_slice(&height.to_le_bytes());
    b.extend_from_slice(&[1, 0, 24, 0]);
    b
}

fn webp(chunk: &[u8; 4], width: u16, height: u16) -> Vec<u8> {
    let mut b = b"RIFF".to_vec();
    b.extend_from_slice(&[0x24, 0, 0, 0]);
    b.extend_from_slice(b"WEBP");
    b.extend_from_slice(chunk);
    b.extend_from_slice(&[0x18, 0, 0, 0]);
    b.extend_from_slice(&[0x30, 0x01, 0x00, 0x9D, 0x01, 0x2A]);
    b.extend_from_slice(&width.to_le_bytes());
    b.extend_from_slice(&height.to_le_bytes());
    b
}

fn jpeg_app0_sof0(width: u16, height: u16) -> Vec<u8> {
    let mut b = vec![0xFF, 0xD8];
    // APP0 (JFIF), length 16, with a 2x2 "thumbnail" size that must be ignored
    b.extend_from_slice(&[0xFF, 0xE0, 0x00, 0x10]);
    b.extend_from_slice(b"JFIF\0");
    b.extend_from_slice(&[0x01, 0x01, 0x00, 0x00, 0x01, 0x00, 0x01, 0x02, 0x02]);
    // SOF0, precision 8
    b.extend_from_slice(&[0xFF, 0xC0, 0x00, 0x11, 0x08]);
    b.extend_from_slice(&height.to_be_bytes());
    b.extend_from_slice(&width.to_be_bytes());
    b.extend_from_slice(&[0x03, 0x01, 0x22, 0x00]);
    b
}

fn ok(bytes: &[u8]) -> ImageMeta {
    sniff(bytes).expect("a supported header")
}

fn err(bytes: &[u8]) -> SniffError {
    sniff(bytes).expect_err("a failing header")
}

#[test]
fn gif89a_one_by_one() {
    let b = vec![0x47, 0x49, 0x46, 0x38, 0x39, 0x61, 0x01, 0x00, 0x01, 0x00];
    let m = ok(&b);
    assert_eq!((m.width, m.height, m.mime_type.as_str()), (1, 1, "image/gif"));
}

#[test]
fn gif_reads_little_endian() {
    let m = ok(&gif(0x0201, 0x0403));
    assert_eq!((m.width, m.height), (513, 1027));
    assert_eq!(m.mime_type, "image/gif");
}

#[test]
fn png_ihdr_sixteen_by_thirty_two() {
    let m = ok(&png(16, 32));
    assert_eq!((m.width, m.height, m.mime_type.as_str()), (16, 32, "image/png"));
}

#[test]
fn png_large_dimensions() {
    let m = ok(&png(0x0102_0304, 70000));
    assert_eq!((m.width, m.height), (0x0102_0304, 70000));
}

#[test]
fn png_first_chunk_not_ihdr_is_parse_error() {
    let mut b = png(16, 32);
    b[12..16].copy_from_slice(b"IDAT");
    assert_eq!(err(&b), SniffError::ParseError);
}

#[test]
fn jpeg_baseline_after_app0() {
    let m = ok(&jpeg_app0_sof0(320, 240));
    assert_eq!((m.width, m.height, m.mime_type.as_str()), (320, 240, "image/jpeg"));
}

#[test]
fn jpeg_progressive_after_several_segments() {
    let mut b = vec![0xFF, 0xD8];
    b.extend_from_slice(&[0xFF, 0xFE, 0x00, 0x05, b'h', b'i', b'!']);
    b.extend_from_slice(&[0xFF, 0xDB, 0x00, 0x03, 0x00]);
    b.extend_from_slice(&[0xFF, 0xC2, 0x00, 0x11, 0x08, 0x03, 0x00, 0x04, 0x00]);
    let m = ok(&b);
    assert_eq!((m.width, m.height), (1024, 768));
}

#[test]
fn jpeg_extended_sequential_frame() {
    let b = vec![0xFF, 0xD8, 0xFF, 0xC1, 0x00, 0x11, 0x0C, 0x00, 0x10, 0x00, 0x20];
    let m = ok(&b);
    assert_eq!((m.width, m.height), (32, 16));
}

#[test]
fn jpeg_missing_marker_is_parse_error() {
    let b = vec![0xFF, 0xD8, 0xFF, 0xE0, 0x00, 0x04, 0x00, 0x00, 0x12, 0xC0, 0x00];
    assert_eq!(err(&b), SniffError::ParseError);
}

#[test]
fn jpeg_segment_length_below_two_is_parse_error() {
    let b = vec![0xFF, 0xD8, 0xFF, 0xE0, 0x00, 0x01, 0xFF, 0xC0, 0x00, 0x11, 0x08];
    assert_eq!(err(&b), SniffError::ParseError);
}

#[test]
fn jpeg_without_frame_header_is_truncated() {
    let b = vec![0xFF, 0xD8, 0xFF, 0xE0, 0x00, 0x04, 0x00, 0x00];
    assert_eq!(err(&b), SniffError::TruncatedInput);
}

#[test]
fn bmp_top_down_height_is_reported_positive() {
    let m = ok(&bmp(800, -600));
    assert_eq!((m.width, m.height, m.mime_type.as_str()), (800, 600, "image/bmp"));
}

#[test]
fn bmp_bottom_up() {
    let m = ok(&bmp(640, 480));
    assert_eq!((m.width, m.height), (640, 480));
}

#[test]
fn bmp_most_negative_height() {
    let m = ok(&bmp(1, i32::MIN));
    assert_eq!(m.height, 0x8000_0000);
}

#[test]
fn bmp_negative_width_is_parse_error() {
    assert_eq!(err(&bmp(-5, 10)), SniffError::ParseError);
}

#[test]
fn webp_lossy_masks_scale_bits() {
    let m = ok(&webp(b"VP8 ", 0xC000 | 400, 0x4000 | 300));
    assert_eq!((m.width, m.height, m.mime_type.as_str()), (400, 300, "image/webp"));
}

#[test]
fn webp_lossless_is_unsupported() {
    assert_eq!(err(&webp(b"VP8L", 400, 300)), SniffError::UnsupportedFormat);
    assert_eq!(err(&webp(b"VP8X", 400, 300)), SniffError::UnsupportedFormat);
}

#[test]
fn empty_buffer_is_unsupported() {
    assert_eq!(err(&[]), SniffError::UnsupportedFormat);
}

#[test]
fn gif_signature_with_four_trailing_bytes_is_truncated() {
    let b = vec![0x47, 0x49, 0x46, 0x38, 0x39, 0x61, 0x01];
    assert_eq!(err(&b), SniffError::TruncatedInput);
}

#[test]
fn short_buffers_never_succeed() {
    for b in [vec![0x47], vec![0xFF, 0xD8], vec![0x00, 0x00], vec![]] {
        let e = err(&b);
        assert!(e == SniffError::UnsupportedFormat || e == SniffError::TruncatedInput);
    }
}

#[test]
fn unknown_signature_is_unsupported() {
    for b in [vec![0x00, 0x01, 0x02, 0x03], b"%PDF-1.7".to_vec(), vec![0x47, 0x49, 0x47, 0, 0, 0, 0, 0, 0, 0]] {
        assert_eq!(err(&b), SniffError::UnsupportedFormat);
    }
}

#[test]
fn every_prefix_is_same_or_truncated() {
    let samples = vec![
        gif(7, 9),
        png(16, 32),
        jpeg_app0_sof0(320, 240),
        bmp(3, -4),
        webp(b"VP8 ", 5, 6),
    ];
    for full in samples {
        let whole = ok(&full);
        for n in 1..full.len() {
            match sniff(&full[..n]) {
                Ok(m) => {
                    assert_eq!((m.width, m.height), (whole.width, whole.height));
                    assert_eq!(m.mime_type, whole.mime_type);
                }
                Err(e) => assert_eq!(e, SniffError::TruncatedInput),
            }
        }
    }
}

#[test]
fn truncated_fields_are_truncated_input() {
    assert_eq!(err(&png(16, 32)[..20]), SniffError::TruncatedInput);
    assert_eq!(err(&bmp(16, 32)[..24]), SniffError::TruncatedInput);
    assert_eq!(err(&webp(b"VP8 ", 5, 6)[..28]), SniffError::TruncatedInput);
    assert_eq!(err(&jpeg_app0_sof0(320, 240)[..26]), SniffError::TruncatedInput);
}

#[test]
fn sniffing_twice_gives_the_same_result() {
    for b in [png(16, 32), vec![0x47, 0x49], jpeg_app0_sof0(1, 2)] {
        let first = sniff(&b);
        let second = sniff(&b);
        match (first, second) {
            (Ok(x), Ok(y)) => {
                assert_eq!((x.width, x.height, x.mime_type), (y.width, y.height, y.mime_type))
            }
            (Err(x), Err(y)) => assert_eq!(x, y),
            _ => panic!("results differ"),
        }
    }
}

#[test]
fn zero_dimension_is_parse_error() {
    assert_eq!(err(&gif(0, 5)), SniffError::ParseError);
    assert_eq!(err(&png(5, 0)), SniffError::ParseError);
    assert_eq!(err(&webp(b"VP8 ", 0x4000, 5)), SniffError::ParseError);
    assert_eq!(err(&bmp(5, 0)), SniffError::ParseError);
}

#[test]
fn try_from_bytes_and_get_image_meta_agree_with_sniff() {
    let b = png(10, 20);
    let m = ImageMeta::try_from_bytes(&b).unwrap();
    assert_eq!((m.width, m.height), (10, 20));
    let m = get_image_meta(&b).unwrap();
    assert_eq!(m.mime_type, "image/png");
    assert_eq!(ImageMeta::try_from_bytes(&vec![1, 2, 3]).unwrap_err(), SniffError::UnsupportedFormat);
}

#[test]
fn format_mime_types() {
    assert_eq!(ImageFormat::Gif.mime_type(), "image/gif");
    assert_eq!(ImageFormat::Jpeg.mime_type(), "image/jpeg");
    assert_eq!(ImageFormat::Png.mime_type(), "image/png");
    assert_eq!(ImageFormat::Bmp.mime_type(), "image/bmp");
    assert_eq!(ImageFormat::Webp.mime_type(), "image/webp");
}

#[test]
fn cursor_reads_in_both_byte_orders() {
    let b = [0x12, 0x34, 0x56, 0x78, 0x9A, 0xBC, 0xDE, 0xF0, 0x01, 0x02, 0x03, 0x04, 0x05];
    let mut c = ByteCursor::new(&b);
    assert_eq!(c.read_u16_be(), Ok(0x1234));
    assert_eq!(c.read_u16_le(), Ok(0x7856));
    assert_eq!(c.read_u32_be(), Ok(0x9ABC_DEF0));
    assert_eq!(c.read_u32_le(), Ok(0x0403_0201));
    assert_eq!(c.pos(), 12);
    assert_eq!(c.read_u16_le(), Err(SniffError::TruncatedInput));
    assert_eq!(c.pos(), 12);
    assert_eq!(c.read_u8(), Ok(0x05));
    assert_eq!(c.read_u8(), Err(SniffError::TruncatedInput));
}

#[test]
fn cursor_skip_and_read_exact_bounds() {
    let b = [1, 2, 3, 4, 5];
    let mut c = ByteCursor::new(&b);
    assert_eq!(c.skip(6), Err(SniffError::TruncatedInput));
    assert_eq!(c.skip(2), Ok(()));
    assert_eq!(c.read_exact(4), Err(SniffError::TruncatedInput));
    assert_eq!(c.read_exact(3), Ok(&b[2..5]));
    assert_eq!(c.skip(0), Ok(()));
    assert_eq!(c.read_u32_be(), Err(SniffError::TruncatedInput));
}
