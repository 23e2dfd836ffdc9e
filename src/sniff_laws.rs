//! Properties of the sniffer that relate several buffers or several calls.
use vstd::prelude::*;

use crate::cursor::{be16, be32, le16, le32, SniffError};
use crate::image::{
    abs, bmp_fields, fields_of, format_of, ihdr, is_sof, jpeg_segments, signed32, sniff_agrees,
    sniff_outcome, vp8, ImageFormat,
};

verus! {

/// A buffer too short to hold a signature is reported as unsupported or as
/// truncated, never as an image.
pub proof fn lemma_short_buffer_fails(b: Seq<u8>)
    requires
        b.len() < 3,
    ensures
        sniff_outcome(b) == Err::<(ImageFormat, int, int), SniffError>(SniffError::UnsupportedFormat)
            || sniff_outcome(b) == Err::<(ImageFormat, int, int), SniffError>(
            SniffError::TruncatedInput,
        ),
{
}

/// A buffer whose first three bytes open none of the known signatures is
/// unsupported.
pub proof fn lemma_unknown_signature_unsupported(b: Seq<u8>)
    requires
        b.len() >= 3,
        format_of(b[0], b[1], b[2]) is None,
    ensures
        sniff_outcome(b) == Err::<(ImageFormat, int, int), SniffError>(SniffError::UnsupportedFormat),
{
}

/// A GIF87a or GIF89a header with a non-zero logical screen decodes to that
/// screen's width and height.
pub proof fn lemma_gif_sample(b: Seq<u8>)
    requires
        b.len() >= 10,
        b.subrange(0, 6) == seq![0x47u8, 0x49, 0x46, 0x38, 0x37, 0x61] || b.subrange(0, 6)
            == seq![0x47u8, 0x49, 0x46, 0x38, 0x39, 0x61],
        le16(b, 6) > 0,
        le16(b, 8) > 0,
    ensures
        sniff_outcome(b) == Ok::<(ImageFormat, int, int), SniffError>(
            (ImageFormat::Gif, le16(b, 6), le16(b, 8)),
        ),
{
    assert(b[0] == b.subrange(0, 6)[0] && b[1] == b.subrange(0, 6)[1] && b[2] == b.subrange(0, 6)[2]);
}

/// A PNG whose signature is followed by an IHDR chunk with non-zero sides
/// decodes to the IHDR width and height.
pub proof fn lemma_png_sample(b: Seq<u8>)
    requires
        b.len() >= 24,
        b.subrange(0, 8) == seq![0x89u8, 0x50, 0x4E, 0x47, 0x0D, 0x0A, 0x1A, 0x0A],
        b.subrange(12, 16) == ihdr(),
        be32(b, 16) > 0,
        be32(b, 20) > 0,
    ensures
        sniff_outcome(b) == Ok::<(ImageFormat, int, int), SniffError>(
            (ImageFormat::Png, be32(b, 16), be32(b, 20)),
        ),
{
    assert(b[0] == b.subrange(0, 8)[0] && b[1] == b.subrange(0, 8)[1] && b[2] == b.subrange(0, 8)[2]);
}

/// A BMP with a positive DIB width and a non-zero DIB height decodes to that
/// width and the height's magnitude.
pub proof fn lemma_bmp_sample(b: Seq<u8>)
    requires
        b.len() >= 26,
        b[0] == 0x42,
        b[1] == 0x4D,
        signed32(le32(b, 18)) > 0,
        signed32(le32(b, 22)) != 0,
    ensures
        sniff_outcome(b) == Ok::<(ImageFormat, int, int), SniffError>(
            (ImageFormat::Bmp, le32(b, 18), abs(signed32(le32(b, 22)))),
        ),
{
}

/// A lossy WEBP (`RIFF`, size, `WEBP`, a `VP8 ` chunk) with non-zero sides
/// decodes to the 14-bit width and height of its frame header.
pub proof fn lemma_webp_sample(b: Seq<u8>)
    requires
        b.len() >= 30,
        b.subrange(0, 4) == seq![0x52u8, 0x49, 0x46, 0x46],
        b.subrange(8, 12) == seq![0x57u8, 0x45, 0x42, 0x50],
        b.subrange(12, 16) == vp8(),
        le16(b, 26) % 0x4000 > 0,
        le16(b, 28) % 0x4000 > 0,
    ensures
        sniff_outcome(b) == Ok::<(ImageFormat, int, int), SniffError>(
            (ImageFormat::Webp, le16(b, 26) % 0x4000, le16(b, 28) % 0x4000),
        ),
{
    assert(b[0] == b.subrange(0, 4)[0] && b[1] == b.subrange(0, 4)[1] && b[2] == b.subrange(0, 4)[2]);
}

proof fn lemma_jpeg_prefix(b: Seq<u8>, p: Seq<u8>, pos: int)
    requires
        p == b.subrange(0, p.len() as int),
        p.len() <= b.len(),
        jpeg_segments(b, pos) is Ok,
    ensures
        jpeg_segments(p, pos) == jpeg_segments(b, pos) || jpeg_segments(p, pos) == Err::<
            (int, int),
            SniffError,
        >(SniffError::TruncatedInput),
    decreases b.len() - pos,
{
    if 0 <= pos && pos + 9 <= p.len() {
        assert(p[pos] == b[pos]);
        assert(p[pos + 1] == b[pos + 1]);
        assert(p[pos + 2] == b[pos + 2]);
        assert(p[pos + 3] == b[pos + 3]);
        assert(p[pos + 5] == b[pos + 5]);
        assert(p[pos + 6] == b[pos + 6]);
        assert(p[pos + 7] == b[pos + 7]);
        assert(p[pos + 8] == b[pos + 8]);
    } else if 0 <= pos && pos + 4 <= p.len() {
        assert(p[pos] == b[pos]);
        assert(p[pos + 1] == b[pos + 1]);
        assert(p[pos + 2] == b[pos + 2]);
        assert(p[pos + 3] == b[pos + 3]);
    } else if 0 <= pos && pos < p.len() {
        assert(p[pos] == b[pos]);
    }
    if 0 <= pos && pos + 4 <= p.len() && b[pos] == 0xFF && !is_sof(b[pos + 1])
        && be16(b, pos + 2) >= 2 && pos + 2 + be16(b, pos + 2) <= b.len() {
        lemma_jpeg_prefix(b, p, pos + 2 + be16(b, pos + 2));
    }
}

/// Cutting a successfully sniffed buffer short never yields a different or
/// partial result: each non-empty prefix gives the same outcome or
/// `TruncatedInput`.
pub proof fn lemma_prefix_same_or_truncated(b: Seq<u8>, n: int)
    requires
        sniff_outcome(b) is Ok,
        0 < n <= b.len(),
    ensures
        sniff_outcome(b.subrange(0, n)) == sniff_outcome(b) || sniff_outcome(b.subrange(0, n))
            == Err::<(ImageFormat, int, int), SniffError>(SniffError::TruncatedInput),
{
    let p = b.subrange(0, n);
    if n >= 3 {
        assert(p[0] == b[0] && p[1] == b[1] && p[2] == b[2]);
        let f = format_of(b[0], b[1], b[2])->Some_0;
        match f {
            ImageFormat::Gif => {
                if n >= 10 {
                    assert(p[6] == b[6] && p[7] == b[7] && p[8] == b[8] && p[9] == b[9]);
                }
            },
            ImageFormat::Jpeg => {
                lemma_jpeg_prefix(b, p, 2);
            },
            ImageFormat::Png => {
                if n >= 16 {
                    assert(p.subrange(12, 16) =~= b.subrange(12, 16));
                }
                if n >= 24 {
                    assert(p.subrange(16, 24) =~= b.subrange(16, 24));
                    assert(p[16] == b[16] && p[17] == b[17] && p[18] == b[18] && p[19] == b[19]);
                    assert(p[20] == b[20] && p[21] == b[21] && p[22] == b[22] && p[23] == b[23]);
                }
            },
            ImageFormat::Bmp => {
                if n >= 26 {
                    assert(p[18] == b[18] && p[19] == b[19] && p[20] == b[20] && p[21] == b[21]);
                    assert(p[22] == b[22] && p[23] == b[23] && p[24] == b[24] && p[25] == b[25]);
                }
            },
            ImageFormat::Webp => {
                if n >= 16 {
                    assert(p.subrange(12, 16) =~= b.subrange(12, 16));
                }
                if n >= 30 {
                    assert(p[26] == b[26] && p[27] == b[27] && p[28] == b[28] && p[29] == b[29]);
                }
            },
        }
        assert(fields_of(f, p) == fields_of(f, b) || fields_of(f, p) == Err::<(int, int), SniffError>(
            SniffError::TruncatedInput,
        ));
    }
}

/// Sniffing is a function of the bytes alone: any two results that meet the
/// contract of `sniff` for the same buffer carry the same dimensions and MIME
/// type, or the same error.
pub proof fn lemma_sniff_deterministic(
    b: Seq<u8>,
    r1: Result<crate::image::ImageMeta, SniffError>,
    r2: Result<crate::image::ImageMeta, SniffError>,
)
    requires
        sniff_agrees(r1, b),
        sniff_agrees(r2, b),
    ensures
        r1 is Ok <==> r2 is Ok,
        r1 is Ok ==> {
            &&& r1->Ok_0.width == r2->Ok_0.width
            &&& r1->Ok_0.height == r2->Ok_0.height
            &&& r1->Ok_0.mime_type@ == r2->Ok_0.mime_type@
        },
        r1 is Err ==> r1 == r2,
{
}

/// In a JPEG whose first segment is anything but a frame header (an APP0
/// block, say) and whose second is an SOF0 frame header, the dimensions come
/// from the SOF0 segment.
pub proof fn lemma_jpeg_sof_after_app_segment(b: Seq<u8>)
    requires
        b.len() >= 6,
        b[0] == 0xFF,
        b[1] == 0xD8,
        b[2] == 0xFF,
        !is_sof(b[3]),
        be16(b, 4) >= 2,
        b.len() >= 4 + be16(b, 4) + 9,
        b[4 + be16(b, 4)] == 0xFF,
        b[4 + be16(b, 4) + 1] == 0xC0,
        be16(b, 4 + be16(b, 4) + 7) > 0,
        be16(b, 4 + be16(b, 4) + 5) > 0,
    ensures
        sniff_outcome(b) == Ok::<(ImageFormat, int, int), SniffError>(
            (ImageFormat::Jpeg, be16(b, 4 + be16(b, 4) + 7), be16(b, 4 + be16(b, 4) + 5)),
        ),
{
    let q = 4 + be16(b, 4);
    assert(jpeg_segments(b, 2) == jpeg_segments(b, q));
    assert(jpeg_segments(b, q) == Ok::<(int, int), SniffError>((be16(b, q + 7), be16(b, q + 5))));
}

/// A BMP whose DIB height field holds -600 (a top-down bitmap) is reported
/// 600 pixels high.
pub proof fn lemma_bmp_negative_height(b: Seq<u8>)
    requires
        b.len() >= 26,
        b[0] == 0x42,
        b[1] == 0x4D,
        signed32(le32(b, 22)) == -600,
        signed32(le32(b, 18)) > 0,
    ensures
        sniff_outcome(b) == Ok::<(ImageFormat, int, int), SniffError>(
            (ImageFormat::Bmp, le32(b, 18), 600),
        ),
{
    assert(bmp_fields(b) == Ok::<(int, int), SniffError>((le32(b, 18), 600)));
}

/// Where the width and height fields of a fixed-layout header end; JPEG has
/// no fixed layout.
pub open spec fn fixed_fields_end(f: ImageFormat) -> int {
    match f {
        ImageFormat::Gif => 10,
        ImageFormat::Png => 24,
        ImageFormat::Bmp => 26,
        ImageFormat::Webp => 30,
        ImageFormat::Jpeg => 0,
    }
}

/// A GIF, PNG, BMP or WEBP header cut anywhere before the end of its width
/// and height fields is reported as truncated.
pub proof fn lemma_missing_fields_truncated(b: Seq<u8>, n: int)
    requires
        sniff_outcome(b) is Ok,
        0 < n < fixed_fields_end(sniff_outcome(b)->Ok_0.0),
    ensures
        sniff_outcome(b.subrange(0, n)) == Err::<(ImageFormat, int, int), SniffError>(
            SniffError::TruncatedInput,
        ),
{
    let p = b.subrange(0, n);
    if n >= 3 {
        assert(p[0] == b[0] && p[1] == b[1] && p[2] == b[2]);
        if n >= 16 {
            assert(p.subrange(12, 16) =~= b.subrange(12, 16));
        }
    }
}

} // verus!
