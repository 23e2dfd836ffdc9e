//! Width, height and container type of an encoded image, read from its header
//! without decoding any pixel data.
use vstd::prelude::*;

use crate::cursor::{be16, be32, le16, le32, ByteCursor, SniffError};

verus! {

/// The container formats the sniffer recognises.
#[derive(Clone, Copy, Debug, PartialEq, Eq, Structural)]
pub enum ImageFormat {
    Gif,
    Jpeg,
    Png,
    Bmp,
    Webp,
}

/// The MIME type reported for each format.
pub open spec fn mime_of(f: ImageFormat) -> Seq<char> {
    match f {
        ImageFormat::Gif => "image/gif"@,
        ImageFormat::Jpeg => "image/jpeg"@,
        ImageFormat::Png => "image/png"@,
        ImageFormat::Bmp => "image/bmp"@,
        ImageFormat::Webp => "image/webp"@,
    }
}

impl ImageFormat {
    pub fn mime_type(&self) -> (r: &'static str)
        ensures
            r@ == mime_of(*self),
    {
        match self {
            ImageFormat::Gif => "image/gif",
            ImageFormat::Jpeg => "image/jpeg",
            ImageFormat::Png => "image/png",
            ImageFormat::Bmp => "image/bmp",
            ImageFormat::Webp => "image/webp",
        }
    }
}

/// Dimensions and MIME type of a successfully sniffed image.
#[derive(Debug)]
pub struct ImageMeta {
    pub width: u32,
    pub height: u32,
    pub mime_type: String,
}

impl ImageMeta {
    /// What every sniffed result satisfies: both sides are non-zero and the
    /// MIME type is that of one of the supported formats.
    pub open spec fn wf(&self) -> bool {
        &&& self.width > 0
        &&& self.height > 0
        &&& exists|f: ImageFormat| self.mime_type@ == mime_of(f)
    }

    /// The meta carries exactly these dimensions and this format's MIME type.
    pub open spec fn describes(&self, f: ImageFormat, width: int, height: int) -> bool {
        &&& self.width == width
        &&& self.height == height
        &&& self.mime_type@ == mime_of(f)
    }

    /// Sniffs `bytes`; see [`sniff`].
    pub fn try_from_bytes(bytes: &Vec<u8>) -> (r: Result<Self, SniffError>)
        ensures
            sniff_agrees(r, bytes@),
    {
        sniff(bytes.as_slice())
    }
}

/// The format whose signature opens a buffer starting `b0 b1 b2`.
pub open spec fn format_of(b0: u8, b1: u8, b2: u8) -> Option<ImageFormat> {
    if b0 == 0x47 && b1 == 0x49 && b2 == 0x46 {
        Some(ImageFormat::Gif)
    } else if b0 == 0xFF && b1 == 0xD8 {
        Some(ImageFormat::Jpeg)
    } else if b0 == 0x89 && b1 == 0x50 && b2 == 0x4E {
        Some(ImageFormat::Png)
    } else if b0 == 0x42 && b1 == 0x4D {
        Some(ImageFormat::Bmp)
    } else if b0 == 0x52 && b1 == 0x49 && b2 == 0x46 {
        Some(ImageFormat::Webp)
    } else {
        None
    }
}

/// A 32-bit two's-complement reading of an unsigned 32-bit value.
pub open spec fn signed32(v: int) -> int {
    if v >= 0x8000_0000 {
        v - 0x1_0000_0000
    } else {
        v
    }
}

pub open spec fn abs(v: int) -> int {
    if v < 0 {
        -v
    } else {
        v
    }
}

/// The SOF markers that carry the frame size this decoder reports: baseline,
/// extended sequential and progressive.
pub open spec fn is_sof(marker: u8) -> bool {
    marker == 0xC0 || marker == 0xC1 || marker == 0xC2
}

/// GIF: the logical screen width and height, little-endian, right after the
/// six-byte header.
pub open spec fn gif_fields(b: Seq<u8>) -> Result<(int, int), SniffError> {
    if b.len() < 10 {
        Err(SniffError::TruncatedInput)
    } else {
        Ok((le16(b, 6), le16(b, 8)))
    }
}

/// JPEG: the segments from offset `pos` on, each `FF`, a marker byte and a
/// big-endian length that counts itself, walked until the first SOF.
pub open spec fn jpeg_segments(b: Seq<u8>, pos: int) -> Result<(int, int), SniffError>
    decreases b.len() - pos,
{
    if pos < 0 || pos >= b.len() {
        Err(SniffError::TruncatedInput)
    } else if b[pos] != 0xFF {
        Err(SniffError::ParseError)
    } else if pos + 4 > b.len() {
        Err(SniffError::TruncatedInput)
    } else if is_sof(b[pos + 1]) {
        if pos + 9 > b.len() {
            Err(SniffError::TruncatedInput)
        } else {
            Ok((be16(b, pos + 7), be16(b, pos + 5)))
        }
    } else if be16(b, pos + 2) < 2 {
        Err(SniffError::ParseError)
    } else if pos + 2 + be16(b, pos + 2) > b.len() {
        Err(SniffError::TruncatedInput)
    } else {
        jpeg_segments(b, pos + 2 + be16(b, pos + 2))
    }
}

/// JPEG: the segments that follow the two-byte start-of-image marker.
pub open spec fn jpeg_fields(b: Seq<u8>) -> Result<(int, int), SniffError> {
    jpeg_segments(b, 2)
}

/// The chunk type `IHDR`.
pub open spec fn ihdr() -> Seq<u8> {
    seq![0x49u8, 0x48u8, 0x44u8, 0x52u8]
}

/// The chunk header `VP8 ` of a lossy WEBP bitstream.
pub open spec fn vp8() -> Seq<u8> {
    seq![0x56u8, 0x50u8, 0x38u8, 0x20u8]
}

/// PNG: the first chunk must be IHDR; its data opens with big-endian width
/// and height.
pub open spec fn png_fields(b: Seq<u8>) -> Result<(int, int), SniffError> {
    if b.len() < 16 {
        Err(SniffError::TruncatedInput)
    } else if b.subrange(12, 16) != ihdr() {
        Err(SniffError::ParseError)
    } else if b.len() < 24 {
        Err(SniffError::TruncatedInput)
    } else {
        Ok((be32(b, 16), be32(b, 20)))
    }
}

/// BMP: signed little-endian width and height at offset 18; a negative height
/// marks top-down rows and is reported by its magnitude, a negative width is
/// malformed.
pub open spec fn bmp_fields(b: Seq<u8>) -> Result<(int, int), SniffError> {
    if b.len() < 26 {
        Err(SniffError::TruncatedInput)
    } else if signed32(le32(b, 18)) < 0 {
        Err(SniffError::ParseError)
    } else {
        Ok((signed32(le32(b, 18)), abs(signed32(le32(b, 22)))))
    }
}

/// WEBP: only the lossy `VP8 ` chunk is supported; width and height are the
/// low 14 bits of the two little-endian words after the start code.
pub open spec fn webp_fields(b: Seq<u8>) -> Result<(int, int), SniffError> {
    if b.len() < 16 {
        Err(SniffError::TruncatedInput)
    } else if b.subrange(12, 16) != vp8() {
        Err(SniffError::UnsupportedFormat)
    } else if b.len() < 30 {
        Err(SniffError::TruncatedInput)
    } else {
        Ok((le16(b, 26) % 0x4000, le16(b, 28) % 0x4000))
    }
}

/// The (width, height) fields of a buffer known to be of format `f`.
pub open spec fn fields_of(f: ImageFormat, b: Seq<u8>) -> Result<(int, int), SniffError> {
    match f {
        ImageFormat::Gif => gif_fields(b),
        ImageFormat::Jpeg => jpeg_fields(b),
        ImageFormat::Png => png_fields(b),
        ImageFormat::Bmp => bmp_fields(b),
        ImageFormat::Webp => webp_fields(b),
    }
}

/// What sniffing `b` yields: its format, width and height, or the error.
/// An empty buffer holds no image at all; one of one or two bytes is cut
/// short of any signature. A zero side is a malformed header.
pub open spec fn sniff_outcome(b: Seq<u8>) -> Result<(ImageFormat, int, int), SniffError> {
    if b.len() == 0 {
        Err(SniffError::UnsupportedFormat)
    } else if b.len() < 3 {
        Err(SniffError::TruncatedInput)
    } else {
        match format_of(b[0], b[1], b[2]) {
            None => Err(SniffError::UnsupportedFormat),
            Some(f) => match fields_of(f, b) {
                Err(e) => Err(e),
                Ok((w, h)) => if w == 0 || h == 0 {
                    Err(SniffError::ParseError)
                } else {
                    Ok((f, w, h))
                },
            },
        }
    }
}

/// `r` is what sniffing `b` is specified to give.
pub open spec fn sniff_agrees(r: Result<ImageMeta, SniffError>, b: Seq<u8>) -> bool {
    match sniff_outcome(b) {
        Ok((f, w, h)) => r is Ok && r->Ok_0.describes(f, w, h),
        Err(e) => r is Err && r->Err_0 == e,
    }
}

/// A decoder's exec result is its spec result.
pub open spec fn dims_agree(r: Result<(u32, u32), SniffError>, s: Result<(int, int), SniffError>) -> bool {
    match r {
        Ok((w, h)) => s == Ok::<(int, int), SniffError>((w as int, h as int)),
        Err(e) => s == Err::<(int, int), SniffError>(e),
    }
}

fn detect_format(b0: u8, b1: u8, b2: u8) -> (r: Option<ImageFormat>)
    ensures
        r == format_of(b0, b1, b2),
{
    if b0 == 0x47 && b1 == 0x49 && b2 == 0x46 {
        Some(ImageFormat::Gif)
    } else if b0 == 0xFF && b1 == 0xD8 {
        Some(ImageFormat::Jpeg)
    } else if b0 == 0x89 && b1 == 0x50 && b2 == 0x4E {
        Some(ImageFormat::Png)
    } else if b0 == 0x42 && b1 == 0x4D {
        Some(ImageFormat::Bmp)
    } else if b0 == 0x52 && b1 == 0x49 && b2 == 0x46 {
        Some(ImageFormat::Webp)
    } else {
        None
    }
}

fn gif_dims(c: &mut ByteCursor) -> (r: Result<(u32, u32), SniffError>)
    requires
        old(c).wf(),
        old(c).position() == 3,
    ensures
        dims_agree(r, gif_fields(old(c).data())),
{
    c.skip(3)?;
    let width = c.read_u16_le()?;
    let height = c.read_u16_le()?;
    Ok((width as u32, height as u32))
}

fn jpeg_dims(c: &mut ByteCursor, lead: u8) -> (r: Result<(u32, u32), SniffError>)
    requires
        old(c).wf(),
        old(c).position() == 3,
        old(c).data().len() >= 3,
        old(c).data()[2] == lead,
    ensures
        dims_agree(r, jpeg_fields(old(c).data())),
{
    let ghost d = c.data();
    // `lead` is the byte that should open the segment starting at `pos() - 1`.
    let mut lead = lead;
    loop
        invariant
            c.wf(),
            c.data() == d,
            d == old(c).data(),
            3 <= c.position() <= d.len(),
            lead == d[c.position() - 1],
            jpeg_segments(d, c.position() - 1) == jpeg_fields(d),
        decreases d.len() - c.position(),
    {
        let ghost p = c.position() - 1;
        if lead != 0xFF {
            return Err(SniffError::ParseError);
        }
        let marker = c.read_u8()?;
        let len = c.read_u16_be()?;
        if marker == 0xC0 || marker == 0xC1 || marker == 0xC2 {
            c.skip(1)?;
            let height = c.read_u16_be()?;
            let width = c.read_u16_be()?;
            return Ok((width as u32, height as u32));
        }
        if len < 2 {
            return Err(SniffError::ParseError);
        }
        c.skip((len - 2) as usize)?;
        assert(jpeg_segments(d, p) == jpeg_segments(d, c.position()));
        lead = c.read_u8()?;
    }
}

fn png_dims(c: &mut ByteCursor) -> (r: Result<(u32, u32), SniffError>)
    requires
        old(c).wf(),
        old(c).position() == 3,
    ensures
        dims_agree(r, png_fields(old(c).data())),
{
    let ghost d = c.data();
    // rest of the signature, then the chunk length
    c.skip(9)?;
    let tag = c.read_exact(4)?;
    if !(tag[0] == 0x49 && tag[1] == 0x48 && tag[2] == 0x44 && tag[3] == 0x52) {
        proof {
            assert(d.subrange(12, 16) != ihdr()) by {
                if d.subrange(12, 16) == ihdr() {
                    assert(tag@[0] == ihdr()[0]);
                    assert(tag@[1] == ihdr()[1]);
                    assert(tag@[2] == ihdr()[2]);
                    assert(tag@[3] == ihdr()[3]);
                }
            }
        }
        return Err(SniffError::ParseError);
    }
    assert(d.subrange(12, 16) =~= ihdr());
    let width = c.read_u32_be()?;
    let height = c.read_u32_be()?;
    Ok((width, height))
}

fn bmp_dims(c: &mut ByteCursor) -> (r: Result<(u32, u32), SniffError>)
    requires
        old(c).wf(),
        old(c).position() == 3,
    ensures
        dims_agree(r, bmp_fields(old(c).data())),
{
    // file header, then the DIB header's own size
    c.skip(15)?;
    let width = c.read_u32_le()?;
    let height = c.read_u32_le()?;
    if width >= 0x8000_0000 {
        return Err(SniffError::ParseError);
    }
    let height = if height >= 0x8000_0000 {
        (0xFFFF_FFFF - height) + 1
    } else {
        height
    };
    Ok((width, height))
}

fn webp_dims(c: &mut ByteCursor) -> (r: Result<(u32, u32), SniffError>)
    requires
        old(c).wf(),
        old(c).position() == 3,
    ensures
        dims_agree(r, webp_fields(old(c).data())),
{
    let ghost d = c.data();
    // rest of `RIFF`, the RIFF size and `WEBP`
    c.skip(9)?;
    let tag = c.read_exact(4)?;
    if !(tag[0] == 0x56 && tag[1] == 0x50 && tag[2] == 0x38 && tag[3] == 0x20) {
        proof {
            assert(d.subrange(12, 16) != vp8()) by {
                if d.subrange(12, 16) == vp8() {
                    assert(tag@[0] == vp8()[0]);
                    assert(tag@[1] == vp8()[1]);
                    assert(tag@[2] == vp8()[2]);
                    assert(tag@[3] == vp8()[3]);
                }
            }
        }
        return Err(SniffError::UnsupportedFormat);
    }
    assert(d.subrange(12, 16) =~= vp8());
    // chunk size, frame tag and start code
    c.skip(10)?;
    let width = c.read_u16_le()?;
    let height = c.read_u16_le()?;
    Ok(((width % 0x4000) as u32, (height % 0x4000) as u32))
}

/// Reads the dimensions and MIME type from the header of an encoded image.
///
/// The first three bytes pick the format; its decoder then reads the
/// width and height fields. The result is `Ok` exactly when the buffer holds
/// a supported header with both sides non-zero, and the error otherwise says
/// whether the buffer was cut short, unrecognised or malformed.
pub fn sniff(bytes: &[u8]) -> (r: Result<ImageMeta, SniffError>)
    ensures
        sniff_agrees(r, bytes@),
        r is Ok ==> r->Ok_0.wf(),
{
    if bytes.len() == 0 {
        return Err(SniffError::UnsupportedFormat);
    }
    let mut c = ByteCursor::new(bytes);
    let prefix = c.read_exact(3)?;
    let format = match detect_format(prefix[0], prefix[1], prefix[2]) {
        Some(f) => f,
        None => return Err(SniffError::UnsupportedFormat),
    };
    let (width, height) = match format {
        ImageFormat::Gif => gif_dims(&mut c)?,
        ImageFormat::Jpeg => jpeg_dims(&mut c, prefix[2])?,
        ImageFormat::Png => png_dims(&mut c)?,
        ImageFormat::Bmp => bmp_dims(&mut c)?,
        ImageFormat::Webp => webp_dims(&mut c)?,
    };
    if width == 0 || height == 0 {
        return Err(SniffError::ParseError);
    }
    Ok(ImageMeta { width, height, mime_type: format.mime_type().to_owned() })
}

/// Sniffs the image held in `bytes`; see [`sniff`].
pub fn get_image_meta(bytes: &Vec<u8>) -> (r: Result<ImageMeta, SniffError>)
    ensures
        sniff_agrees(r, bytes@),
{
    sniff(bytes.as_slice())
}

} // verus!
