//! The layout of an XYZ file, and reading and writing it.
//!
//! A file is an eight-byte header (magic number, width, height, each
//! little-endian) followed by one zlib stream. Inflated, the stream holds the
//! 256 palette entries, three bytes each, and then one byte per pixel.

use crate::bytes::{
    read_u16_le, read_u32_le, u16_from_le, u16_to_le, u32_from_le, u32_to_le, write_u16_le,
    write_u32_le,
};
use crate::error::{fails_with, outcome, Error, ErrorKind};
use crate::image::{Color, Image, ImageView, PALETTE_LEN};
use crate::zlib::{zlib_deflated, zlib_inflated};
use vstd::prelude::*;

verus! {

/// The number that opens every XYZ file: the letters "XYZ1" read as a
/// little-endian integer.
pub const MAGIC_NUMBER: u32 = 0x315a5958;

/// Length of the header: magic number, width, height.
pub const HEADER_LEN: usize = 8;

/// Length of the palette inside the inflated stream.
pub const PALETTE_BYTES: usize = 768;

/// The header of an image of the given dimensions.
pub open spec fn header_bytes(width: u16, height: u16) -> Seq<u8> {
    u32_to_le(MAGIC_NUMBER) + u16_to_le(width) + u16_to_le(height)
}

/// The palette as it stands in the stream: entry after entry, each as red,
/// green, blue.
pub open spec fn palette_bytes(palette: Seq<Color>) -> Seq<u8> {
    Seq::new(3 * palette.len(), |k: int| palette[k / 3][k % 3])
}

/// What is deflated to make the file's stream: the palette, then the pixels.
pub open spec fn payload_bytes(image: ImageView) -> Seq<u8> {
    palette_bytes(image.palette) + image.buffer
}

/// The colour whose three bytes stand at `at` in `bytes`.
pub open spec fn color_at(bytes: Seq<u8>, at: int) -> Color {
    [bytes[at], bytes[at + 1], bytes[at + 2]]
}

/// The dimensions that the header at the start of `input` gives, or why it is
/// no header. The magic number is judged as soon as its four bytes are there.
pub open spec fn parsed_header(input: Seq<u8>) -> Result<(u16, u16), ErrorKind> {
    if input.len() < 4 {
        Err(ErrorKind::UnexpectedEndOfInput)
    } else if u32_from_le(input) != MAGIC_NUMBER {
        Err(ErrorKind::InvalidFormat)
    } else if input.len() < HEADER_LEN {
        Err(ErrorKind::UnexpectedEndOfInput)
    } else {
        Ok((u16_from_le(input.subrange(4, 6)), u16_from_le(input.subrange(6, 8))))
    }
}

/// The image that the inflated stream `body` holds for the given dimensions,
/// or why it holds none: it must be the palette and the pixels, no byte less
/// and no byte more.
pub open spec fn parsed_payload(width: u16, height: u16, body: Seq<u8>) -> Result<
    ImageView,
    ErrorKind,
> {
    let end = PALETTE_BYTES + width * height;
    if body.len() < end {
        Err(ErrorKind::UnexpectedEndOfInput)
    } else if body.len() > end {
        Err(ErrorKind::TrailingData)
    } else {
        Ok(
            ImageView {
                width,
                height,
                palette: Seq::new(PALETTE_LEN as nat, |i: int| color_at(body, 3 * i)),
                buffer: body.subrange(PALETTE_BYTES as int, end),
            },
        )
    }
}

/// The image that the file `input` holds, or why it holds none.
pub open spec fn decoded(input: Seq<u8>) -> Result<ImageView, ErrorKind> {
    match parsed_header(input) {
        Err(kind) => Err(kind),
        Ok((width, height)) => match zlib_inflated(input.skip(HEADER_LEN as int)) {
            None => Err(ErrorKind::DecompressionError),
            Some(body) => parsed_payload(width, height, body),
        },
    }
}

/// The file that holds `image`, or `None` where the encoder fails.
pub open spec fn encoded(image: ImageView) -> Option<Seq<u8>> {
    match zlib_deflated(payload_bytes(image)) {
        None => None,
        Some(stream) => Some(header_bytes(image.width, image.height) + stream),
    }
}

/// Reads the header that opens `input`: checks the magic number and gives
/// the width and the height.
pub fn read_header(input: &[u8]) -> (r: Result<(u16, u16), Error>)
    ensures
        outcome(r) == parsed_header(input@),
        input@.len() < 4 ==> fails_with(r, ErrorKind::UnexpectedEndOfInput),
        input@.len() >= 4 && u32_from_le(input@) != MAGIC_NUMBER ==> fails_with(
            r,
            ErrorKind::InvalidFormat,
        ),
{
    if input.len() < 4 {
        return Err(Error::UnexpectedEndOfInput);
    }
    let magic = read_u32_le(input);
    if magic != MAGIC_NUMBER {
        return Err(Error::InvalidFormat);
    }
    if input.len() < HEADER_LEN {
        return Err(Error::UnexpectedEndOfInput);
    }
    let width = read_u16_le(&input[4..6]);
    let height = read_u16_le(&input[6..8]);
    Ok((width, height))
}

/// Reads the palette and the pixels of a `width` by `height` image from the
/// inflated stream `body`.
pub fn read_payload(width: u16, height: u16, body: &[u8]) -> (r: Result<Image, Error>)
    ensures
        outcome(r) == parsed_payload(width, height, body@),
        body@.len() < PALETTE_BYTES + width * height ==> fails_with(
            r,
            ErrorKind::UnexpectedEndOfInput,
        ),
        body@.len() > PALETTE_BYTES + width * height ==> fails_with(r, ErrorKind::TrailingData),
        body@.len() == PALETTE_BYTES + width * height ==> r is Ok,
        r matches Ok(image) ==> image@.wf(),
{
    assert(width * height <= 0xffff * 0xffff) by (nonlinear_arith)
        requires
            width <= 0xffff,
            height <= 0xffff,
    ;
    let pixels: usize = (width as usize) * (height as usize);
    let end: usize = PALETTE_BYTES + pixels;
    if body.len() < end {
        return Err(Error::UnexpectedEndOfInput);
    }
    if body.len() > end {
        return Err(Error::TrailingData);
    }
    let mut palette: [Color; 256] = [[0u8; 3]; 256];
    let mut i: usize = 0;
    while i < PALETTE_LEN
        invariant
            i <= PALETTE_LEN,
            body@.len() >= PALETTE_BYTES,
            forall|j: int| 0 <= j < i ==> palette@[j] == color_at(body@, 3 * j),
        decreases PALETTE_LEN - i,
    {
        palette[i] = [body[3 * i], body[3 * i + 1], body[3 * i + 2]];
        i += 1;
    }
    let mut buffer: Vec<u8> = Vec::new();
    buffer.extend_from_slice(&body[PALETTE_BYTES..end]);
    let image = Image { width, height, palette, buffer };
    proof {
        let want = parsed_payload(width, height, body@)->Ok_0;
        assert(image@.palette =~= want.palette);
        assert(image@.buffer =~= want.buffer);
    }
    Ok(image)
}

/// Appends the header of a `width` by `height` image to `writer`.
pub fn write_header(width: u16, height: u16, writer: &mut Vec<u8>)
    ensures
        final(writer)@ == old(writer)@ + header_bytes(width, height),
{
    let magic = write_u32_le(MAGIC_NUMBER);
    writer.extend_from_slice(magic.as_slice());
    let w = write_u16_le(width);
    writer.extend_from_slice(w.as_slice());
    let h = write_u16_le(height);
    writer.extend_from_slice(h.as_slice());
}

/// Appends to `writer` what the file's stream holds before it is deflated:
/// the palette, entry by entry, and then the pixels.
pub fn write_payload(image: &Image, writer: &mut Vec<u8>)
    ensures
        final(writer)@ == old(writer)@ + payload_bytes(image@),
{
    let ghost before = writer@;
    let mut i: usize = 0;
    while i < PALETTE_LEN
        invariant
            i <= PALETTE_LEN,
            writer@ == before + palette_bytes(image@.palette).subrange(0, 3 * i),
        decreases PALETTE_LEN - i,
    {
        let color = image.palette[i];
        writer.push(color[0]);
        writer.push(color[1]);
        writer.push(color[2]);
        i += 1;
    }
    writer.extend_from_slice(image.buffer.as_slice());
}

} // verus!
