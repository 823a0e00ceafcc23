//! Codec for XYZ images: palette-indexed rasters stored as an eight-byte
//! header followed by one zlib stream that holds a 256-colour palette and
//! one palette index per pixel.
//!
//! [`read`] turns the bytes of a file into an [`Image`], [`write`] appends
//! the bytes of an image's file to a vector, and
//! [`Image::to_rgb_buffer`] expands the pixels to interleaved RGB.

pub mod bytes;
pub mod error;
pub mod format;
pub mod image;
pub mod laws;
pub mod zlib;

pub use crate::error::{Error, ErrorKind};
pub use crate::image::{Color, Image, ImageView};

use crate::bytes::u32_from_le;
use crate::error::{fails_with, outcome};
use crate::format::{
    decoded, encoded, header_bytes, read_header, read_payload, write_header, write_payload,
    HEADER_LEN, MAGIC_NUMBER,
};
use crate::laws::lemma_round_trip;
use crate::zlib::{deflate, inflate};
use vstd::prelude::*;

verus! {

/// Reads an XYZ image from the bytes of a file.
///
/// The header is read first, then all that follows it is inflated, and the
/// inflated bytes must be exactly the palette and one index per pixel. The
/// call fails with
/// - `UnexpectedEndOfInput` where the input ends inside the header, or the
///   inflated bytes end before the palette and the pixels are complete;
/// - `InvalidFormat` where the first four bytes are not the magic number;
/// - `DecompressionError` where the decoder refuses what follows the header;
/// - `TrailingData` where the inflated bytes go on behind the last pixel.
pub fn read(input: &[u8]) -> (r: Result<Image, Error>)
    ensures
        outcome(r) == decoded(input@),
        input@.len() < 4 ==> fails_with(r, ErrorKind::UnexpectedEndOfInput),
        input@.len() >= 4 && u32_from_le(input@) != MAGIC_NUMBER ==> fails_with(
            r,
            ErrorKind::InvalidFormat,
        ),
        r matches Ok(image) ==> image@.wf(),
{
    let (width, height) = match read_header(input) {
        Ok(dimensions) => dimensions,
        Err(e) => {
            return Err(e);
        },
    };
    let body = match inflate(&input[HEADER_LEN..input.len()]) {
        Ok(body) => body,
        Err(e) => {
            return Err(Error::DecompressionError(e));
        },
    };
    read_payload(width, height, body.as_slice())
}

/// Writes an XYZ image: appends the bytes of its file to `writer`.
///
/// The header goes first, then the palette and the buffer as one zlib stream,
/// deflated at the default level. The buffer is written as it stands; where
/// it holds one index per pixel, [`read`] gives the image back from the bytes
/// that were appended. Where the encoder reports a failure, the call fails
/// with `Io` and only the header has been appended.
pub fn write(image: &Image, writer: &mut Vec<u8>) -> (r: Result<(), Error>)
    ensures
        match encoded(image@) {
            Some(file) => r is Ok && final(writer)@ == old(writer)@ + file,
            None => fails_with(r, ErrorKind::Io) && final(writer)@ == old(writer)@ + header_bytes(
                image@.width,
                image@.height,
            ),
        },
        r is Ok && image@.wf() ==> decoded(final(writer)@.skip(old(writer)@.len() as int)) == Ok::<
            ImageView,
            ErrorKind,
        >(image@),
{
    write_header(image.width, image.height, writer);
    let mut payload: Vec<u8> = Vec::new();
    write_payload(image, &mut payload);
    match deflate(payload.as_slice()) {
        Ok(stream) => {
            writer.extend_from_slice(stream.as_slice());
            proof {
                let file = header_bytes(image@.width, image@.height) + stream@;
                assert(writer@.skip(old(writer)@.len() as int) =~= file);
                if image@.wf() {
                    lemma_round_trip(image@, stream@);
                }
            }
            Ok(())
        },
        Err(e) => Err(Error::Io(e)),
    }
}

} // verus!
