//! What holds of every XYZ file, stated over the functions that say what
//! [`crate::read`] and [`crate::write`] return.

use crate::bytes::{lemma_u16_le_round_trip, lemma_u32_le_round_trip, u16_to_le, u32_from_le};
use crate::error::ErrorKind;
use crate::format::{
    color_at, decoded, header_bytes, parsed_header, parsed_payload, payload_bytes, HEADER_LEN,
    MAGIC_NUMBER, PALETTE_BYTES,
};
use crate::image::ImageView;
use crate::zlib::zlib_inflated;
use vstd::prelude::*;

verus! {

/// A header that was written is read back as the dimensions it was written
/// for, whatever follows it.
pub proof fn lemma_header_round_trip(width: u16, height: u16, rest: Seq<u8>)
    ensures
        header_bytes(width, height).len() == HEADER_LEN,
        parsed_header(header_bytes(width, height) + rest) == Ok::<(u16, u16), ErrorKind>(
            (width, height),
        ),
{
    let input = header_bytes(width, height) + rest;
    lemma_u32_le_round_trip(MAGIC_NUMBER);
    lemma_u16_le_round_trip(width);
    lemma_u16_le_round_trip(height);
    assert(input.subrange(4, 6) =~= u16_to_le(width));
    assert(input.subrange(6, 8) =~= u16_to_le(height));
}

/// The palette and the pixels of a well-formed image, laid out as the stream
/// holds them, are read back as that image.
pub proof fn lemma_payload_round_trip(image: ImageView)
    requires
        image.wf(),
    ensures
        payload_bytes(image).len() == PALETTE_BYTES + image.width * image.height,
        parsed_payload(image.width, image.height, payload_bytes(image)) == Ok::<
            ImageView,
            ErrorKind,
        >(image),
{
    let body = payload_bytes(image);
    let got = parsed_payload(image.width, image.height, body)->Ok_0;
    assert forall|i: int| 0 <= i < 256 implies got.palette[i] == image.palette[i] by {
        assert(color_at(body, 3 * i) =~= image.palette[i]);
    }
    assert(got.palette =~= image.palette);
    assert(got.buffer =~= image.buffer);
}

/// Round trip: a file made of the header of a well-formed image and of any
/// zlib stream that inflates to its palette and pixels is read back as that
/// image, whatever the level the stream was deflated at.
pub proof fn lemma_round_trip(image: ImageView, stream: Seq<u8>)
    requires
        image.wf(),
        zlib_inflated(stream) == Some(payload_bytes(image)),
    ensures
        decoded(header_bytes(image.width, image.height) + stream) == Ok::<ImageView, ErrorKind>(
            image,
        ),
{
    let header = header_bytes(image.width, image.height);
    lemma_header_round_trip(image.width, image.height, stream);
    lemma_payload_round_trip(image);
    assert((header + stream).skip(HEADER_LEN as int) =~= stream);
}

/// Rejection: a file whose first four bytes are not the magic number is
/// refused as `InvalidFormat`, whatever follows them.
pub proof fn lemma_bad_magic_rejected(input: Seq<u8>)
    requires
        input.len() >= 4,
        u32_from_le(input) != MAGIC_NUMBER,
    ensures
        decoded(input) == Err::<ImageView, ErrorKind>(ErrorKind::InvalidFormat),
{
}

/// Trailing data: a stream that inflates to the palette and pixels of a
/// well-formed image followed by at least one more byte is refused as
/// `TrailingData`.
pub proof fn lemma_trailing_data_rejected(image: ImageView, extra: Seq<u8>, stream: Seq<u8>)
    requires
        image.wf(),
        extra.len() > 0,
        zlib_inflated(stream) == Some(payload_bytes(image) + extra),
    ensures
        decoded(header_bytes(image.width, image.height) + stream) == Err::<ImageView, ErrorKind>(
            ErrorKind::TrailingData,
        ),
{
    let header = header_bytes(image.width, image.height);
    lemma_header_round_trip(image.width, image.height, stream);
    lemma_payload_round_trip(image);
    assert((header + stream).skip(HEADER_LEN as int) =~= stream);
}

/// Truncation of the stream: behind a good header, a stream that the decoder
/// refuses, or that inflates to less than the palette and the pixels, makes
/// the file fail with `DecompressionError` or `UnexpectedEndOfInput`.
pub proof fn lemma_short_stream_rejected(width: u16, height: u16, stream: Seq<u8>)
    requires
        zlib_inflated(stream) matches Some(body) ==> body.len() < PALETTE_BYTES + width * height,
    ensures
        match zlib_inflated(stream) {
            None => decoded(header_bytes(width, height) + stream) == Err::<ImageView, ErrorKind>(
                ErrorKind::DecompressionError,
            ),
            Some(_) => decoded(header_bytes(width, height) + stream) == Err::<
                ImageView,
                ErrorKind,
            >(ErrorKind::UnexpectedEndOfInput),
        },
{
    let header = header_bytes(width, height);
    lemma_header_round_trip(width, height, stream);
    assert((header + stream).skip(HEADER_LEN as int) =~= stream);
}

/// Truncation of the header: a file cut off before the end of its header
/// fails with `UnexpectedEndOfInput`.
pub proof fn lemma_short_header_rejected(width: u16, height: u16, stream: Seq<u8>, len: int)
    requires
        0 <= len < HEADER_LEN,
    ensures
        decoded((header_bytes(width, height) + stream).take(len)) == Err::<ImageView, ErrorKind>(
            ErrorKind::UnexpectedEndOfInput,
        ),
{
    lemma_header_round_trip(width, height, stream);
}

} // verus!
