//! The zlib stream that carries the palette and the pixels of an XYZ file.
//!
//! Inflating and deflating are the work of `flate2`. Nothing here says how a
//! stream is laid out: [`zlib_inflated`] and [`zlib_deflated`] only give a
//! name to what `flate2` makes of a given sequence of bytes.

use std::io::Write;
use vstd::prelude::*;

verus! {

/// The error that `flate2` reports through `std::io`. Its inside is not
/// looked at here; it is only handed on to the caller.
#[verifier::external_type_specification]
#[verifier::external_body]
pub struct ExIoError(std::io::Error);

/// What `flate2::write::ZlibDecoder` has put out once all of `data` has been
/// written to it and it has been finished: `Some` of the inflated bytes, or
/// `None` where the decoder reports an error.
pub uninterp spec fn zlib_inflated(data: Seq<u8>) -> Option<Seq<u8>>;

/// What `flate2::write::ZlibEncoder` at its default level has put out once
/// all of `data` has been written to it and it has been finished: `Some` of
/// the stream, or `None` where the encoder reports an error.
pub uninterp spec fn zlib_deflated(data: Seq<u8>) -> Option<Seq<u8>>;

/// Drives a `flate2::write::ZlibDecoder` over `data`: a new decoder on an
/// empty vector, `write_all` of the whole input, then `finish`. The contract
/// claims only that the outcome is the one named by [`zlib_inflated`]: the
/// decoder keeps no state between runs, so equal input gives equal output.
#[verifier::external_body]
pub(crate) fn inflate(data: &[u8]) -> (r: Result<Vec<u8>, std::io::Error>)
    ensures
        match r {
            Ok(body) => zlib_inflated(data@) == Some(body@),
            Err(_) => zlib_inflated(data@) is None,
        },
{
    let mut decoder = flate2::write::ZlibDecoder::new(Vec::new());
    decoder.write_all(data)?;
    decoder.finish()
}

/// Drives a `flate2::write::ZlibEncoder` at `Compression::default()` over
/// `data`: a new encoder on an empty vector, `write_all` of the whole input,
/// then `finish`. The contract claims that the outcome is the one named by
/// [`zlib_deflated`], and that the stream which the encoder hands back is one
/// that the decoder of [`inflate`] turns into `data` again, which is what
/// `flate2` documents of the pair.
#[verifier::external_body]
pub(crate) fn deflate(data: &[u8]) -> (r: Result<Vec<u8>, std::io::Error>)
    ensures
        match r {
            Ok(stream) => zlib_deflated(data@) == Some(stream@) && zlib_inflated(stream@) == Some(
                data@,
            ),
            Err(_) => zlib_deflated(data@) is None,
        },
{
    let mut encoder = flate2::write::ZlibEncoder::new(Vec::new(), flate2::Compression::default());
    encoder.write_all(data)?;
    encoder.finish()
}

} // verus!
