//! The codec: how fetched bytes become stored bytes, and back.

use crate::encoding::EncodingKind;
use crate::error::{FetchError, IoStep};
use std::io::Read;
use std::io::Write;
use vstd::prelude::*;
use vstd::slice::slice_to_vec;
use vstd::string::to_string_from_display_ensures;

verus! {

/// The error of `std::io` operations.
#[verifier::external_type_specification]
#[verifier::external_body]
pub struct ExIoError(std::io::Error);

/// Compression effort, from 0 to 11. Entries are written once and read by
/// every later build, so size wins over speed.
pub const BROTLI_QUALITY: u32 = 11;

/// Base-two logarithm of the Brotli sliding window.
pub const BROTLI_WINDOW: u32 = 22;

/// Size in bytes of the buffer between the codec and its sink or source.
pub const CODEC_BUFFER: usize = 4096;

/// What the Brotli decoder reads from `stream`: the bytes that the Brotli
/// stream at its start stands for, or nothing where the decoder reports an
/// error. Bytes that follow a complete stream are not looked at.
pub uninterp spec fn brotli_decoded(stream: Seq<u8>) -> Option<Seq<u8>>;

/// Compresses `data` into a fresh buffer with `brotli::CompressorWriter`:
/// writes all of it, flushes, and closes the stream by dropping the writer.
///
/// Trusted: Brotli is lossless, so a stream that comes back decodes to
/// `data`. Which bytes the stream holds is left open. A failure names the
/// call that reported it.
#[verifier::external_body]
fn brotli_compress(data: &[u8], buffer_size: usize, quality: u32, window: u32) -> (res: Result<
    Vec<u8>,
    (IoStep, std::io::Error),
>)
    requires
        quality <= 11,
        10 <= window <= 24,
    ensures
        match res {
            Ok(stream) => brotli_decoded(stream@) == Some(data@),
            Err(failure) => failure.0 == IoStep::CompressWrite || failure.0
                == IoStep::CompressFlush,
        },
{
    let mut stream = Vec::with_capacity(buffer_size);
    let mut encoder = brotli::CompressorWriter::new(&mut stream, buffer_size, quality, window);
    if let Err(error) = encoder.write_all(data) {
        return Err((IoStep::CompressWrite, error));
    }
    if let Err(error) = encoder.flush() {
        return Err((IoStep::CompressFlush, error));
    }
    drop(encoder);
    Ok(stream)
}

/// Decompresses `stream` to its end with `brotli::Decompressor`.
///
/// Trusted: whether the decoder reports an error, and the bytes it hands
/// out if it does not, depend on `stream` alone.
#[verifier::external_body]
fn brotli_decompress(stream: &[u8], buffer_size: usize) -> (res: Result<Vec<u8>, std::io::Error>)
    ensures
        match res {
            Ok(data) => brotli_decoded(stream@) == Some(data@),
            Err(_) => brotli_decoded(stream@) is None,
        },
{
    let mut data = Vec::new();
    match brotli::Decompressor::new(stream, buffer_size).read_to_end(&mut data) {
        Ok(_) => Ok(data),
        Err(error) => Err(error),
    }
}

/// The bytes that `stored` stands for under `kind`, or nothing where
/// `stored` cannot be read back.
pub open spec fn decoded(kind: EncodingKind, stored: Seq<u8>) -> Option<Seq<u8>> {
    match kind {
        EncodingKind::Identity => Some(stored),
        EncodingKind::Brotli => brotli_decoded(stored),
    }
}

/// Turns what the compressor reported into the result of encoding.
pub fn compression_outcome(raw: Result<Vec<u8>, (IoStep, std::io::Error)>) -> (res: Result<
    Vec<u8>,
    FetchError,
>)
    ensures
        match raw {
            Ok(stream) => res == Ok::<Vec<u8>, FetchError>(stream),
            Err(failure) => res matches Err(FetchError::IoError { step, cause }) && step
                == failure.0 && to_string_from_display_ensures::<std::io::Error>(
                &failure.1,
                cause,
            ),
        },
{
    match raw {
        Ok(stream) => Ok(stream),
        Err(failure) => {
            let (step, error) = failure;
            Err(FetchError::IoError { step, cause: error.to_string() })
        },
    }
}

/// Encodes fetched bytes for storage.
///
/// The identity hands the bytes back. Brotli compresses them at quality
/// [`BROTLI_QUALITY`] with window [`BROTLI_WINDOW`]. Whatever comes back
/// decodes to `bytes`; only Brotli can fail, and only in the compressor.
pub fn encode(bytes: Vec<u8>, kind: EncodingKind) -> (res: Result<Vec<u8>, FetchError>)
    ensures
        match res {
            Ok(stored) => decoded(kind, stored@) == Some(bytes@) && (kind
                == EncodingKind::Identity ==> stored == bytes),
            Err(error) => kind == EncodingKind::Brotli && (error matches FetchError::IoError {
                step,
                ..
            } && (step == IoStep::CompressWrite || step == IoStep::CompressFlush)),
        },
{
    match kind {
        EncodingKind::Identity => Ok(bytes),
        EncodingKind::Brotli => compression_outcome(
            brotli_compress(bytes.as_slice(), CODEC_BUFFER, BROTLI_QUALITY, BROTLI_WINDOW),
        ),
    }
}

/// Reads stored bytes back: the inverse of [`encode`].
pub fn decode(stored: &[u8], kind: EncodingKind) -> (res: Option<Vec<u8>>)
    ensures
        match res {
            Some(bytes) => decoded(kind, stored@) == Some(bytes@),
            None => decoded(kind, stored@) is None,
        },
{
    match kind {
        EncodingKind::Identity => Some(slice_to_vec(stored)),
        EncodingKind::Brotli => match brotli_decompress(stored, CODEC_BUFFER) {
            Ok(bytes) => Some(bytes),
            Err(_) => None,
        },
    }
}

/// Decoding inverts encoding: whatever [`encode`] hands back for `bytes`,
/// [`decode`] reads `bytes` out of it again, for every byte sequence and
/// both encodings.
pub proof fn lemma_decode_inverts_encode(
    bytes: Vec<u8>,
    kind: EncodingKind,
    stored: Vec<u8>,
    read: &[u8],
    back: Option<Vec<u8>>,
)
    requires
        call_ensures(encode, (bytes, kind), Ok::<Vec<u8>, FetchError>(stored)),
        read@ == stored@,
        call_ensures(decode, (read, kind), back),
    ensures
        back matches Some(again) && again@ == bytes@,
{
}

} // verus!
