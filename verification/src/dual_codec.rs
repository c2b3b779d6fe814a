//! The dual-codec adapter: whole-buffer compression and decompression
//! dispatched on a selector string naming `bzip2` or `zstd`.

use vstd::prelude::*;

use crate::backend::bzip2_compress_raw;
use crate::backend::bzip2_compressed;
use crate::backend::bzip2_decompress_raw;
use crate::backend::bzip2_decompressed;
use crate::backend::zstd_compress_raw;
use crate::backend::zstd_compressed;
use crate::backend::zstd_decompress_raw;
use crate::backend::zstd_decompressed;
use crate::codec::AdapterError;
use crate::codec::Codec;
use crate::codec::codec_of;

verus! {

/// What compressing `input` at `level` with `codec` yields, or `None` where
/// the codec reports an error.
pub open spec fn spec_compress(codec: Codec, input: Seq<u8>, level: u32) -> Option<Seq<u8>> {
    match codec {
        Codec::Bzip2 => bzip2_compressed(input, level),
        Codec::Zstd => zstd_compressed(input, level),
    }
}

/// What decompressing `data` with `codec` yields, or `None` where `data` is
/// not well-formed compressed data for that codec.
pub open spec fn spec_decompress(codec: Codec, data: Seq<u8>) -> Option<Seq<u8>> {
    match codec {
        Codec::Bzip2 => bzip2_decompressed(data),
        Codec::Zstd => zstd_decompressed(data),
    }
}

/// Decompress `input` with the codec that `compression_type` names.
///
/// An unrecognized selector is rejected before any codec work; otherwise the
/// result is exactly what the selected codec decodes from `input`, and a
/// stream the codec rejects is reported as a failure, never as partial or
/// wrong output.
pub fn decompress(compression_type: &str, input: &[u8]) -> (r: Result<Vec<u8>, AdapterError>)
    ensures
        (match codec_of(compression_type@) {
            None => r matches Err(e) && e is UnknownCodec,
            Some(codec) => match spec_decompress(codec, input@) {
                Some(out) => r matches Ok(v) && v@ == out,
                None => r matches Err(e) && e is CodecFailure,
            },
        }),
{
    match Codec::parse(compression_type) {
        None => Err(AdapterError::UnknownCodec),
        Some(Codec::Bzip2) => match bzip2_decompress_raw(input) {
            Ok(v) => Ok(v),
            Err(msg) => Err(AdapterError::CodecFailure(msg)),
        },
        Some(Codec::Zstd) => match zstd_decompress_raw(input) {
            Ok(v) => Ok(v),
            Err(msg) => Err(AdapterError::CodecFailure(msg)),
        },
    }
}

/// Compress `input` at `level` with the codec that `compression_type` names.
///
/// An unrecognized selector is rejected before any codec work; otherwise the
/// result is exactly the frame the selected codec emits for `input` at
/// `level`, and that frame decompresses back to `input` (the round trip is
/// the identity).
pub fn compress(compression_type: &str, input: &[u8], level: u32) -> (r: Result<
    Vec<u8>,
    AdapterError,
>)
    ensures
        (match codec_of(compression_type@) {
            None => r matches Err(e) && e is UnknownCodec,
            Some(codec) => match spec_compress(codec, input@, level) {
                Some(out) => r matches Ok(v) && v@ == out,
                None => r matches Err(e) && e is CodecFailure,
            },
        }),
        r matches Ok(v) ==> (codec_of(compression_type@) matches Some(codec)
            && spec_decompress(codec, v@) == Some(input@)),
{
    match Codec::parse(compression_type) {
        None => Err(AdapterError::UnknownCodec),
        Some(Codec::Bzip2) => match bzip2_compress_raw(input, level) {
            Ok(v) => Ok(v),
            Err(msg) => Err(AdapterError::CodecFailure(msg)),
        },
        Some(Codec::Zstd) => match zstd_compress_raw(input, level) {
            Ok(v) => Ok(v),
            Err(msg) => Err(AdapterError::CodecFailure(msg)),
        },
    }
}

/// Decompression is deterministic: any two results obtained for the same
/// compressed buffer under the same codec are identical, byte for byte.
pub proof fn lemma_decompress_deterministic(
    codec: Codec,
    data: Seq<u8>,
    r1: Option<Seq<u8>>,
    r2: Option<Seq<u8>>,
)
    requires
        r1 == spec_decompress(codec, data),
        r2 == spec_decompress(codec, data),
    ensures
        r1 == r2,
{
}

} // verus!
