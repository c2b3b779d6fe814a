//! The zstd-only adapter: whole-buffer compression with an optional quality
//! level (a default is applied when none is supplied) and decompression.

use vstd::prelude::*;

use crate::backend::zstd_compress_raw;
use crate::backend::zstd_compressed;
use crate::backend::zstd_decompress_raw;
use crate::backend::zstd_decompressed;
use crate::codec::AdapterError;

verus! {

/// The quality level used when the caller supplies none.
pub const DEFAULT_COMPRESSION_LEVEL: u32 = 7;

/// The quality level a call actually runs at: the one supplied, else the
/// default.
pub open spec fn effective_level(level: Option<u32>) -> u32 {
    match level {
        Some(l) => l,
        None => DEFAULT_COMPRESSION_LEVEL,
    }
}

/// What compressing `input` with the level choice `level` yields.
pub open spec fn spec_compress(input: Seq<u8>, level: Option<u32>) -> Option<Seq<u8>> {
    zstd_compressed(input, effective_level(level))
}

/// Compress `input` with zstd at the supplied level, or at the default
/// level when none is supplied.
///
/// The result is exactly the frame zstd emits for `input` at the effective
/// level, every failure of the codec is reported (none is swallowed), and
/// the emitted frame decompresses back to `input`.
pub fn compress(input: &[u8], level: Option<u32>) -> (r: Result<Vec<u8>, AdapterError>)
    ensures
        (match spec_compress(input@, level) {
            Some(out) => r matches Ok(v) && v@ == out,
            None => r matches Err(e) && e is CodecFailure,
        }),
        r matches Ok(v) ==> zstd_decompressed(v@) == Some(input@),
{
    let effective: u32 = match level {
        Some(l) => l,
        None => DEFAULT_COMPRESSION_LEVEL,
    };
    match zstd_compress_raw(input, effective) {
        Ok(v) => Ok(v),
        Err(msg) => Err(AdapterError::CodecFailure(msg)),
    }
}

/// Decompress the zstd buffer `input`.
///
/// The result is exactly what zstd decodes from `input`; a buffer zstd
/// rejects is reported as a failure, never as partial or wrong output.
pub fn decompress(input: &[u8]) -> (r: Result<Vec<u8>, AdapterError>)
    ensures
        (match zstd_decompressed(input@) {
            Some(out) => r matches Ok(v) && v@ == out,
            None => r matches Err(e) && e is CodecFailure,
        }),
{
    match zstd_decompress_raw(input) {
        Ok(v) => Ok(v),
        Err(msg) => Err(AdapterError::CodecFailure(msg)),
    }
}

/// Omitting the quality level behaves identically to supplying the default
/// level explicitly.
pub proof fn lemma_default_level(input: Seq<u8>)
    ensures
        spec_compress(input, None) == spec_compress(input, Some(DEFAULT_COMPRESSION_LEVEL)),
{
}

} // verus!
