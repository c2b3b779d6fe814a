//! Trusted bindings to the streaming codec implementations.
//!
//! Each operation here runs one complete streaming encode or decode over an
//! in-memory buffer, driving the codec's asynchronous interface to completion
//! on a current-thread executor. What each call returns is a function of its
//! arguments alone, and is given a name that the adapters' contracts use.

use std::io::Cursor;

use async_compression::Level;
use async_compression::tokio::bufread::BzDecoder;
use async_compression::tokio::bufread::ZstdDecoder;
use async_compression::tokio::write::BzEncoder;
use async_compression::tokio::write::ZstdEncoder;
use tokio::io::AsyncReadExt;
use tokio::io::AsyncWriteExt;
use vstd::prelude::*;

verus! {

/// The zstd frame sequence that encoding produces for an input at a precise
/// quality level, or `None` where encoding reports an error.
pub uninterp spec fn zstd_compressed(input: Seq<u8>, level: u32) -> Option<Seq<u8>>;

/// The bytes zstd decoding recovers from a buffer, or `None` where the
/// buffer is not well-formed compressed data.
pub uninterp spec fn zstd_decompressed(data: Seq<u8>) -> Option<Seq<u8>>;

/// The bzip2 stream that encoding produces for an input at a precise
/// quality level, or `None` where encoding reports an error.
pub uninterp spec fn bzip2_compressed(input: Seq<u8>, level: u32) -> Option<Seq<u8>>;

/// The bytes bzip2 decoding recovers from a buffer, or `None` where the
/// buffer is not well-formed compressed data.
pub uninterp spec fn bzip2_decompressed(data: Seq<u8>) -> Option<Seq<u8>>;

/// Relies on async_compression::tokio::write::ZstdEncoder with
/// Level::Precise: write_all then shutdown emit one complete frame into the
/// in-memory sink, deterministically for a given input and level (quality
/// levels are implicitly clamped to the algorithm's range), and zstd is
/// lossless: decoding the emitted frame recovers exactly the input.
#[verifier::external_body]
pub(crate) fn zstd_compress_raw(input: &[u8], level: u32) -> (r: Result<Vec<u8>, String>)
    ensures
        (match zstd_compressed(input@, level) {
            Some(out) => r matches Ok(v) && v@ == out,
            None => r is Err,
        }),
        r matches Ok(v) ==> zstd_decompressed(v@) == Some(input@),
{
    let rt = match tokio::runtime::Builder::new_current_thread().build() {
        Ok(rt) => rt,
        Err(e) => return Err(e.to_string()),
    };
    let mut enc = ZstdEncoder::with_quality(Vec::new(), Level::Precise(level as i32));
    if let Err(e) = rt.block_on(enc.write_all(input)) {
        return Err(e.to_string());
    }
    if let Err(e) = rt.block_on(enc.shutdown()) {
        return Err(e.to_string());
    }
    Ok(enc.into_inner())
}

/// Relies on async_compression::tokio::bufread::ZstdDecoder, read to the end
/// over an in-memory cursor: recovers the decoded bytes of well-formed
/// compressed data and reports an error otherwise, deterministically for a
/// given input.
#[verifier::external_body]
pub(crate) fn zstd_decompress_raw(input: &[u8]) -> (r: Result<Vec<u8>, String>)
    ensures
        (match zstd_decompressed(input@) {
            Some(out) => r matches Ok(v) && v@ == out,
            None => r is Err,
        }),
{
    let rt = match tokio::runtime::Builder::new_current_thread().build() {
        Ok(rt) => rt,
        Err(e) => return Err(e.to_string()),
    };
    let mut dec = ZstdDecoder::new(Cursor::new(input));
    let mut out = Vec::new();
    if let Err(e) = rt.block_on(dec.read_to_end(&mut out)) {
        return Err(e.to_string());
    }
    Ok(out)
}

/// Relies on async_compression::tokio::write::BzEncoder with Level::Precise:
/// write_all then shutdown emit one complete stream into the in-memory sink,
/// deterministically for a given input and level (quality levels are
/// implicitly clamped to the algorithm's range), and bzip2 is lossless:
/// decoding the emitted stream recovers exactly the input.
#[verifier::external_body]
pub(crate) fn bzip2_compress_raw(input: &[u8], level: u32) -> (r: Result<Vec<u8>, String>)
    ensures
        (match bzip2_compressed(input@, level) {
            Some(out) => r matches Ok(v) && v@ == out,
            None => r is Err,
        }),
        r matches Ok(v) ==> bzip2_decompressed(v@) == Some(input@),
{
    let rt = match tokio::runtime::Builder::new_current_thread().build() {
        Ok(rt) => rt,
        Err(e) => return Err(e.to_string()),
    };
    let mut enc = BzEncoder::with_quality(Vec::new(), Level::Precise(level as i32));
    if let Err(e) = rt.block_on(enc.write_all(input)) {
        return Err(e.to_string());
    }
    if let Err(e) = rt.block_on(enc.shutdown()) {
        return Err(e.to_string());
    }
    Ok(enc.into_inner())
}

/// Relies on async_compression::tokio::bufread::BzDecoder, read to the end
/// over an in-memory cursor: recovers the decoded bytes of well-formed
/// compressed data and reports an error otherwise, deterministically for a
/// given input.
#[verifier::external_body]
pub(crate) fn bzip2_decompress_raw(input: &[u8]) -> (r: Result<Vec<u8>, String>)
    ensures
        (match bzip2_decompressed(input@) {
            Some(out) => r matches Ok(v) && v@ == out,
            None => r is Err,
        }),
{
    let rt = match tokio::runtime::Builder::new_current_thread().build() {
        Ok(rt) => rt,
        Err(e) => return Err(e.to_string()),
    };
    let mut dec = BzDecoder::new(Cursor::new(input));
    let mut out = Vec::new();
    if let Err(e) = rt.block_on(dec.read_to_end(&mut out)) {
        return Err(e.to_string());
    }
    Ok(out)
}

} // verus!
