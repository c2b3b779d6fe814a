//! Byte-buffer compression and decompression adapters.
//!
//! Two adapters expose streaming codecs as whole-buffer operations:
//! a dual-codec adapter that dispatches on a selector string naming
//! `bzip2` or `zstd`, and a zstd-only adapter that applies a default
//! quality level when none is supplied. Each call is stateless: it
//! reads the whole input, runs the codec to completion, and returns a
//! freshly allocated output buffer or an error.

pub mod backend;
pub mod codec;
pub mod dual_codec;
pub mod zstd_only;
