//! The codec selector and the adapters' error type.

use vstd::prelude::*;

verus! {

/// The two compression formats the dual-codec adapter supports.
#[derive(Clone, Copy, PartialEq, Eq, Structural, Debug)]
pub enum Codec {
    Bzip2,
    Zstd,
}

/// What an adapter call can report: either the selector string named no
/// supported codec (no codec work was attempted), or the underlying codec
/// rejected the stream, with its diagnostic attached.
#[derive(Debug)]
pub enum AdapterError {
    UnknownCodec,
    CodecFailure(String),
}

/// Which codec a selector string names, if any: exactly `"bzip2"` and
/// `"zstd"` are recognized.
pub open spec fn codec_of(name: Seq<char>) -> Option<Codec> {
    if name == "bzip2"@ {
        Some(Codec::Bzip2)
    } else if name == "zstd"@ {
        Some(Codec::Zstd)
    } else {
        None
    }
}

impl Codec {
    /// Parse a selector string; any string other than the two codec names
    /// is rejected.
    pub fn parse(name: &str) -> (r: Option<Codec>)
        ensures
            r == codec_of(name@),
    {
        let owned = name.to_owned();
        if owned == "bzip2".to_owned() {
            Some(Codec::Bzip2)
        } else if owned == "zstd".to_owned() {
            Some(Codec::Zstd)
        } else {
            None
        }
    }
}

impl AdapterError {
    /// A short description of the failure, for hosts that surface errors
    /// as text.
    pub fn message(&self) -> (r: String)
        ensures
            self is UnknownCodec ==> r@ == "Compression type"@,
            self matches AdapterError::CodecFailure(msg) ==> r@ == msg@,
    {
        match self {
            AdapterError::UnknownCodec => "Compression type".to_owned(),
            AdapterError::CodecFailure(msg) => msg.clone(),
        }
    }
}

} // verus!
