//! Errors of the region-file reader.
use vstd::prelude::*;

verus! {

/// Why opening a region file, or reading one of its chunks, failed.
#[derive(Debug)]
pub enum McaError {
    /// The source is shorter than the two header tables.
    TruncatedHeader,
    /// A coordinate lies outside the 32 by 32 grid.
    OutOfRange,
    /// A chunk's compression tag is none of 1, 2 and 3; the tag is kept.
    UnknownCompressionMode(u8),
    /// A chunk's header or payload runs past the end of the source.
    Io,
    /// A chunk's payload did not decompress or decode as NBT.
    Decode(nbt::Error),
    /// The region file was closed.
    Closed,
}

} // verus!
