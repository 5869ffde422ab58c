//! Reading one chunk: its length-prefixed, tagged payload at a byte offset.
use vstd::prelude::*;
use crate::codec::{decode_payload, mode_of_tag, payload_decodes, CompressionMode};
use crate::error::McaError;
use crate::layout::{be32, read_be_u32};
use crate::source::ByteSource;

verus! {

/// What reading the chunk at an offset comes to, blob aside.
pub enum ChunkStatus {
    /// Offset zero: no chunk is stored.
    Absent,
    /// The header or the payload runs past the end of the source.
    Truncated,
    /// The tag byte names no compression mode.
    UnknownMode(u8),
    /// The payload does not decode.
    Undecodable,
    /// The payload decodes; the mode and the length prefix.
    Decoded(CompressionMode, u32),
}

/// Number of payload bytes after the tag for length prefix `l`, which
/// counts the tag too.
pub open spec fn payload_len(l: int) -> int {
    if l == 0 {
        0
    } else {
        l - 1
    }
}

/// The payload bytes of the chunk at offset `off` of `d`.
pub open spec fn chunk_payload(d: Seq<u8>, off: int) -> Seq<u8> {
    d.subrange(off + 5, off + 5 + payload_len(be32(d, off)))
}

/// What reading the chunk at byte offset `off` of `d` comes to.
pub open spec fn chunk_status(d: Seq<u8>, off: int) -> ChunkStatus {
    if off == 0 {
        ChunkStatus::Absent
    } else if off + 5 > d.len() {
        ChunkStatus::Truncated
    } else {
        match mode_of_tag(d[off + 4]) {
            None => ChunkStatus::UnknownMode(d[off + 4]),
            Some(m) => if off + 5 + payload_len(be32(d, off)) > d.len() {
                ChunkStatus::Truncated
            } else if !payload_decodes(m, chunk_payload(d, off)) {
                ChunkStatus::Undecodable
            } else {
                ChunkStatus::Decoded(m, be32(d, off) as u32)
            },
        }
    }
}

/// The status that a chunk read's result reports; none for an error that
/// a chunk read never gives.
pub open spec fn status_of(r: Result<Option<(nbt::Blob, CompressionMode, u32)>, McaError>) -> Option<ChunkStatus> {
    match r {
        Ok(None) => Some(ChunkStatus::Absent),
        Ok(Some((_, m, l))) => Some(ChunkStatus::Decoded(m, l)),
        Err(McaError::Io) => Some(ChunkStatus::Truncated),
        Err(McaError::UnknownCompressionMode(t)) => Some(ChunkStatus::UnknownMode(t)),
        Err(McaError::Decode(_)) => Some(ChunkStatus::Undecodable),
        Err(_) => None,
    }
}

/// Reads and decodes the chunk whose header starts at `offset`, which is
/// not zero. Leaves the position wherever the reads took it.
fn decode_at(src: &mut ByteSource, offset: u64) -> (r: Result<Option<(nbt::Blob, CompressionMode, u32)>, McaError>)
    requires
        offset != 0,
    ensures
        final(src).data@ == old(src).data@,
        status_of(r) == Some(chunk_status(old(src).data@, offset as int)),
{
    src.seek(offset);
    let header = match src.read_exact(5) {
        Some(h) => h,
        None => return Err(McaError::Io),
    };
    let size = read_be_u32(header.as_slice(), 0);
    let tag = header[4];
    let mode = match CompressionMode::from_tag(tag) {
        Some(m) => m,
        None => return Err(McaError::UnknownCompressionMode(tag)),
    };
    let plen: usize = if size == 0 {
        0
    } else {
        (size - 1) as usize
    };
    let payload = match src.read_exact(plen) {
        Some(p) => p,
        None => return Err(McaError::Io),
    };
    assert(payload@ == chunk_payload(old(src).data@, offset as int));
    match decode_payload(mode, payload.as_slice()) {
        Ok(blob) => Ok(Some((blob, mode, size))),
        Err(e) => Err(McaError::Decode(e)),
    }
}

/// Reads and decodes the chunk whose header starts at byte `offset`.
/// Offset zero means that no chunk is stored, and the source is not read.
/// Whatever the outcome, the read position is what it was before.
pub fn read_chunk_at(src: &mut ByteSource, offset: u64) -> (r: Result<Option<(nbt::Blob, CompressionMode, u32)>, McaError>)
    ensures
        final(src).data@ == old(src).data@,
        final(src).pos == old(src).pos,
        status_of(r) == Some(chunk_status(old(src).data@, offset as int)),
{
    if offset == 0 {
        return Ok(None);
    }
    let saved = src.position();
    let r = decode_at(src, offset);
    src.seek(saved);
    r
}

} // verus!
