//! Compression modes of a chunk payload and the NBT decoding behind them.
use vstd::prelude::*;

verus! {

#[verifier::external_type_specification]
#[verifier::external_body]
pub struct ExBlob(nbt::Blob);

#[verifier::external_type_specification]
#[verifier::external_body]
pub struct ExNbtError(nbt::Error);

/// How a chunk's payload is compressed, as its tag byte says.
#[derive(Clone, Copy, Debug, PartialEq, Eq, Structural)]
pub enum CompressionMode {
    GZip,
    ZLib,
    Raw,
}

/// The mode that tag byte `t` stands for: 1 GZip, 2 ZLib, 3 Raw, else none.
pub open spec fn mode_of_tag(t: u8) -> Option<CompressionMode> {
    if t == 1 {
        Some(CompressionMode::GZip)
    } else if t == 2 {
        Some(CompressionMode::ZLib)
    } else if t == 3 {
        Some(CompressionMode::Raw)
    } else {
        None
    }
}

impl CompressionMode {
    /// The mode that a chunk's tag byte names, if any.
    pub fn from_tag(t: u8) -> (r: Option<CompressionMode>)
        ensures
            r == mode_of_tag(t),
    {
        if t == 1 {
            Some(CompressionMode::GZip)
        } else if t == 2 {
            Some(CompressionMode::ZLib)
        } else if t == 3 {
            Some(CompressionMode::Raw)
        } else {
            None
        }
    }
}

impl Default for CompressionMode {
    fn default() -> (r: CompressionMode)
        ensures
            r == CompressionMode::Raw,
    {
        CompressionMode::Raw
    }
}

/// Whether `b` is a gzip stream that holds one NBT compound.
pub uninterp spec fn gzip_nbt_decodes(b: Seq<u8>) -> bool;

/// Whether `b` is a zlib stream that holds one NBT compound.
pub uninterp spec fn zlib_nbt_decodes(b: Seq<u8>) -> bool;

/// Whether `b` begins with one uncompressed NBT compound.
pub uninterp spec fn raw_nbt_decodes(b: Seq<u8>) -> bool;

/// Whether a payload of `mode` decodes to an NBT compound.
pub open spec fn payload_decodes(mode: CompressionMode, b: Seq<u8>) -> bool {
    match mode {
        CompressionMode::GZip => gzip_nbt_decodes(b),
        CompressionMode::ZLib => zlib_nbt_decodes(b),
        CompressionMode::Raw => raw_nbt_decodes(b),
    }
}

/// Relies on nbt::from_gzip_reader: it inflates `b` and decodes the NBT
/// compound inside; whether that succeeds depends on the bytes alone.
#[verifier::external_body]
fn decode_gzip(b: &[u8]) -> (r: Result<nbt::Blob, nbt::Error>)
    ensures
        r is Ok <==> gzip_nbt_decodes(b@),
{
    nbt::from_gzip_reader(b)
}

/// Relies on nbt::from_zlib_reader: it inflates `b` and decodes the NBT
/// compound inside; whether that succeeds depends on the bytes alone.
#[verifier::external_body]
fn decode_zlib(b: &[u8]) -> (r: Result<nbt::Blob, nbt::Error>)
    ensures
        r is Ok <==> zlib_nbt_decodes(b@),
{
    nbt::from_zlib_reader(b)
}

/// Relies on nbt::from_reader: it decodes the NBT compound at the start of
/// `b`; whether that succeeds depends on the bytes alone.
#[verifier::external_body]
fn decode_raw(b: &[u8]) -> (r: Result<nbt::Blob, nbt::Error>)
    ensures
        r is Ok <==> raw_nbt_decodes(b@),
{
    nbt::from_reader(b)
}

/// Decodes a chunk payload through the codec that `mode` names. The NBT
/// decoder recurses once per nesting level of the tree.
pub fn decode_payload(mode: CompressionMode, b: &[u8]) -> (r: Result<nbt::Blob, nbt::Error>)
    ensures
        r is Ok <==> payload_decodes(mode, b@),
{
    match mode {
        CompressionMode::GZip => decode_gzip(b),
        CompressionMode::ZLib => decode_zlib(b),
        CompressionMode::Raw => decode_raw(b),
    }
}

} // verus!
