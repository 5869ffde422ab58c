//! Byte layout of a region file: the two header tables and the grid that
//! indexes them.
use vstd::prelude::*;

verus! {

/// Size of one header table, and of one sector.
pub const TABLE_BYTES: usize = 4096;

/// Size of both header tables together: the shortest valid region file.
pub const HEADER_BYTES: usize = 8192;

/// Number of chunks along each side of the grid.
pub const GRID_SIDE: usize = 32;

/// Number of slots in the grid, and of entries in each table.
pub const SLOT_COUNT: usize = 1024;

/// The big-endian 32-bit word at byte `i` of `s`.
pub open spec fn be32(s: Seq<u8>, i: int) -> int
    recommends
        0 <= i && i + 4 <= s.len(),
{
    (s[i] as int) * 16777216 + (s[i + 1] as int) * 65536 + (s[i + 2] as int) * 256 + (s[i + 3] as int)
}

/// Flat index of grid coordinate (x, z): rows by x, columns by z.
pub open spec fn slot_index(x: int, z: int) -> int {
    x * 32 + z
}

/// Whether (x, z) lies on the grid.
pub open spec fn on_grid(x: int, z: int) -> bool {
    0 <= x < 32 && 0 <= z < 32
}

/// Absolute byte offset of the chunk of slot `k`: the 24-bit sector number
/// at the start of its location entry, times the sector size.
pub open spec fn location_offset(d: Seq<u8>, k: int) -> int {
    ((d[4 * k] as int) * 65536 + (d[4 * k + 1] as int) * 256 + (d[4 * k + 2] as int)) * 4096
}

/// Last-modified time of slot `k`, from the timestamp table.
pub open spec fn timestamp_entry(d: Seq<u8>, k: int) -> int {
    be32(d, 4096 + 4 * k)
}

/// Reads the big-endian 32-bit word at byte `i` of `b`.
pub fn read_be_u32(b: &[u8], i: usize) -> (r: u32)
    requires
        i + 4 <= b@.len(),
    ensures
        r as int == be32(b@, i as int),
{
    (b[i] as u32) * 16777216 + (b[i + 1] as u32) * 65536 + (b[i + 2] as u32) * 256 + (b[i + 3] as u32)
}

/// Reads the chunk offset that the location entry at byte `i` of `b` gives.
pub fn read_sector_offset(b: &[u8], i: usize) -> (r: u64)
    requires
        i + 4 <= b@.len(),
    ensures
        r as int == ((b@[i as int] as int) * 65536 + (b@[i + 1] as int) * 256 + (b@[i + 2] as int)) * 4096,
{
    ((b[i] as u64) * 65536 + (b[i + 1] as u64) * 256 + (b[i + 2] as u64)) * 4096
}

/// Parses the location table: the chunk offset of each of the 1024 slots.
pub fn parse_locations(d: &[u8]) -> (r: Vec<u64>)
    requires
        d@.len() >= HEADER_BYTES,
    ensures
        r@.len() == SLOT_COUNT,
        forall|k: int| 0 <= k < SLOT_COUNT ==> r@[k] as int == #[trigger] location_offset(d@, k),
{
    let mut r: Vec<u64> = Vec::with_capacity(SLOT_COUNT);
    let mut k: usize = 0;
    while k < SLOT_COUNT
        invariant
            d@.len() >= HEADER_BYTES,
            k <= SLOT_COUNT,
            r@.len() == k,
            forall|j: int| 0 <= j < k ==> r@[j] as int == #[trigger] location_offset(d@, j),
        decreases SLOT_COUNT - k,
    {
        r.push(read_sector_offset(d, 4 * k));
        k = k + 1;
    }
    r
}

/// Parses the timestamp table: the last-modified time of each of the 1024
/// slots.
pub fn parse_timestamps(d: &[u8]) -> (r: Vec<u32>)
    requires
        d@.len() >= HEADER_BYTES,
    ensures
        r@.len() == SLOT_COUNT,
        forall|k: int| 0 <= k < SLOT_COUNT ==> r@[k] as int == #[trigger] timestamp_entry(d@, k),
{
    let mut r: Vec<u32> = Vec::with_capacity(SLOT_COUNT);
    let mut k: usize = 0;
    while k < SLOT_COUNT
        invariant
            d@.len() >= HEADER_BYTES,
            k <= SLOT_COUNT,
            r@.len() == k,
            forall|j: int| 0 <= j < k ==> r@[j] as int == #[trigger] timestamp_entry(d@, j),
        decreases SLOT_COUNT - k,
    {
        r.push(read_be_u32(d, TABLE_BYTES + 4 * k));
        k = k + 1;
    }
    r
}

} // verus!
