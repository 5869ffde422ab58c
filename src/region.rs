//! A region file: its byte source, its parsed header tables and the lazily
//! filled 32 by 32 cache of decoded chunks.
use vstd::prelude::*;
use crate::chunk::{chunk_status, read_chunk_at, ChunkStatus};
use crate::codec::CompressionMode;
use crate::error::McaError;
use crate::layout::{
    location_offset, on_grid, parse_locations, parse_timestamps, slot_index, timestamp_entry,
    GRID_SIDE, HEADER_BYTES, SLOT_COUNT,
};
use crate::source::ByteSource;

verus! {

/// A decoded chunk.
#[derive(Debug)]
pub struct Chunk {
    /// Absolute byte offset of the chunk's length prefix.
    pub offset: u64,
    /// The chunk's length prefix: the tag byte and the payload after it.
    pub size: u32,
    /// Last-modified time, in seconds since the Unix epoch.
    pub timestamp: u32,
    /// How the payload was compressed.
    pub mode: CompressionMode,
    /// The decoded NBT tree.
    pub nbt: nbt::Blob,
}

/// One cell of the chunk cache.
#[derive(Debug)]
pub enum Slot {
    /// Not looked at yet.
    Unresolved,
    /// Looked at: the location table stores no chunk here.
    Absent,
    /// Looked at and decoded.
    Present(Chunk),
}

/// The state of a region file as its contracts see it.
pub struct RegionView {
    /// Whether the file is still open.
    pub open: bool,
    /// The bytes of the source.
    pub content: Seq<u8>,
    /// The source's read position.
    pub pos: u64,
    /// The chunk cache, slot `x * 32 + z` for coordinate (x, z).
    pub slots: Seq<Slot>,
}

/// Whether cache slot `k` agrees with the region bytes `d`.
pub open spec fn slot_consistent(d: Seq<u8>, k: int, s: Slot) -> bool {
    match s {
        Slot::Unresolved => true,
        Slot::Absent => location_offset(d, k) == 0,
        Slot::Present(c) => {
            &&& c.offset as int == location_offset(d, k)
            &&& c.offset != 0
            &&& c.timestamp as int == timestamp_entry(d, k)
            &&& chunk_status(d, c.offset as int) == ChunkStatus::Decoded(c.mode, c.size)
        },
    }
}

/// Validity of a region file's state: 1024 slots, and while open, a source
/// that holds both tables and a cache that agrees with it.
pub open spec fn view_wf(v: RegionView) -> bool {
    &&& v.slots.len() == SLOT_COUNT
    &&& v.open ==> v.content.len() >= HEADER_BYTES
    &&& v.open ==> forall|k: int| 0 <= k < SLOT_COUNT ==> slot_consistent(v.content, k, #[trigger] v.slots[k])
}

/// What `read_chunk(x, z)` on a region file in state `v0` returns as `r`,
/// and the state `v1` that it leaves behind.
pub open spec fn read_chunk_post<'a>(
    v0: RegionView,
    x: int,
    z: int,
    r: Result<Option<&'a Chunk>, McaError>,
    v1: RegionView,
) -> bool {
    if !on_grid(x, z) {
        r matches Err(McaError::OutOfRange) && v1 == v0
    } else if !v0.open {
        r matches Err(McaError::Closed) && v1 == v0
    } else {
        let k = slot_index(x, z);
        let off = location_offset(v0.content, k);
        &&& v1.open
        &&& v1.content == v0.content
        &&& v1.pos == v0.pos
        &&& match v0.slots[k] {
            Slot::Absent => r matches Ok(None) && v1 == v0,
            Slot::Present(c) => r matches Ok(Some(c1)) && *c1 == c && v1 == v0,
            Slot::Unresolved => if off == 0 {
                r matches Ok(None) && v1.slots == v0.slots.update(k, Slot::Absent)
            } else {
                match chunk_status(v0.content, off) {
                    ChunkStatus::Decoded(m, s) => {
                        &&& r matches Ok(Some(c1))
                        &&& c1.offset as int == off
                        &&& c1.size == s
                        &&& c1.mode == m
                        &&& c1.timestamp as int == timestamp_entry(v0.content, k)
                        &&& v1.slots == v0.slots.update(k, Slot::Present(*c1))
                    },
                    ChunkStatus::Truncated => r matches Err(McaError::Io) && v1 == v0,
                    ChunkStatus::UnknownMode(t) => r matches Err(McaError::UnknownCompressionMode(t1)) && t1 == t && v1 == v0,
                    ChunkStatus::Undecodable => r matches Err(McaError::Decode(_)) && v1 == v0,
                    ChunkStatus::Absent => false,
                }
            },
        }
    }
}

/// A coordinate whose location entry is zero reads as no chunk on every
/// call, and from the second call on the state stays exactly as it was.
pub proof fn lemma_absent_chunk_stays_absent<'a, 'b>(
    v0: RegionView,
    x: int,
    z: int,
    r1: Result<Option<&'a Chunk>, McaError>,
    v1: RegionView,
    r2: Result<Option<&'b Chunk>, McaError>,
    v2: RegionView,
)
    requires
        view_wf(v0),
        v0.open,
        on_grid(x, z),
        location_offset(v0.content, slot_index(x, z)) == 0,
        read_chunk_post(v0, x, z, r1, v1),
        read_chunk_post(v1, x, z, r2, v2),
    ensures
        r1 matches Ok(None),
        r2 matches Ok(None),
        v1.content == v0.content && v1.pos == v0.pos,
        v2 == v1,
{
    let k = slot_index(x, z);
    assert(slot_consistent(v0.content, k, v0.slots[k]));
}

/// A coordinate whose chunk decodes reads as the same chunk on repeated
/// calls, the source's position is the same after each call, and from the
/// second call on the state stays exactly as it was.
pub proof fn lemma_decoded_chunk_is_cached<'a, 'b>(
    v0: RegionView,
    x: int,
    z: int,
    r1: Result<Option<&'a Chunk>, McaError>,
    v1: RegionView,
    r2: Result<Option<&'b Chunk>, McaError>,
    v2: RegionView,
)
    requires
        view_wf(v0),
        v0.open,
        on_grid(x, z),
        location_offset(v0.content, slot_index(x, z)) != 0,
        chunk_status(v0.content, location_offset(v0.content, slot_index(x, z))) is Decoded,
        read_chunk_post(v0, x, z, r1, v1),
        read_chunk_post(v1, x, z, r2, v2),
    ensures
        r1 matches Ok(Some(c1)) && r2 matches Ok(Some(c2)) && *c1 == *c2,
        v1.pos == v0.pos,
        v2.pos == v1.pos,
        v2 == v1,
{
    let k = slot_index(x, z);
    assert(slot_consistent(v0.content, k, v0.slots[k]));
    assert(v1.slots[k] matches Slot::Present(c) && r1 matches Ok(Some(c1)) && *c1 == c);
}

/// A chunk read that fails leaves the whole state as it was: nothing is
/// cached, so the failure touches no other coordinate and may be retried.
pub proof fn lemma_failed_read_changes_nothing<'a>(
    v0: RegionView,
    x: int,
    z: int,
    r: Result<Option<&'a Chunk>, McaError>,
    v1: RegionView,
)
    requires
        read_chunk_post(v0, x, z, r, v1),
        r is Err,
    ensures
        v1 == v0,
{
}

/// A region file read from memory.
pub struct McaFile {
    source: ByteSource,
    closed: bool,
    locations: Vec<u64>,
    timestamps: Vec<u32>,
    slots: Vec<Slot>,
}

impl View for McaFile {
    type V = RegionView;

    closed spec fn view(&self) -> RegionView {
        RegionView { open: !self.closed, content: self.source.data@, pos: self.source.pos, slots: self.slots@ }
    }
}

impl McaFile {
    /// Validity: a valid view, and while open, tables parsed from the source.
    pub closed spec fn wf(&self) -> bool {
        &&& view_wf(self@)
        &&& self.locations@.len() == SLOT_COUNT
        &&& self.timestamps@.len() == SLOT_COUNT
        &&& !self.closed ==> forall|k: int| 0 <= k < SLOT_COUNT ==> #[trigger] self.locations@[k] as int == location_offset(self.source.data@, k)
        &&& !self.closed ==> forall|k: int| 0 <= k < SLOT_COUNT ==> #[trigger] self.timestamps@[k] as int == timestamp_entry(self.source.data@, k)
    }

    /// Opens a region file over `data`, reading both header tables. Fails
    /// with `TruncatedHeader` where `data` is shorter than the two tables.
    pub fn open(data: Vec<u8>) -> (r: Result<McaFile, McaError>)
        ensures
            data@.len() < HEADER_BYTES <==> r matches Err(McaError::TruncatedHeader),
            data@.len() >= HEADER_BYTES <==> r is Ok,
            r matches Ok(f) ==> f.wf() && f@ == (RegionView {
                open: true,
                content: data@,
                pos: 0,
                slots: Seq::new(SLOT_COUNT as nat, |k: int| Slot::Unresolved),
            }),
    {
        if data.len() < HEADER_BYTES {
            return Err(McaError::TruncatedHeader);
        }
        let locations = parse_locations(data.as_slice());
        let timestamps = parse_timestamps(data.as_slice());
        let mut slots: Vec<Slot> = Vec::with_capacity(SLOT_COUNT);
        let mut k: usize = 0;
        while k < SLOT_COUNT
            invariant
                k <= SLOT_COUNT,
                slots@ == Seq::new(k as nat, |j: int| Slot::Unresolved),
            decreases SLOT_COUNT - k,
        {
            slots.push(Slot::Unresolved);
            k = k + 1;
        }
        let f = McaFile { source: ByteSource::new(data), closed: false, locations, timestamps, slots };
        assert(f@.slots == Seq::new(SLOT_COUNT as nat, |k: int| Slot::Unresolved));
        Ok(f)
    }

    /// Whether the file is still open.
    pub fn is_open(&self) -> (r: bool)
        ensures
            r == self@.open,
    {
        !self.closed
    }

    /// The read position of the underlying source.
    pub fn position(&self) -> (r: u64)
        ensures
            r == self@.pos,
    {
        self.source.position()
    }

    /// Releases the source. Every later `read_chunk` on the grid fails with
    /// `Closed`.
    pub fn close(&mut self)
        requires
            old(self).wf(),
        ensures
            final(self).wf(),
            final(self)@ == (RegionView { open: false, content: Seq::empty(), pos: 0, ..old(self)@ }),
    {
        self.source = ByteSource::new(Vec::new());
        self.closed = true;
    }

    /// The chunk at grid coordinate (x, z): decoded on first access and
    /// cached, `None` where no chunk is stored. Cached results, present or
    /// absent, are returned without reading the source; failures are not
    /// cached. The source's read position is the same after the call.
    pub fn read_chunk(&mut self, posx: usize, posz: usize) -> (r: Result<Option<&Chunk>, McaError>)
        requires
            old(self).wf(),
        ensures
            final(self).wf(),
            read_chunk_post(old(self)@, posx as int, posz as int, r, final(self)@),
    {
        if posx >= GRID_SIDE || posz >= GRID_SIDE {
            return Err(McaError::OutOfRange);
        }
        if self.closed {
            return Err(McaError::Closed);
        }
        let k = posx * GRID_SIDE + posz;
        let resolved = match &self.slots[k] {
            Slot::Unresolved => false,
            _ => true,
        };
        if !resolved {
            let off = self.locations[k];
            if off == 0 {
                self.slots.set(k, Slot::Absent);
            } else {
                let timestamp = self.timestamps[k];
                match read_chunk_at(&mut self.source, off) {
                    Ok(Some((nbt, mode, size))) => {
                        self.slots.set(k, Slot::Present(Chunk { offset: off, size, timestamp, mode, nbt }));
                    },
                    Ok(None) => {},
                    Err(e) => {
                        return Err(e);
                    },
                }
            }
        }
        match &self.slots[k] {
            Slot::Present(c) => Ok(Some(c)),
            _ => Ok(None),
        }
    }
}

} // verus!
