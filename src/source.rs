//! An in-memory byte source with a seekable cursor.
use vstd::prelude::*;

verus! {

/// The bytes of a region file and a read position into them. The position
/// may lie past the end, as a file's may; reads from there fail.
pub struct ByteSource {
    pub data: Vec<u8>,
    pub pos: u64,
}

impl ByteSource {
    /// A source over `data`, positioned at its start.
    pub fn new(data: Vec<u8>) -> (r: ByteSource)
        ensures
            r.data@ == data@,
            r.pos == 0,
    {
        ByteSource { data, pos: 0 }
    }

    /// Number of bytes in the source.
    pub fn len(&self) -> (r: usize)
        ensures
            r == self.data@.len(),
    {
        self.data.len()
    }

    /// Current read position.
    pub fn position(&self) -> (r: u64)
        ensures
            r == self.pos,
    {
        self.pos
    }

    /// Moves the read position to `pos`.
    pub fn seek(&mut self, pos: u64)
        ensures
            final(self).data@ == old(self).data@,
            final(self).pos == pos,
    {
        self.pos = pos;
    }

    /// Reads exactly `n` bytes at the read position and moves past them.
    /// Fails, with the position unchanged, where fewer than `n` remain.
    pub fn read_exact(&mut self, n: usize) -> (r: Option<Vec<u8>>)
        ensures
            final(self).data@ == old(self).data@,
            old(self).pos + n <= old(self).data@.len() <==> r is Some,
            r is Some ==> r->0@ == old(self).data@.subrange(old(self).pos as int, old(self).pos + n),
            r is Some ==> final(self).pos == old(self).pos + n,
            r is None ==> final(self).pos == old(self).pos,
    {
        let len = self.data.len();
        if self.pos > len as u64 || n > len - self.pos as usize {
            return None;
        }
        let start = self.pos as usize;
        let mut out: Vec<u8> = Vec::with_capacity(n);
        let mut i: usize = 0;
        while i < n
            invariant
                start + n <= len,
                len == self.data@.len(),
                i <= n,
                out@ == self.data@.subrange(start as int, start + i),
            decreases n - i,
        {
            out.push(self.data[start + i]);
            i = i + 1;
        }
        self.pos = (start + n) as u64;
        Some(out)
    }
}

} // verus!
