//! A writer that fills a fixed byte buffer and drops what does not fit.
use vstd::prelude::*;
use vstd::slice::slice_subrange;
use vstd::string::StringSliceAdditionalSpecFns;

verus! {

/// Writes bytes into a buffer of fixed capacity, from the start, until it is
/// full; bytes that do not fit are dropped.
pub struct BytesWriter {
    buf: Vec<u8>,
    cursor: usize,
}

/// What writing `s` at the end of `w` leaves in a buffer of capacity `cap`: as
/// much of `s` as fits.
pub open spec fn appended(w: Seq<u8>, s: Seq<u8>, cap: nat) -> Seq<u8> {
    let room = cap - w.len();
    if s.len() <= room {
        w + s
    } else {
        w + s.take(room)
    }
}

impl BytesWriter {
    /// The write position lies within the buffer.
    pub closed spec fn wf(&self) -> bool {
        self.cursor <= self.buf@.len()
    }

    /// The bytes written so far.
    pub closed spec fn contents(&self) -> Seq<u8> {
        self.buf@.take(self.cursor as int)
    }

    /// How many bytes the buffer holds.
    pub closed spec fn cap(&self) -> nat {
        self.buf@.len()
    }

    /// A writer over `buf`, with nothing written.
    pub fn new(buf: Vec<u8>) -> (r: BytesWriter)
        ensures
            r.wf(),
            r.contents() == Seq::<u8>::empty(),
            r.cap() == buf@.len(),
    {
        let r = BytesWriter { buf, cursor: 0 };
        assert(r.contents() =~= Seq::<u8>::empty());
        r
    }

    /// The bytes written so far.
    pub fn as_bytes(&self) -> (r: &[u8])
        requires
            self.wf(),
        ensures
            r@ == self.contents(),
    {
        slice_subrange(self.buf.as_slice(), 0, self.cursor)
    }

    /// How many bytes the buffer holds.
    #[inline]
    pub fn capacity(&self) -> (r: usize)
        requires
            self.wf(),
        ensures
            r == self.cap(),
    {
        self.buf.len()
    }

    /// Forgets what was written.
    pub fn clear(&mut self)
        requires
            old(self).wf(),
        ensures
            final(self).wf(),
            final(self).contents() == Seq::<u8>::empty(),
            final(self).cap() == old(self).cap(),
    {
        self.cursor = 0;
        assert(self.contents() =~= Seq::<u8>::empty());
    }

    /// How many bytes were written.
    pub fn len(&self) -> (r: usize)
        requires
            self.wf(),
        ensures
            r == self.contents().len(),
            r <= self.cap(),
    {
        self.cursor
    }

    /// Whether nothing was written.
    pub fn empty(&self) -> (r: bool)
        requires
            self.wf(),
        ensures
            r == (self.contents().len() == 0),
    {
        self.cursor == 0
    }

    /// Whether the buffer is full.
    pub fn full(&self) -> (r: bool)
        requires
            self.wf(),
        ensures
            r == (self.contents().len() == self.cap()),
    {
        self.capacity() == self.cursor
    }

    /// Writes `b` if there is room, else drops it.
    pub fn write_byte(&mut self, b: u8)
        requires
            old(self).wf(),
        ensures
            final(self).wf(),
            final(self).cap() == old(self).cap(),
            final(self).contents() == appended(old(self).contents(), seq![b], old(self).cap()),
    {
        assert(self.contents().len() == self.cursor);
        let i = self.cursor;
        if i < self.buf.len() {
            self.buf.set(i, b);
            self.cursor = i + 1;
            assert(self.contents() =~= old(self).contents() + seq![b]);
        } else {
            assert(seq![b].take(0) =~= Seq::<u8>::empty());
            assert(old(self).contents() + Seq::<u8>::empty() =~= old(self).contents());
        }
    }

    /// Writes the low byte of `c` if there is room, else drops it.
    pub fn write_char(&mut self, c: char)
        requires
            old(self).wf(),
        ensures
            final(self).wf(),
            final(self).cap() == old(self).cap(),
            final(self).contents() == appended(
                old(self).contents(),
                seq![(c as u32) as u8],
                old(self).cap(),
            ),
    {
        self.write_byte((c as u32) as u8);
    }

    /// Writes the bytes of `s` that fit; the rest are dropped.
    pub fn write_str(&mut self, s: &str)
        requires
            old(self).wf(),
        ensures
            final(self).wf(),
            final(self).cap() == old(self).cap(),
            final(self).contents() == appended(old(self).contents(), s.spec_bytes(), old(self).cap()),
    {
        let bytes = s.as_bytes();
        let cap = self.buf.len();
        let start = self.cursor;
        let n: usize = if bytes.len() <= cap - start {
            bytes.len()
        } else {
            cap - start
        };
        let mut i: usize = 0;
        while i < n
            invariant
                i <= n,
                n <= bytes@.len(),
                start + n <= cap,
                self.buf@.len() == cap,
                cap == old(self).buf@.len(),
                self.cursor == start,
                start == old(self).cursor,
                forall|j: int| 0 <= j < start ==> self.buf@[j] == old(self).buf@[j],
                forall|j: int| 0 <= j < i ==> self.buf@[start + j] == bytes@[j],
            decreases n - i,
        {
            self.buf.set(start + i, bytes[i]);
            i = i + 1;
        }
        self.cursor = start + n;
        assert(self.contents() =~= appended(old(self).contents(), bytes@, old(self).cap()));
    }
}

} // verus!
