use crate::blob::{le_u32, Blob};
use crate::error::BagError;
use vstd::prelude::*;

verus! {

/// Nanoseconds since the UNIX epoch of a time stored as seconds and
/// nanoseconds.
pub open spec fn time_ns(s: int, ns: int) -> int {
    1_000_000_000 * s + ns
}

/// Value of eight bytes read as a time: two little-endian `u32`, seconds
/// first.
pub open spec fn le_time(b: Seq<u8>) -> int {
    time_ns(le_u32(b.subrange(0, 4)), le_u32(b.subrange(4, 8)))
}

/// A read position inside an immutable byte range.
pub struct Cursor {
    data: Blob,
    pos: usize,
}

impl Cursor {
    #[verifier::type_invariant]
    spec fn inv(&self) -> bool {
        self.pos <= self.data@.len()
    }

    /// The bytes read by this cursor.
    pub closed spec fn bytes(&self) -> Seq<u8> {
        self.data@
    }

    /// The position of the next read.
    pub closed spec fn at(&self) -> int {
        self.pos as int
    }

    /// The position lies within the bytes.
    pub open spec fn at_valid(&self) -> bool {
        0 <= self.at() <= self.bytes().len()
    }

    pub fn new(data: Blob) -> (r: Cursor)
        ensures
            r.at_valid(),
            r.bytes() == data@,
            r.at() == 0,
    {
        Cursor { data, pos: 0 }
    }

    /// Moves to `pos`; fails when `pos` is past the end.
    pub fn seek(&mut self, pos: u64) -> (r: Result<(), BagError>)
        ensures
            final(self).bytes() == old(self).bytes(),
            final(self).at_valid(),
            pos <= old(self).bytes().len() ==> r is Ok && final(self).at() == pos,
            pos > old(self).bytes().len() ==> r == Err::<(), BagError>(BagError::OutOfBounds)
                && final(self).at() == old(self).at(),
    {
        proof {
            use_type_invariant(&*self);
        }
        let len = self.data.len();
        if pos > len as u64 {
            return Err(BagError::OutOfBounds);
        }
        self.pos = pos as usize;
        Ok(())
    }

    pub fn pos(&self) -> (r: u64)
        ensures
            r == self.at(),
            self.at_valid(),
    {
        proof {
            use_type_invariant(self);
        }
        self.pos as u64
    }

    pub fn len(&self) -> (r: u64)
        ensures
            r == self.bytes().len(),
    {
        self.data.len() as u64
    }

    /// Number of bytes left after the position.
    pub fn left(&self) -> (r: u64)
        ensures
            r == self.bytes().len() - self.at(),
    {
        proof {
            use_type_invariant(self);
        }
        (self.data.len() - self.pos) as u64
    }

    /// The next `n` bytes, sharing storage with the cursor's bytes.
    pub fn next_bytes(&mut self, n: u64) -> (r: Result<Blob, BagError>)
        ensures
            final(self).bytes() == old(self).bytes(),
            final(self).at_valid(),
            old(self).at() + n <= old(self).bytes().len() ==> r is Ok
                && r->Ok_0@ == old(self).bytes().subrange(old(self).at(), old(self).at() + n)
                && final(self).at() == old(self).at() + n,
            old(self).at() + n > old(self).bytes().len() ==> r == Err::<Blob, BagError>(
                BagError::OutOfBounds,
            ) && final(self).at() == old(self).at(),
    {
        proof {
            use_type_invariant(&*self);
        }
        let left = self.data.len() - self.pos;
        if n > left as u64 {
            return Err(BagError::OutOfBounds);
        }
        let s = self.pos;
        let e = s + n as usize;
        self.pos = e;
        Ok(self.data.slice(s, e))
    }

    /// The next four bytes read as a little-endian `u32`.
    pub fn next_u32(&mut self) -> (r: Result<u32, BagError>)
        ensures
            final(self).bytes() == old(self).bytes(),
            final(self).at_valid(),
            old(self).at() + 4 <= old(self).bytes().len() ==> r is Ok && r->Ok_0 == le_u32(
                old(self).bytes().subrange(old(self).at(), old(self).at() + 4),
            ) && final(self).at() == old(self).at() + 4,
            old(self).at() + 4 > old(self).bytes().len() ==> r == Err::<u32, BagError>(
                BagError::OutOfBounds,
            ) && final(self).at() == old(self).at(),
    {
        proof {
            use_type_invariant(&*self);
        }
        if self.data.len() - self.pos < 4 {
            return Err(BagError::OutOfBounds);
        }
        let v = self.data.u32_le_at(self.pos);
        self.pos = self.pos + 4;
        Ok(v)
    }

    /// A length-prefixed blob: a little-endian `u32` length, then that many
    /// bytes.
    pub fn next_chunk(&mut self) -> (r: Result<Blob, BagError>)
        ensures
            final(self).bytes() == old(self).bytes(),
            final(self).at_valid(),
            r is Ok <==> framed_at(old(self).bytes(), old(self).at()),
            r is Ok ==> r->Ok_0@ == framed_body(old(self).bytes(), old(self).at())
                && final(self).at() == framed_end(old(self).bytes(), old(self).at()),
            r is Err ==> r == Err::<Blob, BagError>(BagError::OutOfBounds),
    {
        let n = self.next_u32()?;
        self.next_bytes(n as u64)
    }

    /// The next eight bytes read as a time, in nanoseconds.
    pub fn next_time(&mut self) -> (r: Result<u64, BagError>)
        ensures
            final(self).bytes() == old(self).bytes(),
            final(self).at_valid(),
            old(self).at() + 8 <= old(self).bytes().len() ==> r is Ok && r->Ok_0 == le_time(
                old(self).bytes().subrange(old(self).at(), old(self).at() + 8),
            ) && final(self).at() == old(self).at() + 8,
            old(self).at() + 8 > old(self).bytes().len() ==> r == Err::<u64, BagError>(
                BagError::OutOfBounds,
            ),
    {
        let ghost b = self.bytes();
        let ghost p = self.at();
        let s = self.next_u32()? as u64;
        let ns = self.next_u32()? as u64;
        proof {
            let t = b.subrange(p, p + 8);
            assert(t.subrange(0, 4) =~= b.subrange(p, p + 4));
            assert(t.subrange(4, 8) =~= b.subrange(p + 4, p + 8));
        }
        Ok(1_000_000_000 * s + ns)
    }
}

/// A length prefix fits at `pos`, and so does the blob it announces.
pub open spec fn framed_at(b: Seq<u8>, pos: int) -> bool {
    &&& pos + 4 <= b.len()
    &&& pos + 4 + le_u32(b.subrange(pos, pos + 4)) <= b.len()
}

/// Position just after the length-prefixed blob at `pos`.
pub open spec fn framed_end(b: Seq<u8>, pos: int) -> int {
    pos + 4 + le_u32(b.subrange(pos, pos + 4))
}

/// The body of the length-prefixed blob at `pos`.
pub open spec fn framed_body(b: Seq<u8>, pos: int) -> Seq<u8> {
    b.subrange(pos + 4, framed_end(b, pos))
}

} // verus!
