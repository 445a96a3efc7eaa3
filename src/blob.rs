use std::sync::Arc;
use vstd::prelude::*;
use vstd::slice::slice_subrange;

verus! {

/// Value of four bytes read as a little-endian unsigned integer.
pub open spec fn le_u32(b: Seq<u8>) -> int {
    b[0] as int + 256 * b[1] as int + 65536 * b[2] as int + 16777216 * b[3] as int
}

/// Value of eight bytes read as a little-endian unsigned integer.
pub open spec fn le_u64(b: Seq<u8>) -> int {
    le_u32(b.subrange(0, 4)) + 4294967296 * le_u32(b.subrange(4, 8))
}

/// An immutable byte range that shares its storage with every copy made of it.
pub struct Blob {
    buf: Arc<Vec<u8>>,
    start: usize,
    end: usize,
}

impl View for Blob {
    type V = Seq<u8>;

    closed spec fn view(&self) -> Seq<u8> {
        (*self.buf)@.subrange(self.start as int, self.end as int)
    }
}

impl Blob {
    #[verifier::type_invariant]
    spec fn inv(&self) -> bool {
        self.start <= self.end <= (*self.buf)@.len()
    }

    /// A blob that owns the given bytes.
    pub fn from_vec(v: Vec<u8>) -> (r: Blob)
        ensures
            r@ == v@,
    {
        let end = v.len();
        let r = Blob { buf: Arc::new(v), start: 0, end };
        assert(r@ =~= v@);
        r
    }

    pub fn len(&self) -> (r: usize)
        ensures
            r == self@.len(),
    {
        proof {
            use_type_invariant(self);
        }
        self.end - self.start
    }

    pub fn is_empty(&self) -> (r: bool)
        ensures
            r == (self@.len() == 0),
    {
        self.len() == 0
    }

    /// The byte at index `i`.
    pub fn get(&self, i: usize) -> (r: u8)
        requires
            i < self@.len(),
        ensures
            r == self@[i as int],
    {
        proof {
            use_type_invariant(self);
        }
        self.buf[self.start + i]
    }

    /// A second handle on the same bytes.
    pub fn share(&self) -> (r: Blob)
        ensures
            r@ == self@,
    {
        proof {
            use_type_invariant(self);
        }
        Blob { buf: self.buf.clone(), start: self.start, end: self.end }
    }

    /// The bytes from `from` up to `to`, sharing storage with `self`.
    pub fn slice(&self, from: usize, to: usize) -> (r: Blob)
        requires
            from <= to <= self@.len(),
        ensures
            r@ == self@.subrange(from as int, to as int),
    {
        proof {
            use_type_invariant(self);
        }
        let r = Blob { buf: self.buf.clone(), start: self.start + from, end: self.start + to };
        assert(r@ =~= self@.subrange(from as int, to as int));
        r
    }

    /// The bytes as a plain slice.
    pub fn as_slice(&self) -> (r: &[u8])
        ensures
            r@ == self@,
    {
        proof {
            use_type_invariant(self);
        }
        slice_subrange(self.buf.as_slice(), self.start, self.end)
    }

    /// A copy of the bytes.
    pub fn to_vec(&self) -> (r: Vec<u8>)
        ensures
            r@ == self@,
    {
        let n = self.len();
        let mut out: Vec<u8> = Vec::with_capacity(n);
        let mut i: usize = 0;
        while i < n
            invariant
                n == self@.len(),
                i <= n,
                out@ == self@.subrange(0, i as int),
            decreases n - i,
        {
            out.push(self.get(i));
            i = i + 1;
            assert(out@ =~= self@.subrange(0, i as int));
        }
        assert(self@.subrange(0, n as int) =~= self@);
        out
    }

    /// The four bytes at `at`, read as a little-endian integer.
    pub fn u32_le_at(&self, at: usize) -> (r: u32)
        requires
            at + 4 <= self@.len(),
        ensures
            r == le_u32(self@.subrange(at as int, at + 4)),
    {
        let _n = self.len();
        let b0 = self.get(at) as u32;
        let b1 = self.get(at + 1) as u32;
        let b2 = self.get(at + 2) as u32;
        let b3 = self.get(at + 3) as u32;
        b0 + 256 * b1 + 65536 * b2 + 16777216 * b3
    }

    /// The eight bytes at `at`, read as a little-endian integer.
    pub fn u64_le_at(&self, at: usize) -> (r: u64)
        requires
            at + 8 <= self@.len(),
        ensures
            r == le_u64(self@.subrange(at as int, at + 8)),
    {
        let _n = self.len();
        let lo = self.u32_le_at(at) as u64;
        let hi = self.u32_le_at(at + 4) as u64;
        let ghost s = self@.subrange(at as int, at + 8);
        assert(s.subrange(0, 4) =~= self@.subrange(at as int, at + 4));
        assert(s.subrange(4, 8) =~= self@.subrange(at + 4, at + 8));
        lo + 4294967296 * hi
    }
}

} // verus!
