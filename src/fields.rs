use crate::blob::{le_u32, le_u64, Blob};
use crate::codec::utf8_string;
use crate::cursor::le_time;
use crate::error::BagError;
use vstd::prelude::*;
use vstd::string::StringSliceAdditionalSpecFns;
use vstd::utf8::{decode_utf8, valid_utf8};

verus! {

/// The byte of `=`, which ends a field's name.
pub const EQ_SIGN: u8 = 61;

/// Index of the first `=` in `r` at or after `from`, or -1 when there is none.
pub open spec fn find_eq(r: Seq<u8>, from: int) -> int
    decreases r.len() - from,
{
    if from < 0 || from >= r.len() {
        -1
    } else if r[from] == EQ_SIGN {
        from
    } else {
        find_eq(r, from + 1)
    }
}

/// One field at the front of a header: its name, its value and the rest of
/// the header.
pub open spec fn field_step(h: Seq<u8>) -> Result<(Seq<u8>, Seq<u8>, Seq<u8>), BagError> {
    if h.len() < 4 {
        Err(BagError::InvalidHeader)
    } else if h.len() - 4 < le_u32(h.subrange(0, 4)) {
        Err(BagError::InvalidHeader)
    } else {
        let n = le_u32(h.subrange(0, 4));
        let rec = h.subrange(4, 4 + n);
        let d = find_eq(rec, 0);
        if d < 0 {
            Err(BagError::InvalidHeader)
        } else if !valid_utf8(rec.subrange(0, d)) {
            Err(BagError::InvalidHeader)
        } else {
            Ok((rec.subrange(0, d), rec.subrange(d + 1, n), h.subrange(4 + n, h.len() as int)))
        }
    }
}

/// Splits off the first field of a header: its name, its value and the rest
/// of the header. The name must be valid UTF-8.
pub fn read_field(h: &Blob) -> (r: Result<(Blob, Blob, Blob), BagError>)
    ensures
        field_step(h@) is Ok <==> r is Ok,
        field_step(h@) is Err ==> r == Err::<(Blob, Blob, Blob), BagError>(
            field_step(h@)->Err_0,
        ),
        r is Ok ==> ({
            let (n, v, rest) = field_step(h@)->Ok_0;
            &&& r->Ok_0.0@ == n
            &&& r->Ok_0.1@ == v
            &&& r->Ok_0.2@ == rest
        }),
{
    let len = h.len();
    if len < 4 {
        return Err(BagError::InvalidHeader);
    }
    let n = h.u32_le_at(0) as usize;
    if len - 4 < n {
        return Err(BagError::InvalidHeader);
    }
    let rec = h.slice(4, 4 + n);
    let mut d: usize = 0;
    while d < n && rec.get(d) != EQ_SIGN
        invariant
            rec@.len() == n,
            d <= n,
            forall|j: int| 0 <= j < d ==> rec@[j] != EQ_SIGN,
            find_eq(rec@, 0) == find_eq(rec@, d as int),
        decreases n - d,
    {
        d = d + 1;
    }
    if d == n {
        return Err(BagError::InvalidHeader);
    }
    let name_bytes = rec.slice(0, d);
    if utf8_string(name_bytes.as_slice()).is_none() {
        return Err(BagError::InvalidHeader);
    }
    let val = rec.slice(d + 1, n);
    let rest = h.slice(4 + n, len);
    Ok((name_bytes, val, rest))
}

/// Whether `b` holds exactly the ASCII text `s`.
pub open spec fn is_name(b: Seq<u8>, s: &str) -> bool {
    b == s.spec_bytes()
}

/// Whether the bytes of `b` are those of the text `s`.
pub fn name_is(b: &Blob, s: &str) -> (r: bool)
    ensures
        r == is_name(b@, s),
{
    let t = s.as_bytes();
    let n = b.len();
    if n != t.len() {
        return false;
    }
    let mut i: usize = 0;
    while i < n
        invariant
            n == b@.len(),
            n == t@.len(),
            t@ == s.spec_bytes(),
            i <= n,
            forall|j: int| 0 <= j < i ==> b@[j] == t@[j],
        decreases n - i,
    {
        if b.get(i) != t[i] {
            return false;
        }
        i = i + 1;
    }
    assert(b@ =~= t@);
    true
}

/// One step of a record header's fold on its `op` field.
pub open spec fn op_step<V>(h: V, val: Seq<u8>, op: u8) -> Result<V, BagError> {
    if op_ok(val, op) {
        Ok(h)
    } else {
        Err(BagError::InvalidRecord)
    }
}

/// The `op` field's check: a single byte equal to `op`.
pub open spec fn op_ok(val: Seq<u8>, op: u8) -> bool {
    val.len() == 1 && val[0] == op
}

/// Checks that an `op` field's value is the single byte `op`.
pub fn check_op(val: &Blob, op: u8) -> (r: Result<(), BagError>)
    ensures
        op_ok(val@, op) ==> r is Ok,
        !op_ok(val@, op) ==> r == Err::<(), BagError>(BagError::InvalidRecord),
{
    if val.len() == 1 && val.get(0) == op {
        Ok(())
    } else {
        Err(BagError::InvalidRecord)
    }
}

/// A field that a header does not know. Formats gain fields over time, so
/// such a field is passed over and is no error.
pub fn unknown_field(name: &Blob, val: &Blob) {
}

/// Setting a `u32` field: four bytes, at most once.
pub open spec fn set_u32(f: Option<u32>, v: Seq<u8>) -> Result<Option<u32>, BagError> {
    if v.len() != 4 || f is Some {
        Err(BagError::InvalidHeader)
    } else {
        Ok(Some(le_u32(v) as u32))
    }
}

/// Setting a `u64` field: eight bytes, at most once.
pub open spec fn set_u64(f: Option<u64>, v: Seq<u8>) -> Result<Option<u64>, BagError> {
    if v.len() != 8 || f is Some {
        Err(BagError::InvalidHeader)
    } else {
        Ok(Some(le_u64(v) as u64))
    }
}

/// Setting a time field: eight bytes, at most once, held in nanoseconds.
pub open spec fn set_time(f: Option<u64>, v: Seq<u8>) -> Result<Option<u64>, BagError> {
    if v.len() != 8 || f is Some {
        Err(BagError::InvalidHeader)
    } else {
        Ok(Some(le_time(v) as u64))
    }
}

/// Setting a text field: valid UTF-8, at most once.
pub open spec fn set_str(f: Option<Seq<char>>, v: Seq<u8>) -> Result<Option<Seq<char>>, BagError> {
    if f is Some || !valid_utf8(v) {
        Err(BagError::InvalidHeader)
    } else {
        Ok(Some(decode_utf8(v)))
    }
}

pub open spec fn opt_str_view(f: Option<String>) -> Option<Seq<char>> {
    match f {
        Some(s) => Some(s@),
        None => None,
    }
}

pub fn set_field_u32(field: &mut Option<u32>, val: &Blob) -> (r: Result<(), BagError>)
    ensures
        match set_u32(*old(field), val@) {
            Ok(f) => r is Ok && *final(field) == f,
            Err(e) => r == Err::<(), BagError>(e) && *final(field) == *old(field),
        },
{
    if val.len() != 4 || field.is_some() {
        return Err(BagError::InvalidHeader);
    }
    proof {
        assert(val@.subrange(0, 4) =~= val@);
    }
    *field = Some(val.u32_le_at(0));
    Ok(())
}

pub fn set_field_u64(field: &mut Option<u64>, val: &Blob) -> (r: Result<(), BagError>)
    ensures
        match set_u64(*old(field), val@) {
            Ok(f) => r is Ok && *final(field) == f,
            Err(e) => r == Err::<(), BagError>(e) && *final(field) == *old(field),
        },
{
    if val.len() != 8 || field.is_some() {
        return Err(BagError::InvalidHeader);
    }
    proof {
        assert(val@.subrange(0, 8) =~= val@);
    }
    *field = Some(val.u64_le_at(0));
    Ok(())
}

pub fn set_field_time(field: &mut Option<u64>, val: &Blob) -> (r: Result<(), BagError>)
    ensures
        match set_time(*old(field), val@) {
            Ok(f) => r is Ok && *final(field) == f,
            Err(e) => r == Err::<(), BagError>(e) && *final(field) == *old(field),
        },
{
    if val.len() != 8 || field.is_some() {
        return Err(BagError::InvalidHeader);
    }
    let s = val.u32_le_at(0) as u64;
    let ns = val.u32_le_at(4) as u64;
    proof {
        assert(val@.subrange(0, 8) =~= val@);
    }
    *field = Some(1_000_000_000 * s + ns);
    Ok(())
}

pub fn set_field_str(field: &mut Option<String>, val: &Blob) -> (r: Result<(), BagError>)
    ensures
        match set_str(opt_str_view(*old(field)), val@) {
            Ok(f) => r is Ok && opt_str_view(*final(field)) == f,
            Err(e) => r == Err::<(), BagError>(e) && *final(field) == *old(field),
        },
{
    if field.is_some() {
        return Err(BagError::InvalidHeader);
    }
    match utf8_string(val.as_slice()) {
        Some(s) => {
            *field = Some(s);
            Ok(())
        },
        None => Err(BagError::InvalidHeader),
    }
}

} // verus!

verus! {

/// The fields of a record header gathered one by one, as each record kind
/// reads them.
pub trait HeaderFields: Sized + View {
    /// The fields before any is read.
    spec fn spec_empty() -> Self::V;

    /// The effect of one field on the fields gathered so far.
    spec fn spec_step(h: Self::V, name: Seq<u8>, val: Seq<u8>) -> Result<Self::V, BagError>;

    fn empty() -> (r: Self)
        ensures
            r@ == Self::spec_empty(),
    ;

    fn process_field(&mut self, name: &Blob, val: &Blob) -> (r: Result<(), BagError>)
        ensures
            match Self::spec_step(old(self)@, name@, val@) {
                Ok(h) => r is Ok && final(self)@ == h,
                Err(e) => r == Err::<(), BagError>(e),
            },
    ;
}

/// The fields gathered from a header buffer, starting from `h`; the first
/// error met, of the framing or of a field, ends it.
pub open spec fn fold_fields<H: HeaderFields>(h: H::V, bytes: Seq<u8>) -> Result<H::V, BagError>
    decreases bytes.len(),
{
    if bytes.len() == 0 {
        Ok(h)
    } else {
        match field_step(bytes) {
            Err(e) => Err(e),
            Ok(t) => {
                if t.2.len() >= bytes.len() {
                    Err(BagError::InvalidHeader)
                } else {
                    match H::spec_step(h, t.0, t.1) {
                        Ok(h2) => fold_fields::<H>(h2, t.2),
                        Err(e) => Err(e),
                    }
                }
            },
        }
    }
}

/// Reads every field of a header buffer into `H`.
pub fn read_fields<H: HeaderFields>(header: &Blob) -> (r: Result<H, BagError>)
    ensures
        match fold_fields::<H>(H::spec_empty(), header@) {
            Ok(v) => r is Ok && r->Ok_0@ == v,
            Err(e) => r is Err && r->Err_0 == e,
        },
{
    let mut h = H::empty();
    let mut rest = header.share();
    while !rest.is_empty()
        invariant
            fold_fields::<H>(H::spec_empty(), header@) == fold_fields::<H>(h@, rest@),
        decreases rest@.len(),
    {
        let (n, v, r2) = match read_field(&rest) {
            Ok(t) => t,
            Err(e) => return Err(e),
        };
        match h.process_field(&n, &v) {
            Ok(()) => {},
            Err(e) => return Err(e),
        }
        rest = r2;
    }
    Ok(h)
}

/// The `op` byte of a header: the value of its first `op` field, which must
/// be one byte long. `None` when the header has no such field.
pub open spec fn find_op(bytes: Seq<u8>) -> Result<Option<u8>, BagError>
    decreases bytes.len(),
{
    if bytes.len() == 0 {
        Ok(None)
    } else {
        match field_step(bytes) {
            Err(e) => Err(e),
            Ok(t) => {
                if is_name(t.0, "op") {
                    if t.1.len() == 1 {
                        Ok(Some(t.1[0]))
                    } else {
                        Err(BagError::InvalidRecord)
                    }
                } else if t.2.len() >= bytes.len() {
                    Err(BagError::InvalidHeader)
                } else {
                    find_op(t.2)
                }
            },
        }
    }
}

/// Looks for the `op` field of a header.
pub fn read_op(header: &Blob) -> (r: Result<Option<u8>, BagError>)
    ensures
        r == find_op(header@),
{
    let mut rest = header.share();
    while !rest.is_empty()
        invariant
            find_op(header@) == find_op(rest@),
        decreases rest@.len(),
    {
        let (n, v, r2) = match read_field(&rest) {
            Ok(t) => t,
            Err(e) => return Err(e),
        };
        if name_is(&n, "op") {
            if v.len() == 1 {
                return Ok(Some(v.get(0)));
            } else {
                return Err(BagError::InvalidRecord);
            }
        }
        rest = r2;
    }
    Ok(None)
}

} // verus!
