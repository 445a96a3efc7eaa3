use crate::blob::le_u32;
use crate::cursor::{framed_end, time_ns};
use crate::error::BagError;
use crate::fields::{field_step, find_eq};
use crate::record::{record_at, RecordView};
use crate::sections::{chunk_sought, ChunkRecordsIterator};
use vstd::arithmetic::div_mod::lemma_fundamental_div_mod_converse;
use vstd::prelude::*;

verus! {

/// A time stored as `s` seconds and `ns` nanoseconds, with `ns` under a
/// second, is recovered from its count of nanoseconds: the seconds by
/// division by 10^9 and the nanoseconds as the remainder.
pub proof fn lemma_time_round_trip(s: u32, ns: u32)
    requires
        ns < 1_000_000_000,
    ensures
        time_ns(s as int, ns as int) / 1_000_000_000 == s,
        time_ns(s as int, ns as int) % 1_000_000_000 == ns,
{
    lemma_fundamental_div_mod_converse(time_ns(s as int, ns as int), 1_000_000_000, s as int, ns as int);
}

/// The four bytes of `x` in little-endian order.
pub open spec fn u32_le_bytes(x: int) -> Seq<u8> {
    seq![
        (x % 256) as u8,
        ((x / 256) % 256) as u8,
        (((x / 256) / 256) % 256) as u8,
        ((((x / 256) / 256) / 256) % 256) as u8,
    ]
}

/// Writing back the value of four bytes gives those bytes.
pub proof fn lemma_le_u32_bytes(b: Seq<u8>)
    requires
        b.len() == 4,
    ensures
        u32_le_bytes(le_u32(b)) == b,
{
    let x = le_u32(b);
    let x1 = b[1] as int + 256 * b[2] as int + 65536 * b[3] as int;
    let x2 = b[2] as int + 256 * b[3] as int;
    lemma_fundamental_div_mod_converse(x, 256, x1, b[0] as int);
    lemma_fundamental_div_mod_converse(x1, 256, x2, b[1] as int);
    lemma_fundamental_div_mod_converse(x2, 256, b[3] as int, b[2] as int);
    lemma_fundamental_div_mod_converse(b[3] as int, 256, 0, b[3] as int);
    assert(u32_le_bytes(x) =~= b);
}

/// How a field is written in a header: the length of `name=value` in four
/// little-endian bytes, then `name=value`.
pub open spec fn field_framing(name: Seq<u8>, value: Seq<u8>) -> Seq<u8> {
    u32_le_bytes((name.len() + 1 + value.len()) as int) + name + seq![61u8] + value
}

/// The framings of the fields of a header, one after another, or `None`
/// when reading the fields meets an error.
pub open spec fn field_framings(h: Seq<u8>) -> Option<Seq<u8>>
    decreases h.len(),
{
    if h.len() == 0 {
        Some(Seq::empty())
    } else {
        match field_step(h) {
            Err(_) => None,
            Ok(t) => if t.2.len() >= h.len() {
                None
            } else {
                match field_framings(t.2) {
                    Some(rest) => Some(field_framing(t.0, t.1) + rest),
                    None => None,
                }
            },
        }
    }
}

proof fn lemma_find_eq(r: Seq<u8>, from: int)
    requires
        0 <= from,
    ensures
        find_eq(r, from) == -1 || (from <= find_eq(r, from) < r.len() && r[find_eq(r, from)]
            == 61),
    decreases r.len() - from,
{
    if from < r.len() && r[from] != 61 {
        lemma_find_eq(r, from + 1);
    }
}

/// Reading the fields of a header loses nothing: when every field reads,
/// writing each back as `length, name, '=', value` gives the header again.
pub proof fn lemma_fields_cover_header(h: Seq<u8>)
    requires
        field_framings(h) is Some,
    ensures
        field_framings(h) == Some(h),
    decreases h.len(),
{
    if h.len() > 0 {
        let t = field_step(h)->Ok_0;
        lemma_fields_cover_header(t.2);
        let n = le_u32(h.subrange(0, 4));
        let rec = h.subrange(4, 4 + n);
        let d = find_eq(rec, 0);
        lemma_find_eq(rec, 0);
        lemma_le_u32_bytes(h.subrange(0, 4));
        assert(t.0.len() + 1 + t.1.len() == n);
        assert(rec =~= t.0 + seq![61u8] + t.1);
        assert(h =~= h.subrange(0, 4) + rec + t.2);
        assert(field_framing(t.0, t.1) + t.2 =~= h);
    }
}

/// Up to `n` records read one after another from position `p`, stopping
/// after the first error or at the end.
pub open spec fn records_from(b: Seq<u8>, p: int, n: nat) -> Seq<
    Result<(RecordView, int), BagError>,
>
    decreases n,
{
    if n == 0 || p >= b.len() {
        Seq::empty()
    } else {
        match record_at(b, p) {
            Ok((v, e)) => seq![Ok((v, e))] + records_from(b, e, (n - 1) as nat),
            Err(e) => seq![Err(e)],
        }
    }
}

/// A seek forgets where the iterator stood: two iterators over the same
/// section, each sought with success to `pos` whatever they had read before,
/// end in the same state, so the same records follow. Seeking to `pos` now
/// or after more reads, or twice in a row, makes no difference.
pub proof fn lemma_seek_forgets(
    a0: ChunkRecordsIterator,
    a1: ChunkRecordsIterator,
    b0: ChunkRecordsIterator,
    b1: ChunkRecordsIterator,
    pos: u64,
)
    requires
        a0.bytes() == b0.bytes(),
        a0.offset() == b0.offset(),
        chunk_sought(a0, a1, pos),
        chunk_sought(b0, b1, pos),
    ensures
        a1.bytes() == b1.bytes(),
        a1.offset() == b1.offset(),
        a1.at() == b1.at(),
        forall|n: nat| records_from(a1.bytes(), a1.at(), n) == records_from(b1.bytes(), b1.at(), n),
{
}

/// A record spans its two length prefixes and the bytes they announce: it
/// ends `4 + header_len + 4 + data_len` bytes after it starts.
pub proof fn lemma_record_span(b: Seq<u8>, p: int)
    requires
        record_at(b, p) is Ok,
    ensures
        ({
            let q = framed_end(b, p);
            record_at(b, p)->Ok_0.1 == p + 4 + le_u32(b.subrange(p, p + 4)) + 4 + le_u32(
                b.subrange(q, q + 4),
            )
        }),
{
}

} // verus!
