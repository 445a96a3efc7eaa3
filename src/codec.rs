use vstd::prelude::*;
use vstd::utf8::{decode_utf8, valid_utf8};

verus! {

/// Relies on `String::from_utf8`: it succeeds exactly on valid UTF-8, and the
/// string then holds the characters that the bytes encode.
#[verifier::external_body]
pub(crate) fn utf8_string(b: &[u8]) -> (r: Option<String>)
    ensures
        r is Some <==> valid_utf8(b@),
        r is Some ==> r->Some_0@ == decode_utf8(b@),
{
    String::from_utf8(b.to_vec()).ok()
}

} // verus!

verus! {

/// What a bzip2 decoder writes, at most `limit` bytes, when fed the whole of
/// `data`, and whether it met the end of the stream; `None` when it reports
/// an error.
pub uninterp spec fn bz2_decoded(data: Seq<u8>, limit: nat) -> Option<(Seq<u8>, bool)>;

/// What an lz4 frame decoder yields for the whole of `data`; `None` when it
/// reports an error.
pub uninterp spec fn lz4_decoded(data: Seq<u8>) -> Option<Seq<u8>>;

/// Relies on bzip2's `Decompress::decompress`: a fresh decoder, given all the
/// input and an output slice of `limit` bytes, writes `total_out` bytes into
/// it and returns `Status::StreamEnd` when it has met the end of the stream;
/// otherwise it fails with one of its `Error` values.
#[verifier::external_body]
pub(crate) fn bz2_decompress(data: &[u8], limit: u64) -> (r: Result<(Vec<u8>, bool), String>)
    ensures
        r is Ok <==> bz2_decoded(data@, limit as nat) is Some,
        r is Ok ==> r->Ok_0.0@ == bz2_decoded(data@, limit as nat)->Some_0.0 && r->Ok_0.1
            == bz2_decoded(data@, limit as nat)->Some_0.1,
        r is Ok ==> r->Ok_0.0@.len() <= limit,
{
    let mut out = vec![0u8; limit as usize];
    let mut decoder = bzip2::Decompress::new(false);
    match decoder.decompress(data, &mut out) {
        Ok(status) => {
            out.truncate(decoder.total_out() as usize);
            let ended = match status {
                bzip2::Status::StreamEnd => true,
                _ => false,
            };
            Ok((out, ended))
        },
        Err(e) => Err(e.to_string()),
    }
}

/// Relies on lz4's `Decoder` read through `std::io::copy`: the bytes of the
/// frame, or the error that the decoder reports.
#[verifier::external_body]
pub(crate) fn lz4_decompress(data: &[u8]) -> (r: Result<Vec<u8>, String>)
    ensures
        r is Ok <==> lz4_decoded(data@) is Some,
        r is Ok ==> r->Ok_0@ == lz4_decoded(data@)->Some_0,
{
    let mut out = Vec::new();
    let mut decoder = match lz4::Decoder::new(data) {
        Ok(d) => d,
        Err(e) => return Err(e.to_string()),
    };
    match std::io::copy(&mut decoder, &mut out) {
        Ok(_) => Ok(out),
        Err(e) => Err(e.to_string()),
    }
}

/// Value of a lower-case hex digit.
pub open spec fn hex_digit(c: u8) -> Option<int> {
    if 48 <= c <= 57 {
        Some(c - 48)
    } else if 97 <= c <= 102 {
        Some(c - 87)
    } else {
        None
    }
}

/// Every byte of `s` is a lower-case hex digit.
pub open spec fn is_lower_hex(s: Seq<u8>) -> bool {
    forall|i: int| 0 <= i < s.len() ==> (#[trigger] hex_digit(s[i])) is Some
}

/// The byte that the digits at `2 * i` and `2 * i + 1` of `s` spell.
pub open spec fn hex_byte(s: Seq<u8>, i: int) -> int {
    16 * hex_digit(s[2 * i])->Some_0 + hex_digit(s[2 * i + 1])->Some_0
}

/// The bytes that the lower-case hex text `s` spells.
pub open spec fn hex_decoded(s: Seq<u8>) -> Seq<u8> {
    Seq::new((s.len() / 2) as nat, |i: int| hex_byte(s, i) as u8)
}

/// Relies on `base16ct::lower::decode`: 32 lower-case hex digits decode to 16
/// bytes, high nibble first; any other byte is an encoding error.
#[verifier::external_body]
pub(crate) fn decode_md5(src: &[u8]) -> (r: Option<[u8; 16]>)
    requires
        src@.len() == 32,
    ensures
        r is Some <==> is_lower_hex(src@),
        r is Some ==> r->Some_0@ == hex_decoded(src@),
{
    let mut res = [0u8; 16];
    match base16ct::lower::decode(src, &mut res) {
        Ok(_) => Some(res),
        Err(_) => None,
    }
}

} // verus!
