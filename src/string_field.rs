//! The optional text field: a presence byte, then a LEB128 length and UTF-8 bytes.
use vstd::prelude::*;
use vstd::utf8::{decode_utf8, valid_utf8};
use crate::bytes::DecodeError;

verus! {

/// Presence byte of an absent string.
pub const ABSENT: u8 = 0x00;

/// Presence byte of a string that follows.
pub const PRESENT: u8 = 0x0B;

/// The most bytes a LEB128 length may take (enough for 128 bits).
pub const LEB128_MAX_BYTES: usize = 19;

/// Index of the first byte of `s` without the continuation bit, or `s.len()`.
pub open spec fn leb_stop(s: Seq<u8>) -> nat
    decreases s.len(),
{
    if s.len() == 0 {
        0
    } else if s[0] < 0x80 {
        0
    } else {
        1 + leb_stop(s.drop_first())
    }
}

/// The value of the LEB128 groups in `s`, least significant first.
pub open spec fn leb_value(s: Seq<u8>) -> nat
    decreases s.len(),
{
    if s.len() == 0 {
        0
    } else {
        (s[0] % 128) as nat + 128 * leb_value(s.drop_first())
    }
}

/// Whether `s` starts with a complete LEB128 number that fits in 128 bits.
pub open spec fn leb_ok(s: Seq<u8>) -> bool {
    leb_stop(s) < s.len() && leb_stop(s) < LEB128_MAX_BYTES
}

/// The number at the start of `s`, wrapped to 128 bits as the reader does.
pub open spec fn leb_number(s: Seq<u8>) -> int {
    leb_value(s.take(leb_stop(s) + 1int)) as int % (u128::MAX as int + 1)
}

/// Relies on nom_leb128::leb128_u128: it reads groups until one without the
/// continuation bit, fails on running out of input or on a 19th group that
/// continues, and ORs each group into a `u128` shifted by 7 bits per group.
/// Returns the number and the count of bytes left after it.
#[verifier::external_body]
fn leb128_u128(input: &[u8]) -> (r: Option<(u128, usize)>)
    ensures
        r.is_some() == leb_ok(input@),
        r matches Some((v, rest)) ==> v as int == leb_number(input@) && rest == input@.len()
            - leb_stop(input@) - 1,
{
    match nom_leb128::leb128_u128::<&[u8], nom::error::Error<&[u8]>>(input) {
        Ok((rest, v)) => Some((v, rest.len())),
        Err(_) => None,
    }
}

/// Relies on std::str::from_utf8: it succeeds exactly on valid UTF-8 and keeps
/// the characters.
#[verifier::external_body]
fn utf8_str(b: &[u8]) -> (r: Option<&str>)
    ensures
        r.is_some() == valid_utf8(b@),
        r matches Some(s) ==> s@ == decode_utf8(b@),
{
    std::str::from_utf8(b).ok()
}

/// The bytes of the string field at `pos`, with the position after it.
pub open spec fn string_field_bytes(s: Seq<u8>, pos: int) -> Result<(Option<Seq<u8>>, int), DecodeError> {
    if pos < 0 || pos >= s.len() {
        Err(DecodeError::Truncated)
    } else if s[pos] == ABSENT {
        Ok((None, pos + 1))
    } else if s[pos] != PRESENT {
        Err(DecodeError::BadPresenceByte)
    } else {
        let rest = s.subrange(pos + 1, s.len() as int);
        if !leb_ok(rest) {
            if rest.len() < LEB128_MAX_BYTES {
                Err(DecodeError::Truncated)
            } else {
                Err(DecodeError::BadLength)
            }
        } else {
            let start = pos + 1 + leb_stop(rest) + 1;
            let n = leb_number(rest);
            if n > s.len() - start {
                Err(DecodeError::Truncated)
            } else if !valid_utf8(s.subrange(start, start + n)) {
                Err(DecodeError::InvalidUtf8)
            } else {
                Ok((Some(s.subrange(start, start + n)), start + n))
            }
        }
    }
}

/// What the string field at `pos` decodes to, with the position after it.
pub open spec fn string_field(s: Seq<u8>, pos: int) -> Result<(Option<Seq<char>>, int), DecodeError> {
    match string_field_bytes(s, pos) {
        Ok((Some(b), p)) => Ok((Some(decode_utf8(b)), p)),
        Ok((None, p)) => Ok((None, p)),
        Err(e) => Err(e),
    }
}

/// Finds the string field at `pos`: `None` for an absent string, else its
/// bytes, which are valid UTF-8.
pub fn parse_string_bytes(data: &[u8], pos: usize) -> (r: Result<(Option<&[u8]>, usize), DecodeError>)
    ensures
        match (r, string_field_bytes(data@, pos as int)) {
            (Ok((v, p)), Ok((w, q))) => p == q && match (v, w) {
                (None, None) => true,
                (Some(a), Some(b)) => a@ == b,
                _ => false,
            },
            (Err(e), Err(f)) => e == f,
            _ => false,
        },
{
    if pos >= data.len() {
        return Err(DecodeError::Truncated);
    }
    let presence = data[pos];
    if presence == ABSENT {
        return Ok((None, pos + 1));
    }
    if presence != PRESENT {
        return Err(DecodeError::BadPresenceByte);
    }
    let rest = slice_from(data, pos + 1);
    match leb128_u128(rest) {
        None => {
            if rest.len() < LEB128_MAX_BYTES {
                Err(DecodeError::Truncated)
            } else {
                Err(DecodeError::BadLength)
            }
        },
        Some((n, left)) => {
            let start = data.len() - left;
            if n > left as u128 {
                return Err(DecodeError::Truncated);
            }
            let len = n as usize;
            let text = slice_range(data, start, start + len);
            match utf8_str(text) {
                None => Err(DecodeError::InvalidUtf8),
                Some(_) => Ok((Some(text), start + len)),
            }
        },
    }
}

/// Decodes the string field at `pos`: `None` for an absent string, else its text.
pub fn parse_string(data: &[u8], pos: usize) -> (r: Result<(Option<String>, usize), DecodeError>)
    ensures
        match (r, string_field(data@, pos as int)) {
            (Ok((v, p)), Ok((w, q))) => p == q && match (v, w) {
                (None, None) => true,
                (Some(a), Some(b)) => a@ == b,
                _ => false,
            },
            (Err(e), Err(f)) => e == f,
            _ => false,
        },
{
    match parse_string_bytes(data, pos) {
        Err(e) => Err(e),
        Ok((None, p)) => Ok((None, p)),
        Ok((Some(b), p)) => match utf8_str(b) {
            Some(t) => Ok((Some(t.to_owned()), p)),
            None => Err(DecodeError::InvalidUtf8),
        },
    }
}

/// An absent string takes its presence byte alone, whatever follows it.
pub proof fn lemma_absent_string(s: Seq<u8>, pos: int)
    requires
        0 <= pos < s.len(),
        s[pos] == ABSENT,
    ensures
        string_field(s, pos) == Ok::<(Option<Seq<char>>, int), DecodeError>((None, pos + 1)),
{
}

/// A presence byte other than 0x00 and 0x0B is refused, whatever follows it.
pub proof fn lemma_bad_presence(s: Seq<u8>, pos: int)
    requires
        0 <= pos < s.len(),
        s[pos] != ABSENT,
        s[pos] != PRESENT,
    ensures
        string_field(s, pos) == Err::<(Option<Seq<char>>, int), DecodeError>(DecodeError::BadPresenceByte),
{
}

/// The bytes of `data` from `start` on.
pub fn slice_from(data: &[u8], start: usize) -> (r: &[u8])
    requires
        start <= data@.len(),
    ensures
        r@ == data@.subrange(start as int, data@.len() as int),
{
    slice_range(data, start, data.len())
}

/// The bytes of `data` from `start` up to `end`.
pub fn slice_range(data: &[u8], start: usize, end: usize) -> (r: &[u8])
    requires
        start <= end <= data@.len(),
    ensures
        r@ == data@.subrange(start as int, end as int),
{
    vstd::slice::slice_subrange(data, start, end)
}

} // verus!
