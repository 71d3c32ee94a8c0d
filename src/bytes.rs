//! Fixed-width integer fields read from a byte buffer at a cursor.
use vstd::prelude::*;

verus! {

/// Byte order of the multi-byte integer fields.
#[derive(Clone, Copy, Debug, PartialEq, Eq, Structural)]
pub enum ByteOrder {
    Little,
    Big,
}

/// Why a buffer could not be decoded.
#[derive(Clone, Copy, Debug, PartialEq, Eq, Structural)]
pub enum DecodeError {
    /// The buffer ends before a field does.
    Truncated,
    /// A string field starts with a presence byte other than 0x00 or 0x0B.
    BadPresenceByte,
    /// A string field's length prefix is malformed or too large.
    BadLength,
    /// A string field's bytes are not valid UTF-8.
    InvalidUtf8,
    /// The compressed action block could not be inflated.
    Decompression,
    /// An action record has too few fields or a non-numeric required field.
    BadRecord,
    /// A life-bar entry has a time that is not an unsigned 32-bit integer.
    BadLifeBar,
    /// The game mode byte names no known mode, so actions cannot be decoded.
    UnsupportedMode,
}

/// 256 to the power `n`.
pub open spec fn pow256(n: nat) -> nat
    decreases n,
{
    if n == 0 {
        1
    } else {
        256 * pow256((n - 1) as nat)
    }
}

/// The unsigned value of `s` read most significant byte first.
pub open spec fn be_value(s: Seq<u8>) -> nat
    decreases s.len(),
{
    if s.len() == 0 {
        0
    } else {
        be_value(s.drop_last()) * 256 + s.last() as nat
    }
}

/// The unsigned value of `s` read least significant byte first.
pub open spec fn le_value(s: Seq<u8>) -> nat
    decreases s.len(),
{
    if s.len() == 0 {
        0
    } else {
        s[0] as nat + 256 * le_value(s.drop_first())
    }
}

pub open spec fn uint_value(s: Seq<u8>, order: ByteOrder) -> nat {
    match order {
        ByteOrder::Little => le_value(s),
        ByteOrder::Big => be_value(s),
    }
}

/// The two's complement reading of the `n`-byte unsigned value `v`.
pub open spec fn signed_value(v: nat, n: nat) -> int {
    if v >= pow256(n) / 2 {
        v - pow256(n)
    } else {
        v as int
    }
}

/// The signed `n`-byte integer stored at `pos`.
pub open spec fn int_at(s: Seq<u8>, pos: int, n: nat, order: ByteOrder) -> int {
    signed_value(uint_value(s.subrange(pos, pos + n), order), n)
}

proof fn lemma_be_bound(s: Seq<u8>)
    ensures
        be_value(s) < pow256(s.len()),
    decreases s.len(),
{
    if s.len() > 0 {
        lemma_be_bound(s.drop_last());
        assert(be_value(s.drop_last()) * 256 + (s.last() as nat) < pow256(s.len())) by (nonlinear_arith)
            requires
                be_value(s.drop_last()) < pow256(s.drop_last().len()),
                pow256(s.len()) == 256 * pow256(s.drop_last().len()),
                s.last() < 256,
        ;
    }
}

proof fn lemma_le_bound(s: Seq<u8>)
    ensures
        le_value(s) < pow256(s.len()),
    decreases s.len(),
{
    if s.len() > 0 {
        lemma_le_bound(s.drop_first());
        assert((s[0] as nat) + 256 * le_value(s.drop_first()) < pow256(s.len())) by (nonlinear_arith)
            requires
                le_value(s.drop_first()) < pow256(s.drop_first().len()),
                pow256(s.len()) == 256 * pow256(s.drop_first().len()),
                s[0] < 256,
        ;
    }
}

proof fn lemma_pow256_values()
    ensures
        pow256(1) == 0x100,
        pow256(2) == 0x1_0000,
        pow256(4) == 0x1_0000_0000,
        pow256(8) == 0x1_0000_0000_0000_0000,
{
    reveal_with_fuel(pow256, 9);
}

/// Reads the `n`-byte unsigned integer at `pos`, which the caller knows to be there.
fn read_uint(data: &[u8], pos: usize, n: usize, order: ByteOrder) -> (r: u64)
    requires
        1 <= n <= 8,
        pos + n <= data@.len(),
        data@.len() == data.len(),
    ensures
        r as nat == uint_value(data@.subrange(pos as int, pos + n), order),
{
    let ghost s = data@.subrange(pos as int, pos + n);
    proof {
        lemma_pow256_values();
    }
    let mut acc: u64 = 0;
    match order {
        ByteOrder::Big => {
            let mut i: usize = 0;
            while i < n
                invariant
                    i <= n,
                    n <= 8,
                    pos + n <= data@.len(),
                    data@.len() == data.len(),
                    s == data@.subrange(pos as int, pos + n),
                    acc as nat == be_value(s.subrange(0, i as int)),
                    pow256(8) == 0x1_0000_0000_0000_0000,
                decreases n - i,
            {
                proof {
                    let p = s.subrange(0, i as int + 1);
                    assert(p.drop_last() =~= s.subrange(0, i as int));
                    lemma_be_bound(s.subrange(0, i as int + 1));
                    lemma_pow256_mono(i as nat + 1, 8);
                }
                acc = acc * 256 + data[pos + i] as u64;
                i = i + 1;
            }
            assert(s.subrange(0, n as int) =~= s);
        },
        ByteOrder::Little => {
            let mut i: usize = n;
            while i > 0
                invariant
                    i <= n,
                    n <= 8,
                    pos + n <= data@.len(),
                    data@.len() == data.len(),
                    s == data@.subrange(pos as int, pos + n),
                    acc as nat == le_value(s.subrange(i as int, n as int)),
                    pow256(8) == 0x1_0000_0000_0000_0000,
                decreases i,
            {
                proof {
                    let p = s.subrange(i - 1, n as int);
                    assert(p.drop_first() =~= s.subrange(i as int, n as int));
                    lemma_le_bound(p);
                    lemma_pow256_mono((n - i + 1) as nat, 8);
                }
                acc = data[pos + i - 1] as u64 + 256 * acc;
                i = i - 1;
            }
            assert(s.subrange(0, n as int) =~= s);
        },
    }
    acc
}

proof fn lemma_pow256_mono(a: nat, b: nat)
    requires
        a <= b,
    ensures
        pow256(a) <= pow256(b),
    decreases b,
{
    if a < b {
        lemma_pow256_mono(a, (b - 1) as nat);
    }
}


/// Reads a signed 16-bit integer at `pos`.
pub fn read_i16(data: &[u8], pos: usize, order: ByteOrder) -> (r: Result<(i16, usize), DecodeError>)
    ensures
        pos + 2 <= data@.len() ==> r == Ok::<(i16, usize), DecodeError>(
            (int_at(data@, pos as int, 2, order) as i16, (pos + 2) as usize),
        ),
        pos + 2 <= data@.len() ==> i16::MIN <= int_at(data@, pos as int, 2, order) <= i16::MAX,
        pos + 2 > data@.len() ==> r == Err::<(i16, usize), DecodeError>(DecodeError::Truncated),
{
    if pos > data.len() || data.len() - pos < 2 {
        return Err(DecodeError::Truncated);
    }
    let u = read_uint(data, pos, 2, order);
    proof {
        lemma_pow256_values();
        lemma_le_bound(data@.subrange(pos as int, pos + 2));
        lemma_be_bound(data@.subrange(pos as int, pos + 2));
    }
    let v: i16 = if u >= 0x8000 { (u as i64 - 0x1_0000) as i16 } else { u as i16 };
    Ok((v, pos + 2))
}

/// Reads a signed 32-bit integer at `pos`.
pub fn read_i32(data: &[u8], pos: usize, order: ByteOrder) -> (r: Result<(i32, usize), DecodeError>)
    ensures
        pos + 4 <= data@.len() ==> r == Ok::<(i32, usize), DecodeError>(
            (int_at(data@, pos as int, 4, order) as i32, (pos + 4) as usize),
        ),
        pos + 4 <= data@.len() ==> i32::MIN <= int_at(data@, pos as int, 4, order) <= i32::MAX,
        pos + 4 > data@.len() ==> r == Err::<(i32, usize), DecodeError>(DecodeError::Truncated),
{
    if pos > data.len() || data.len() - pos < 4 {
        return Err(DecodeError::Truncated);
    }
    let u = read_uint(data, pos, 4, order);
    proof {
        lemma_pow256_values();
        lemma_le_bound(data@.subrange(pos as int, pos + 4));
        lemma_be_bound(data@.subrange(pos as int, pos + 4));
    }
    let v: i32 = if u >= 0x8000_0000 { (u as i64 - 0x1_0000_0000) as i32 } else { u as i32 };
    Ok((v, pos + 4))
}

/// Reads a signed 64-bit integer at `pos`.
pub fn read_i64(data: &[u8], pos: usize, order: ByteOrder) -> (r: Result<(i64, usize), DecodeError>)
    ensures
        pos + 8 <= data@.len() ==> r == Ok::<(i64, usize), DecodeError>(
            (int_at(data@, pos as int, 8, order) as i64, (pos + 8) as usize),
        ),
        pos + 8 <= data@.len() ==> i64::MIN <= int_at(data@, pos as int, 8, order) <= i64::MAX,
        pos + 8 > data@.len() ==> r == Err::<(i64, usize), DecodeError>(DecodeError::Truncated),
{
    if pos > data.len() || data.len() - pos < 8 {
        return Err(DecodeError::Truncated);
    }
    let u = read_uint(data, pos, 8, order);
    proof {
        lemma_pow256_values();
        lemma_le_bound(data@.subrange(pos as int, pos + 8));
        lemma_be_bound(data@.subrange(pos as int, pos + 8));
    }
    let v: i64 = if u >= 0x8000_0000_0000_0000 {
        let low: u64 = u - 0x8000_0000_0000_0000;
        (low as i64) - 0x7fff_ffff_ffff_ffff - 1
    } else {
        u as i64
    };
    Ok((v, pos + 8))
}

} // verus!
