//! Splitting delimited text and reading the integers in it.
use vstd::prelude::*;

verus! {

/// The pieces of `s` between occurrences of `sep`, as `split` on a slice gives
/// them: one more piece than there are separators, empty pieces included.
pub open spec fn split(s: Seq<u8>, sep: u8) -> Seq<Seq<u8>>
    decreases s.len(),
{
    if s.len() == 0 {
        seq![Seq::empty()]
    } else {
        let p = split(s.drop_last(), sep);
        if s.last() == sep {
            p.push(Seq::empty())
        } else {
            p.update(p.len() - 1, p.last().push(s.last()))
        }
    }
}

pub proof fn lemma_split_len(s: Seq<u8>, sep: u8)
    ensures
        split(s, sep).len() >= 1,
    decreases s.len(),
{
    if s.len() > 0 {
        lemma_split_len(s.drop_last(), sep);
    }
}

/// The contents of each vector of `v`.
pub open spec fn views(v: Seq<Vec<u8>>) -> Seq<Seq<u8>> {
    v.map_values(|x: Vec<u8>| x@)
}

/// A copy of `v`.
pub fn copy_bytes(v: &Vec<u8>) -> (r: Vec<u8>)
    ensures
        r@ == v@,
{
    let mut r: Vec<u8> = Vec::new();
    let mut i: usize = 0;
    while i < v.len()
        invariant
            i <= v@.len(),
            r@ == v@.take(i as int),
        decreases v.len() - i,
    {
        r.push(v[i]);
        i = i + 1;
        proof {
            assert(r@ =~= v@.take(i as int));
        }
    }
    proof {
        assert(v@.take(v@.len() as int) =~= v@);
    }
    r
}

/// Splits `s` at every `sep`.
pub fn split_bytes(s: &[u8], sep: u8) -> (r: Vec<Vec<u8>>)
    ensures
        r@.len() == split(s@, sep).len(),
        forall|i: int| 0 <= i < r@.len() ==> #[trigger] r@[i]@ == split(s@, sep)[i],
        views(r@) == split(s@, sep),
{
    let mut pieces: Vec<Vec<u8>> = Vec::new();
    let mut cur: Vec<u8> = Vec::new();
    let mut i: usize = 0;
    proof {
        assert(s@.take(0) =~= Seq::<u8>::empty());
    }
    while i < s.len()
        invariant
            i <= s@.len(),
            pieces@.len() + 1 == split(s@.take(i as int), sep).len(),
            forall|j: int| 0 <= j < pieces@.len() ==> #[trigger] pieces@[j]@ == split(s@.take(i as int), sep)[j],
            cur@ == split(s@.take(i as int), sep).last(),
        decreases s.len() - i,
    {
        let ghost before = s@.take(i as int);
        proof {
            assert(s@.take(i + 1).drop_last() =~= before);
            lemma_split_len(before, sep);
        }
        if s[i] == sep {
            pieces.push(cur);
            cur = Vec::new();
            proof {
                assert(cur@ =~= Seq::<u8>::empty());
            }
        } else {
            cur.push(s[i]);
        }
        i = i + 1;
    }
    pieces.push(cur);
    proof {
        assert(s@.take(s@.len() as int) =~= s@);
        assert(views(pieces@) =~= split(s@, sep));
    }
    pieces
}

pub open spec fn is_digit(b: u8) -> bool {
    0x30 <= b <= 0x39
}

/// The number of decimal digits at the start of `s`.
pub open spec fn digit_run(s: Seq<u8>) -> nat
    decreases s.len(),
{
    if s.len() > 0 && is_digit(s[0]) {
        1 + digit_run(s.drop_first())
    } else {
        0
    }
}

/// The value of the decimal digits `s`.
pub open spec fn decimal_value(s: Seq<u8>) -> nat
    decreases s.len(),
{
    if s.len() == 0 {
        0
    } else {
        decimal_value(s.drop_last()) * 10 + (s.last() - 0x30) as nat
    }
}

/// 1 where `s` starts with a `+` or `-` sign, else 0.
pub open spec fn sign_len(s: Seq<u8>) -> nat {
    if s.len() > 0 && (s[0] == 0x2B || s[0] == 0x2D) {
        1
    } else {
        0
    }
}

/// The signed number at the start of `s`: a sign, then as many digits as follow.
pub open spec fn leading_int(s: Seq<u8>) -> int {
    let o = sign_len(s);
    let m = decimal_value(s.subrange(o as int, (o + digit_run(s.subrange(o as int, s.len() as int))) as int));
    if o == 1 && s[0] == 0x2D {
        -m
    } else {
        m as int
    }
}

/// Whether `s` starts with a sign or a digit and its leading number lies in `[lo, hi]`.
pub open spec fn leading_int_in(s: Seq<u8>, lo: int, hi: int) -> bool {
    sign_len(s) + digit_run(s.subrange(sign_len(s) as int, s.len() as int)) > 0
        && lo <= leading_int(s) <= hi
}

/// Relies on atoi::atoi for i64: it takes an optional sign and the digits that
/// follow, stops at the first other byte, and gives `None` where neither a sign
/// nor a digit was read or the value overflows.
#[verifier::external_body]
fn atoi_i64(s: &[u8]) -> (r: Option<i64>)
    ensures
        r.is_some() == leading_int_in(s@, i64::MIN as int, i64::MAX as int),
        r matches Some(v) ==> v == leading_int(s@),
{
    atoi::atoi::<i64>(s)
}

/// The 64-bit integer at the start of `s`, as `atoi` reads it.
pub fn leading_i64(s: &[u8]) -> (r: Option<i64>)
    ensures
        r.is_some() == leading_int_in(s@, i64::MIN as int, i64::MAX as int),
        r matches Some(v) ==> v == leading_int(s@),
{
    atoi_i64(s)
}

/// The 32-bit integer at the start of `s`, as `atoi` reads it.
pub fn leading_i32(s: &[u8]) -> (r: Option<i32>)
    ensures
        r.is_some() == leading_int_in(s@, i32::MIN as int, i32::MAX as int),
        r matches Some(v) ==> v == leading_int(s@),
{
    match atoi_i64(s) {
        Some(v) => {
            if i32::MIN as i64 <= v && v <= i32::MAX as i64 {
                Some(v as i32)
            } else {
                None
            }
        },
        None => None,
    }
}

/// Whether every byte of `s` is a decimal digit.
pub open spec fn all_digits(s: Seq<u8>) -> bool {
    forall|i: int| 0 <= i < s.len() ==> is_digit(#[trigger] s[i])
}

/// The digits of an unsigned number in text: an optional `+`, then the rest.
pub open spec fn unsigned_digits(s: Seq<u8>) -> Seq<u8> {
    if s.len() > 0 && s[0] == 0x2B {
        s.drop_first()
    } else {
        s
    }
}

/// Whether `s` is an unsigned 32-bit number written in full, as `str::parse` takes it.
pub open spec fn is_u32_text(s: Seq<u8>) -> bool {
    let d = unsigned_digits(s);
    d.len() > 0 && all_digits(d) && decimal_value(d) <= u32::MAX
}

/// Reads all of `s` as an unsigned 32-bit number: an optional `+` and digits only.
pub fn parse_u32(s: &[u8]) -> (r: Option<u32>)
    ensures
        r.is_some() == is_u32_text(s@),
        r matches Some(v) ==> v == decimal_value(unsigned_digits(s@)),
{
    let start: usize = if s.len() > 0 && s[0] == 0x2B { 1 } else { 0 };
    let ghost d = unsigned_digits(s@);
    proof {
        assert(d =~= s@.subrange(start as int, s@.len() as int));
    }
    if start == s.len() {
        return None;
    }
    let mut acc: u64 = 0;
    let mut i: usize = start;
    while i < s.len()
        invariant
            start <= i <= s@.len(),
            d == s@.subrange(start as int, s@.len() as int),
            d == unsigned_digits(s@),
            all_digits(d.take(i - start)),
            acc == decimal_value(d.take(i - start)),
            acc <= u32::MAX,
        decreases s.len() - i,
    {
        let b = s[i];
        proof {
            assert(d.take(i - start + 1).drop_last() =~= d.take(i - start));
        }
        if b < 0x30 || b > 0x39 {
            proof {
                assert(d[(i - start) as int] == b);
                assert(!is_digit(d[(i - start) as int]));
            }
            return None;
        }
        acc = acc * 10 + (b - 0x30) as u64;
        proof {
            let t = d.take(i - start + 1);
            assert(t.last() == b);
            assert(acc == decimal_value(t));
            assert(all_digits(t)) by {
                assert forall|j: int| 0 <= j < t.len() implies is_digit(#[trigger] t[j]) by {
                    if j < t.len() - 1 {
                        assert(t[j] == d.take(i - start)[j]);
                    }
                }
            }
        }
        if acc > u32::MAX as u64 {
            proof {
                if all_digits(d) {
                    lemma_decimal_prefix_mono(d, (i - start + 1) as nat);
                }
            }
            return None;
        }
        i = i + 1;
    }
    proof {
        assert(d.take(d.len() as int) =~= d);
    }
    Some(acc as u32)
}

/// A number's value is at least that of any prefix of its digits.
proof fn lemma_decimal_prefix_mono(d: Seq<u8>, k: nat)
    requires
        k <= d.len(),
        all_digits(d.take(k as int)),
        all_digits(d),
    ensures
        decimal_value(d.take(k as int)) <= decimal_value(d),
    decreases d.len(),
{
    if k < d.len() {
        assert(d.drop_last().take(k as int) =~= d.take(k as int));
        lemma_decimal_prefix_mono(d.drop_last(), k);
    } else {
        assert(d.take(k as int) =~= d);
    }
}

} // verus!
