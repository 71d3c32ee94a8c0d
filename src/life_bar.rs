//! The life-bar graph: `time|life` pairs separated by commas, carried as text.
//!
//! The life value is a decimal fraction and is kept as the text of its field.
use vstd::prelude::*;
use crate::bytes::DecodeError;
use crate::text::{decimal_value, is_u32_text, parse_u32, split, split_bytes, unsigned_digits};

verus! {

/// Byte between two entries.
pub const ENTRY_SEP: u8 = 0x2C;

/// Byte between an entry's time and its life value.
pub const PAIR_SEP: u8 = 0x7C;

/// The health bar at one moment of the play.
#[derive(Clone, Debug)]
pub struct LifeBarState {
    /// Milliseconds into the play.
    pub time: u32,
    /// Text of the life value, between 0 and 1 by convention.
    pub life: Vec<u8>,
}

/// Index of the first `b` in `s`.
pub open spec fn find_byte(s: Seq<u8>, b: u8) -> Option<nat>
    decreases s.len(),
{
    if s.len() == 0 {
        None
    } else if s[0] == b {
        Some(0)
    } else {
        match find_byte(s.drop_first(), b) {
            Some(i) => Some(i + 1),
            None => None,
        }
    }
}

proof fn lemma_find_byte(s: Seq<u8>, b: u8, i: int)
    requires
        0 <= i <= s.len(),
        forall|j: int| 0 <= j < i ==> s[j] != b,
    ensures
        i < s.len() && s[i] == b ==> find_byte(s, b) == Some(i as nat),
        i == s.len() ==> find_byte(s, b) is None,
    decreases i,
{
    if i > 0 {
        lemma_find_byte(s.drop_first(), b, i - 1);
    }
}

/// The time text and the life text of an entry, split at its first `|`.
pub open spec fn entry_parts(e: Seq<u8>) -> Option<(Seq<u8>, Seq<u8>)> {
    match find_byte(e, PAIR_SEP) {
        Some(i) => Some((e.take(i as int), e.subrange(i + 1int, e.len() as int))),
        None => None,
    }
}

/// The states of the entries `es` in order, passing over entries without a
/// `|`; an error where a time is not an unsigned 32-bit number.
pub open spec fn entries_states(es: Seq<Seq<u8>>) -> Result<Seq<(u32, Seq<u8>)>, DecodeError>
    decreases es.len(),
{
    if es.len() == 0 {
        Ok(Seq::empty())
    } else {
        match entries_states(es.drop_last()) {
            Err(e) => Err(e),
            Ok(p) => match entry_parts(es.last()) {
                None => Ok(p),
                Some((t, l)) => if is_u32_text(t) {
                    Ok(p.push((decimal_value(unsigned_digits(t)) as u32, l)))
                } else {
                    Err(DecodeError::BadLifeBar)
                },
            },
        }
    }
}

/// The graph that the optional text gives: absent where there is no text or
/// no entry in it.
pub open spec fn life_bar_graph(text: Option<Seq<u8>>) -> Result<Option<Seq<(u32, Seq<u8>)>>, DecodeError> {
    match text {
        None => Ok(None),
        Some(t) => match entries_states(split(t, ENTRY_SEP)) {
            Err(e) => Err(e),
            Ok(v) => if v.len() == 0 {
                Ok(None)
            } else {
                Ok(Some(v))
            },
        },
    }
}

pub open spec fn state_views(v: Seq<LifeBarState>) -> Seq<(u32, Seq<u8>)> {
    v.map_values(|s: LifeBarState| (s.time, s.life@))
}

fn find_pair_sep(e: &[u8]) -> (r: Option<usize>)
    ensures
        match (r, find_byte(e@, PAIR_SEP)) {
            (Some(i), Some(j)) => i == j,
            (None, None) => true,
            _ => false,
        },
        r matches Some(i) ==> i < e@.len(),
{
    let mut i: usize = 0;
    while i < e.len()
        invariant
            i <= e@.len(),
            forall|j: int| 0 <= j < i ==> e@[j] != PAIR_SEP,
        decreases e.len() - i,
    {
        if e[i] == PAIR_SEP {
            proof {
                lemma_find_byte(e@, PAIR_SEP, i as int);
            }
            return Some(i);
        }
        i = i + 1;
    }
    proof {
        lemma_find_byte(e@, PAIR_SEP, i as int);
    }
    None
}

proof fn lemma_error_persists(es: Seq<Seq<u8>>, k: int)
    requires
        0 <= k <= es.len(),
        entries_states(es.take(k)) is Err,
    ensures
        entries_states(es) == entries_states(es.take(k)),
    decreases es.len(),
{
    if k < es.len() {
        assert(es.drop_last().take(k) =~= es.take(k));
        lemma_error_persists(es.drop_last(), k);
    } else {
        assert(es.take(k) =~= es);
    }
}

/// Decodes the life-bar text of a replay, if it has one.
pub fn parse_life_bar_graph(text: Option<&[u8]>) -> (r: Result<Option<Vec<LifeBarState>>, DecodeError>)
    ensures
        match (r, life_bar_graph(match text { Some(t) => Some(t@), None => None })) {
            (Ok(None), Ok(None)) => true,
            (Ok(Some(v)), Ok(Some(w))) => state_views(v@) == w,
            (Err(e), Err(d)) => e == d,
            _ => false,
        },
{
    let t = match text {
        None => {
            return Ok(None);
        },
        Some(t) => t,
    };
    let es = split_bytes(t, ENTRY_SEP);
    let ghost ev = split(t@, ENTRY_SEP);
    let mut states: Vec<LifeBarState> = Vec::new();
    let mut k: usize = 0;
    proof {
        assert(ev.take(0) =~= Seq::<Seq<u8>>::empty());
        assert(state_views(states@) =~= Seq::<(u32, Seq<u8>)>::empty());
    }
    while k < es.len()
        invariant
            k <= es@.len(),
            crate::text::views(es@) == ev,
            ev == split(t@, ENTRY_SEP),
            text == Some(t),
            entries_states(ev.take(k as int)) == Ok::<Seq<(u32, Seq<u8>)>, DecodeError>(state_views(states@)),
        decreases es.len() - k,
    {
        let e = es[k].as_slice();
        let ghost before = states@;
        proof {
            assert(ev.take(k + 1).drop_last() =~= ev.take(k as int));
            assert(ev.take(k + 1).last() == e@);
        }
        match find_pair_sep(e) {
            None => {},
            Some(i) => {
                let elen = e.len();
                let time_text = crate::string_field::slice_range(e, 0, i);
                let life_text = crate::string_field::slice_range(e, i + 1, elen);
                proof {
                    assert(time_text@ =~= e@.take(i as int));
                    assert(entry_parts(e@) == Some((time_text@, life_text@)));
                }
                match parse_u32(time_text) {
                    None => {
                        proof {
                            assert(entries_states(ev.take(k + 1)) is Err);
                            lemma_error_persists(ev, k + 1);
                            assert(entries_states(ev) == Err::<Seq<(u32, Seq<u8>)>, DecodeError>(DecodeError::BadLifeBar));
                        }
                        return Err(DecodeError::BadLifeBar);
                    },
                    Some(time) => {
                        let life = vstd::slice::slice_to_vec(life_text);
                        states.push(LifeBarState { time, life });
                        proof {
                            assert(state_views(states@) =~= state_views(before).push((time, life_text@)));
                        }
                    },
                }
            },
        }
        k = k + 1;
    }
    proof {
        assert(ev.take(ev.len() as int) =~= ev);
    }
    if states.len() == 0 {
        Ok(None)
    } else {
        Ok(Some(states))
    }
}

} // verus!
