//! Input actions and the delimited text stream that records them.
//!
//! Coordinates that the stream writes as decimal fractions are kept as the
//! text of their field, exactly as recorded.
use vstd::prelude::*;
use crate::bytes::DecodeError;
use crate::flags::{Key, KeyMania, KeyTaiko};
use crate::game_mode::GameMode;
use crate::text::{
    copy_bytes, leading_i32, leading_i64, leading_int, leading_int_in, split, split_bytes, views,
};

verus! {

/// Byte that ends a record.
pub const RECORD_SEP: u8 = 0x2C;

/// Byte that ends a field within a record.
pub const FIELD_SEP: u8 = 0x7C;

/// Time delta of the record that carries the random seed.
pub const SEED_MARKER: i64 = -12345;

/// A standard-mode action.
#[derive(Clone, Debug)]
pub struct ReplayEventOsu {
    pub time_delta: i64,
    /// Text of the horizontal cursor position.
    pub x: Vec<u8>,
    /// Text of the vertical cursor position.
    pub y: Vec<u8>,
    pub keys: Key,
}

/// A taiko action.
#[derive(Clone, Copy, Debug, PartialEq, Eq, Hash, Structural)]
pub struct ReplayEventTaiko {
    pub time_delta: i64,
    pub x: i64,
    pub keys: KeyTaiko,
}

/// A catch action.
#[derive(Clone, Debug)]
pub struct ReplayEventCatch {
    pub time_delta: i64,
    /// Text of the catcher position.
    pub x: Vec<u8>,
    pub dashing: bool,
}

/// A mania action.
#[derive(Clone, Copy, Debug, PartialEq, Eq, Hash, Structural)]
pub struct ReplayEventMania {
    pub time_delta: i64,
    pub keys: KeyMania,
}

/// One input action, of the variant of the replay's mode.
#[derive(Clone, Debug)]
pub enum Action {
    Std(ReplayEventOsu),
    Taiko(ReplayEventTaiko),
    Catch(ReplayEventCatch),
    Mania(ReplayEventMania),
}

/// What an action holds, as plain values.
pub enum ActionModel {
    Std { time_delta: i64, x: Seq<u8>, y: Seq<u8>, keys: i32 },
    Taiko { time_delta: i64, x: i64, keys: i32 },
    Catch { time_delta: i64, x: Seq<u8>, dashing: bool },
    Mania { time_delta: i64, keys: i32 },
}

impl ActionModel {
    pub open spec fn time_delta(self) -> i64 {
        match self {
            ActionModel::Std { time_delta, .. } => time_delta,
            ActionModel::Taiko { time_delta, .. } => time_delta,
            ActionModel::Catch { time_delta, .. } => time_delta,
            ActionModel::Mania { time_delta, .. } => time_delta,
        }
    }

    /// Whether the action is of `mode`'s variant.
    pub open spec fn of_mode(self, mode: GameMode) -> bool {
        match self {
            ActionModel::Std { .. } => mode == GameMode::STD,
            ActionModel::Taiko { .. } => mode == GameMode::TAIKO,
            ActionModel::Catch { .. } => mode == GameMode::CTB,
            ActionModel::Mania { .. } => mode == GameMode::MANIA,
        }
    }
}

impl View for Action {
    type V = ActionModel;

    open spec fn view(&self) -> ActionModel {
        match self {
            Action::Std(e) => ActionModel::Std { time_delta: e.time_delta, x: e.x@, y: e.y@, keys: e.keys.0 },
            Action::Taiko(e) => ActionModel::Taiko { time_delta: e.time_delta, x: e.x, keys: e.keys.0 },
            Action::Catch(e) => ActionModel::Catch { time_delta: e.time_delta, x: e.x@, dashing: e.dashing },
            Action::Mania(e) => ActionModel::Mania { time_delta: e.time_delta, keys: e.keys.0 },
        }
    }
}

impl Action {
    pub fn time_delta(&self) -> (r: i64)
        ensures
            r == self@.time_delta(),
    {
        match self {
            Action::Std(e) => e.time_delta,
            Action::Taiko(e) => e.time_delta,
            Action::Catch(e) => e.time_delta,
            Action::Mania(e) => e.time_delta,
        }
    }

    /// Whether this is the record that carries the random seed.
    pub fn is_seed_marker(&self) -> (r: bool)
        ensures
            r == (self@.time_delta() == SEED_MARKER),
    {
        self.time_delta() == SEED_MARKER
    }
}

pub open spec fn action_views(v: Seq<Action>) -> Seq<ActionModel> {
    v.map_values(|a: Action| a@)
}

/// How many fields a record of `mode` needs.
pub open spec fn required_fields(mode: GameMode) -> nat {
    if mode == GameMode::MANIA {
        2
    } else {
        4
    }
}

pub open spec fn is_i64(s: Seq<u8>) -> bool {
    leading_int_in(s, i64::MIN as int, i64::MAX as int)
}

pub open spec fn is_i32(s: Seq<u8>) -> bool {
    leading_int_in(s, i32::MIN as int, i32::MAX as int)
}

/// The action that the record with fields `f` gives in `mode`: none for a
/// record whose first field is empty, an error for one with too few fields or
/// an integer field that does not read as one.
pub open spec fn record_action(mode: GameMode, f: Seq<Seq<u8>>) -> Result<Option<ActionModel>, DecodeError> {
    if f.len() == 0 || f[0].len() == 0 {
        Ok(None)
    } else if mode == GameMode::UNKNOWN {
        Err(DecodeError::UnsupportedMode)
    } else if f.len() < required_fields(mode) {
        Err(DecodeError::BadRecord)
    } else {
        match mode {
            GameMode::STD => if is_i64(f[0]) && is_i32(f[3]) {
                Ok(Some(ActionModel::Std {
                    time_delta: leading_int(f[0]) as i64,
                    x: f[1],
                    y: f[2],
                    keys: leading_int(f[3]) as i32,
                }))
            } else {
                Err(DecodeError::BadRecord)
            },
            GameMode::TAIKO => if is_i64(f[0]) && is_i64(f[1]) && is_i32(f[3]) {
                Ok(Some(ActionModel::Taiko {
                    time_delta: leading_int(f[0]) as i64,
                    x: leading_int(f[1]) as i64,
                    keys: leading_int(f[3]) as i32,
                }))
            } else {
                Err(DecodeError::BadRecord)
            },
            GameMode::CTB => if is_i64(f[0]) && is_i32(f[3]) {
                Ok(Some(ActionModel::Catch {
                    time_delta: leading_int(f[0]) as i64,
                    x: f[1],
                    dashing: leading_int(f[3]) == 1,
                }))
            } else {
                Err(DecodeError::BadRecord)
            },
            _ => if is_i64(f[0]) && is_i32(f[1]) {
                Ok(Some(ActionModel::Mania {
                    time_delta: leading_int(f[0]) as i64,
                    keys: leading_int(f[1]) as i32,
                }))
            } else {
                Err(DecodeError::BadRecord)
            },
        }
    }
}

/// The actions of the records `recs` in order, or the first record's error.
pub open spec fn records_actions(mode: GameMode, recs: Seq<Seq<u8>>) -> Result<Seq<ActionModel>, DecodeError>
    decreases recs.len(),
{
    if recs.len() == 0 {
        Ok(Seq::empty())
    } else {
        match records_actions(mode, recs.drop_last()) {
            Err(e) => Err(e),
            Ok(p) => match record_action(mode, split(recs.last(), FIELD_SEP)) {
                Err(e) => Err(e),
                Ok(None) => Ok(p),
                Ok(Some(a)) => Ok(p.push(a)),
            },
        }
    }
}

/// The seed that the last real record holds in its fourth field, if it reads
/// as a 32-bit integer; a trailing empty record is passed over.
pub open spec fn seed_candidate(recs: Seq<Seq<u8>>) -> Option<i32> {
    let skip: int = if recs.len() > 0 && recs.last().len() == 0 { 1 } else { 0 };
    if recs.len() <= skip {
        None
    } else {
        let f = split(recs[recs.len() - 1 - skip], FIELD_SEP);
        if f.len() >= 4 && is_i32(f[3]) {
            Some(leading_int(f[3]) as i32)
        } else {
            None
        }
    }
}

/// The actions of the stream `data` in `mode`, and the seed where the last
/// action is the seed carrier (it is then left out of the actions).
pub open spec fn action_stream(mode: GameMode, data: Seq<u8>) -> Result<(Seq<ActionModel>, Option<i32>), DecodeError> {
    let recs = split(data, RECORD_SEP);
    if mode == GameMode::UNKNOWN {
        Err(DecodeError::UnsupportedMode)
    } else {
        match records_actions(mode, recs) {
            Err(e) => Err(e),
            Ok(acts) => if acts.len() > 0 && acts.last().time_delta() == SEED_MARKER
                && seed_candidate(recs).is_some() {
                Ok((acts.drop_last(), seed_candidate(recs)))
            } else {
                Ok((acts, None))
            },
        }
    }
}

/// Decodes one record, given as its fields.
pub fn decode_record(mode: GameMode, f: &Vec<Vec<u8>>) -> (r: Result<Option<Action>, DecodeError>)
    ensures
        match (r, record_action(mode, views(f@))) {
            (Ok(None), Ok(None)) => true,
            (Ok(Some(a)), Ok(Some(m))) => a@ == m,
            (Err(e), Err(d)) => e == d,
            _ => false,
        },
{
    let ghost fv = views(f@);
    if f.len() == 0 || f[0].len() == 0 {
        return Ok(None);
    }
    match mode {
        GameMode::UNKNOWN => Err(DecodeError::UnsupportedMode),
        GameMode::MANIA => {
            if f.len() < 2 {
                return Err(DecodeError::BadRecord);
            }
            match (leading_i64(f[0].as_slice()), leading_i32(f[1].as_slice())) {
                (Some(t), Some(k)) => Ok(Some(Action::Mania(ReplayEventMania { time_delta: t, keys: KeyMania(k) }))),
                _ => Err(DecodeError::BadRecord),
            }
        },
        GameMode::STD => {
            if f.len() < 4 {
                return Err(DecodeError::BadRecord);
            }
            match (leading_i64(f[0].as_slice()), leading_i32(f[3].as_slice())) {
                (Some(t), Some(k)) => Ok(Some(Action::Std(ReplayEventOsu {
                    time_delta: t,
                    x: copy_bytes(&f[1]),
                    y: copy_bytes(&f[2]),
                    keys: Key(k),
                }))),
                _ => Err(DecodeError::BadRecord),
            }
        },
        GameMode::TAIKO => {
            if f.len() < 4 {
                return Err(DecodeError::BadRecord);
            }
            match (leading_i64(f[0].as_slice()), leading_i64(f[1].as_slice()), leading_i32(f[3].as_slice())) {
                (Some(t), Some(x), Some(k)) => Ok(Some(Action::Taiko(ReplayEventTaiko { time_delta: t, x, keys: KeyTaiko(k) }))),
                _ => Err(DecodeError::BadRecord),
            }
        },
        GameMode::CTB => {
            if f.len() < 4 {
                return Err(DecodeError::BadRecord);
            }
            match (leading_i64(f[0].as_slice()), leading_i32(f[3].as_slice())) {
                (Some(t), Some(k)) => Ok(Some(Action::Catch(ReplayEventCatch {
                    time_delta: t,
                    x: copy_bytes(&f[1]),
                    dashing: k == 1,
                }))),
                _ => Err(DecodeError::BadRecord),
            }
        },
    }
}


/// Once a prefix of the records fails, the whole list fails with that error.
proof fn lemma_error_persists(mode: GameMode, recs: Seq<Seq<u8>>, k: int)
    requires
        0 <= k <= recs.len(),
        records_actions(mode, recs.take(k)) is Err,
    ensures
        records_actions(mode, recs) == records_actions(mode, recs.take(k)),
    decreases recs.len(),
{
    if k < recs.len() {
        assert(recs.drop_last().take(k) =~= recs.take(k));
        lemma_error_persists(mode, recs.drop_last(), k);
    } else {
        assert(recs.take(k) =~= recs);
    }
}

/// The seed candidate of the records `recs`, computed.
fn find_seed(recs: &Vec<Vec<u8>>) -> (r: Option<i32>)
    ensures
        r == seed_candidate(views(recs@)),
{
    let n = recs.len();
    let skip: usize = if n > 0 && recs[n - 1].len() == 0 { 1 } else { 0 };
    if n <= skip {
        return None;
    }
    let f = split_bytes(recs[n - 1 - skip].as_slice(), FIELD_SEP);
    if f.len() >= 4 {
        leading_i32(f[3].as_slice())
    } else {
        None
    }
}

/// Decodes the inflated action stream of a replay of `mode`: its actions in
/// order and, where the last one is the seed carrier, the seed in its place.
pub fn parse_replay_string(mode: GameMode, data: &[u8]) -> (r: Result<(Vec<Action>, Option<i32>), DecodeError>)
    ensures
        match (r, action_stream(mode, data@)) {
            (Ok((acts, seed)), Ok((m, s))) => action_views(acts@) == m && seed == s,
            (Err(e), Err(d)) => e == d,
            _ => false,
        },
{
    if mode == GameMode::UNKNOWN {
        return Err(DecodeError::UnsupportedMode);
    }
    let recs = split_bytes(data, RECORD_SEP);
    let ghost rv = split(data@, RECORD_SEP);
    let mut acts: Vec<Action> = Vec::new();
    let mut k: usize = 0;
    proof {
        assert(rv.take(0) =~= Seq::<Seq<u8>>::empty());
        assert(action_views(acts@) =~= Seq::<ActionModel>::empty());
    }
    while k < recs.len()
        invariant
            mode != GameMode::UNKNOWN,
            k <= recs@.len(),
            views(recs@) == rv,
            rv == split(data@, RECORD_SEP),
            records_actions(mode, rv.take(k as int)) == Ok::<Seq<ActionModel>, DecodeError>(action_views(acts@)),
        decreases recs.len() - k,
    {
        let f = split_bytes(recs[k].as_slice(), FIELD_SEP);
        let ghost before = acts@;
        proof {
            assert(rv.take(k + 1).drop_last() =~= rv.take(k as int));
            assert(rv.take(k + 1).last() == recs@[k as int]@);
        }
        match decode_record(mode, &f) {
            Err(e) => {
                proof {
                    assert(records_actions(mode, rv.take(k + 1)) == Err::<Seq<ActionModel>, DecodeError>(e));
                    lemma_error_persists(mode, rv, k + 1);
                    assert(records_actions(mode, rv) == Err::<Seq<ActionModel>, DecodeError>(e));
                    assert(action_stream(mode, data@) == Err::<(Seq<ActionModel>, Option<i32>), DecodeError>(e));
                }
                return Err(e);
            },
            Ok(None) => {},
            Ok(Some(a)) => {
                acts.push(a);
                proof {
                    assert(action_views(acts@) =~= action_views(before).push(a@));
                }
            },
        }
        k = k + 1;
    }
    proof {
        assert(rv.take(rv.len() as int) =~= rv);
    }
    let seed = find_seed(&recs);
    let n = acts.len();
    if n > 0 && acts[n - 1].is_seed_marker() && seed.is_some() {
        let ghost all = acts@;
        acts.pop();
        proof {
            assert(action_views(acts@) =~= action_views(all).drop_last());
        }
        Ok((acts, seed))
    } else {
        Ok((acts, None))
    }
}


proof fn lemma_records_single_mode(mode: GameMode, recs: Seq<Seq<u8>>)
    ensures
        records_actions(mode, recs) matches Ok(acts) ==> forall|i: int|
            0 <= i < acts.len() ==> (#[trigger] acts[i]).of_mode(mode),
    decreases recs.len(),
{
    if recs.len() > 0 {
        lemma_records_single_mode(mode, recs.drop_last());
    }
}

/// A decoded stream never mixes variants: every action is of the mode's variant.
pub proof fn lemma_stream_single_mode(mode: GameMode, data: Seq<u8>)
    ensures
        action_stream(mode, data) matches Ok((acts, _)) ==> forall|i: int|
            0 <= i < acts.len() ==> (#[trigger] acts[i]).of_mode(mode),
{
    lemma_records_single_mode(mode, split(data, RECORD_SEP));
}

/// The seed is reported only in place of a last action that carries the
/// marker time, and that action is then the only one left out.
pub proof fn lemma_seed_replaces_marker(mode: GameMode, data: Seq<u8>)
    ensures
        action_stream(mode, data) matches Ok((acts, Some(seed))) ==> records_actions(
            mode,
            split(data, RECORD_SEP),
        ) matches Ok(all) && {
            &&& all.len() == acts.len() + 1
            &&& all.drop_last() == acts
            &&& all.last().time_delta() == SEED_MARKER
            &&& seed_candidate(split(data, RECORD_SEP)) == Some(seed)
        },
{
}

/// Decodes an inflated action stream on its own, without the seed; an
/// unknown mode is read as standard.
pub fn parse_replay_data(data: &[u8], mode: GameMode) -> (r: Result<Vec<Action>, DecodeError>)
    ensures
        match (r, action_stream(if mode == GameMode::UNKNOWN { GameMode::STD } else { mode }, data@)) {
            (Ok(acts), Ok((m, _))) => action_views(acts@) == m,
            (Err(e), Err(d)) => e == d,
            _ => false,
        },
{
    let m = if mode == GameMode::UNKNOWN { GameMode::STD } else { mode };
    match parse_replay_string(m, data) {
        Ok((acts, _)) => Ok(acts),
        Err(e) => Err(e),
    }
}

} // verus!
