//! The game mode that a replay was played in.
use vstd::prelude::*;

verus! {

/// The game mode byte of a replay; any byte but 0 to 3 reads as `UNKNOWN`.
#[derive(Clone, Copy, Debug, PartialEq, Eq, Hash, Structural)]
pub enum GameMode {
    STD,
    TAIKO,
    CTB,
    MANIA,
    UNKNOWN,
}

pub open spec fn mode_of(v: i8) -> GameMode {
    if v == 0 {
        GameMode::STD
    } else if v == 1 {
        GameMode::TAIKO
    } else if v == 2 {
        GameMode::CTB
    } else if v == 3 {
        GameMode::MANIA
    } else {
        GameMode::UNKNOWN
    }
}

pub open spec fn mode_number(m: GameMode) -> i8 {
    match m {
        GameMode::STD => 0,
        GameMode::TAIKO => 1,
        GameMode::CTB => 2,
        GameMode::MANIA => 3,
        GameMode::UNKNOWN => 4,
    }
}

impl GameMode {
    /// The mode that byte `v` names.
    pub fn from_i8(v: i8) -> (r: GameMode)
        ensures
            r == mode_of(v),
    {
        if v == 0 {
            GameMode::STD
        } else if v == 1 {
            GameMode::TAIKO
        } else if v == 2 {
            GameMode::CTB
        } else if v == 3 {
            GameMode::MANIA
        } else {
            GameMode::UNKNOWN
        }
    }

    /// The mode's number: 0 to 3 for the known modes, 4 for `UNKNOWN`.
    pub fn value(&self) -> (r: i8)
        ensures
            r == mode_number(*self),
    {
        match self {
            GameMode::STD => 0,
            GameMode::TAIKO => 1,
            GameMode::CTB => 2,
            GameMode::MANIA => 3,
            GameMode::UNKNOWN => 4,
        }
    }
}

} // verus!
