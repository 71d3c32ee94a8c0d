//! Decoder for recorded rhythm-game play sessions ("replays"): a header of
//! fixed-width and length-prefixed fields, a life-bar graph, an LZMA block
//! holding the delimited action stream, and a trailing identifier.
pub mod bytes;
pub mod string_field;
pub mod text;
pub mod flags;
pub mod game_mode;
pub mod events;
pub mod life_bar;
pub mod stream;
pub mod replay;

pub use crate::bytes::{ByteOrder, DecodeError};
pub use crate::events::{
    parse_replay_data, parse_replay_string, Action, ReplayEventCatch, ReplayEventMania,
    ReplayEventOsu, ReplayEventTaiko,
};
pub use crate::flags::{FlagKind, Key, KeyMania, KeyTaiko, Mod};
pub use crate::game_mode::GameMode;
pub use crate::life_bar::LifeBarState;
pub use crate::replay::{osr_parser, replay_from_bytes, ParseConfig, Replay};
