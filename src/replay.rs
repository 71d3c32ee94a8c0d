//! The replay record and the decoder of the whole container.
use vstd::prelude::*;
use crate::bytes::{int_at, read_i16, read_i32, read_i64, ByteOrder, DecodeError};
use crate::events::{action_stream, action_views, parse_replay_string, Action, ActionModel};
use crate::flags::Mod;
use crate::game_mode::{mode_of, GameMode};
use crate::life_bar::{life_bar_graph, parse_life_bar_graph, state_views, LifeBarState};
use crate::stream::{inflate, lzma_inflate, LZMA_MEMLIMIT};
use crate::string_field::{parse_string, parse_string_bytes, slice_range, string_field, string_field_bytes};

verus! {

/// How to decode a replay.
#[derive(Clone, Copy, Debug, PartialEq, Eq, Structural)]
pub struct ParseConfig {
    /// Byte order of the integer fields.
    pub byte_order: ByteOrder,
    /// Skip inflating and decoding the action stream.
    pub header_only: bool,
}

impl ParseConfig {
    /// Little-endian fields, decoding the actions unless `header_only`.
    pub fn new(header_only: bool) -> (r: ParseConfig)
        ensures
            r == (ParseConfig { byte_order: ByteOrder::Little, header_only }),
    {
        ParseConfig { byte_order: ByteOrder::Little, header_only }
    }
}

impl Default for ParseConfig {
    fn default() -> (r: ParseConfig)
        ensures
            r == (ParseConfig { byte_order: ByteOrder::Little, header_only: false }),
    {
        ParseConfig { byte_order: ByteOrder::Little, header_only: false }
    }
}

/// One recorded play session.
#[derive(Debug)]
pub struct Replay {
    pub mode: GameMode,
    pub game_version: i32,
    pub beatmap_hash: Option<String>,
    pub username: Option<String>,
    pub replay_hash: Option<String>,
    pub count_300: i16,
    pub count_100: i16,
    pub count_50: i16,
    pub count_geki: i16,
    pub count_katu: i16,
    pub count_miss: i16,
    pub score: i32,
    pub max_combo: i16,
    pub perfect: bool,
    pub mods: Mod,
    pub life_bar_graph: Option<Vec<LifeBarState>>,
    pub timestamp: i64,
    /// The actions, all of the replay's mode; absent when only the header was decoded.
    pub replay_data: Option<Vec<Action>>,
    pub rng_seed: Option<i32>,
    pub replay_id: u64,
}

/// What a replay holds, as plain values.
pub struct ReplayModel {
    pub mode: GameMode,
    pub game_version: i32,
    pub beatmap_hash: Option<Seq<char>>,
    pub username: Option<Seq<char>>,
    pub replay_hash: Option<Seq<char>>,
    pub count_300: i16,
    pub count_100: i16,
    pub count_50: i16,
    pub count_geki: i16,
    pub count_katu: i16,
    pub count_miss: i16,
    pub score: i32,
    pub max_combo: i16,
    pub perfect: bool,
    pub mods: u32,
    pub life_bar_graph: Option<Seq<(u32, Seq<u8>)>>,
    pub timestamp: i64,
    pub replay_data: Option<Seq<ActionModel>>,
    pub rng_seed: Option<i32>,
    pub replay_id: u64,
}

pub open spec fn text_view(o: Option<String>) -> Option<Seq<char>> {
    match o {
        Some(s) => Some(s@),
        None => None,
    }
}

pub open spec fn life_view(o: Option<Vec<LifeBarState>>) -> Option<Seq<(u32, Seq<u8>)>> {
    match o {
        Some(v) => Some(state_views(v@)),
        None => None,
    }
}

pub open spec fn actions_view(o: Option<Vec<Action>>) -> Option<Seq<ActionModel>> {
    match o {
        Some(v) => Some(action_views(v@)),
        None => None,
    }
}

impl View for Replay {
    type V = ReplayModel;

    open spec fn view(&self) -> ReplayModel {
        ReplayModel {
            mode: self.mode,
            game_version: self.game_version,
            beatmap_hash: text_view(self.beatmap_hash),
            username: text_view(self.username),
            replay_hash: text_view(self.replay_hash),
            count_300: self.count_300,
            count_100: self.count_100,
            count_50: self.count_50,
            count_geki: self.count_geki,
            count_katu: self.count_katu,
            count_miss: self.count_miss,
            score: self.score,
            max_combo: self.max_combo,
            perfect: self.perfect,
            mods: self.mods.0,
            life_bar_graph: life_view(self.life_bar_graph),
            timestamp: self.timestamp,
            replay_data: actions_view(self.replay_data),
            rng_seed: self.rng_seed,
            replay_id: self.replay_id,
        }
    }
}

/// The 32-bit pattern of a signed 32-bit value.
pub open spec fn bits32(v: int) -> u32 {
    if v < 0 {
        (v + 0x1_0000_0000) as u32
    } else {
        v as u32
    }
}

/// The 64-bit pattern of a signed value.
pub open spec fn bits64(v: int) -> u64 {
    if v < 0 {
        (v + 0x1_0000_0000_0000_0000) as u64
    } else {
        v as u64
    }
}

/// The trailing identifier at `pos`: a signed 64-bit value where eight bytes
/// remain, else a signed 32-bit one, taken as its 64-bit pattern.
pub open spec fn replay_id_at(s: Seq<u8>, pos: int, order: ByteOrder) -> Result<u64, DecodeError> {
    if pos + 8 <= s.len() {
        Ok(bits64(int_at(s, pos, 8, order)))
    } else if pos + 4 <= s.len() {
        Ok(bits64(int_at(s, pos, 4, order)))
    } else {
        Err(DecodeError::Truncated)
    }
}

/// The actions and seed of the compressed block `block`, in `mode`.
pub open spec fn block_actions(mode: GameMode, block: Seq<u8>) -> Result<(Seq<ActionModel>, Option<i32>), DecodeError> {
    match lzma_inflate(block, LZMA_MEMLIMIT as nat) {
        None => Err(DecodeError::Decompression),
        Some(raw) => action_stream(mode, raw),
    }
}

/// The replay that the buffer `s` holds.
pub open spec fn replay_model(s: Seq<u8>, order: ByteOrder, header_only: bool) -> Result<ReplayModel, DecodeError> {
    if s.len() < 5 {
        Err(DecodeError::Truncated)
    } else {
        match string_field(s, 5) {
            Err(e) => Err(e),
            Ok((beatmap_hash, p1)) => match string_field(s, p1) {
                Err(e) => Err(e),
                Ok((username, p2)) => match string_field(s, p2) {
                    Err(e) => Err(e),
                    Ok((replay_hash, p3)) => if s.len() < p3 + 23 {
                        Err(DecodeError::Truncated)
                    } else {
                        match string_field_bytes(s, p3 + 23) {
                            Err(e) => Err(e),
                            Ok((life_text, p4)) => match life_bar_graph(life_text) {
                                Err(e) => Err(e),
                                Ok(life) => replay_model_tail(
                                    s, order, header_only, beatmap_hash, username, replay_hash, p3, life, p4),
                            },
                        }
                    },
                },
            },
        }
    }
}

/// The rest of the replay once the text fields are read: `p3` is where the
/// counters start and `p4` where the timestamp does.
pub open spec fn replay_model_tail(
    s: Seq<u8>,
    order: ByteOrder,
    header_only: bool,
    beatmap_hash: Option<Seq<char>>,
    username: Option<Seq<char>>,
    replay_hash: Option<Seq<char>>,
    p3: int,
    life: Option<Seq<(u32, Seq<u8>)>>,
    p4: int,
) -> Result<ReplayModel, DecodeError> {
    let mode = mode_of(s[0] as i8);
    if s.len() < p4 + 8 {
        Err(DecodeError::Truncated)
    } else if mode == GameMode::UNKNOWN {
        Err(DecodeError::UnsupportedMode)
    } else if s.len() < p4 + 12 {
        Err(DecodeError::Truncated)
    } else {
        let n = int_at(s, p4 + 8, 4, order);
        let start = p4 + 12;
        if n < 0 {
            Err(DecodeError::BadLength)
        } else if n > s.len() - start {
            Err(DecodeError::Truncated)
        } else {
            let acts: Result<Option<(Seq<ActionModel>, Option<i32>)>, DecodeError> = if header_only {
                Ok(None)
            } else {
                match block_actions(mode, s.subrange(start, start + n)) {
                    Err(e) => Err(e),
                    Ok(a) => Ok(Some(a)),
                }
            };
            match acts {
                Err(e) => Err(e),
                Ok(a) => match replay_id_at(s, start + n, order) {
                    Err(e) => Err(e),
                    Ok(id) => Ok(ReplayModel {
                        mode,
                        game_version: int_at(s, 1, 4, order) as i32,
                        beatmap_hash,
                        username,
                        replay_hash,
                        count_300: int_at(s, p3, 2, order) as i16,
                        count_100: int_at(s, p3 + 2, 2, order) as i16,
                        count_50: int_at(s, p3 + 4, 2, order) as i16,
                        count_geki: int_at(s, p3 + 6, 2, order) as i16,
                        count_katu: int_at(s, p3 + 8, 2, order) as i16,
                        count_miss: int_at(s, p3 + 10, 2, order) as i16,
                        score: int_at(s, p3 + 12, 4, order) as i32,
                        max_combo: int_at(s, p3 + 16, 2, order) as i16,
                        perfect: s[p3 + 18] == 1,
                        mods: bits32(int_at(s, p3 + 19, 4, order)),
                        life_bar_graph: life,
                        timestamp: int_at(s, p4, 8, order) as i64,
                        replay_data: match a {
                            Some((v, _)) => Some(v),
                            None => None,
                        },
                        rng_seed: match a {
                            Some((_, seed)) => seed,
                            None => None,
                        },
                        replay_id: id,
                    }),
                },
            }
        }
    }
}


/// The 64-bit pattern of `v`.
fn bits_of(v: i64) -> (r: u64)
    ensures
        r == bits64(v as int),
{
    if v < 0 {
        let low: i64 = v + 0x7fff_ffff_ffff_ffff + 1;
        low as u64 + 0x8000_0000_0000_0000
    } else {
        v as u64
    }
}

/// Reads the trailing identifier at `pos`.
pub fn parse_replay_id(data: &[u8], pos: usize, order: ByteOrder) -> (r: Result<u64, DecodeError>)
    ensures
        r == replay_id_at(data@, pos as int, order),
{
    match read_i64(data, pos, order) {
        Ok((v, _)) => Ok(bits_of(v)),
        Err(_) => match read_i32(data, pos, order) {
            Ok((v, _)) => Ok(bits_of(v as i64)),
            Err(e) => Err(e),
        },
    }
}

/// Inflates and decodes the action block, unless only the header is wanted.
fn decode_block(mode: GameMode, block: &[u8], header_only: bool) -> (r: Result<Option<(Vec<Action>, Option<i32>)>, DecodeError>)
    requires
        mode != GameMode::UNKNOWN,
    ensures
        header_only ==> r == Ok::<Option<(Vec<Action>, Option<i32>)>, DecodeError>(None),
        !header_only ==> match (r, block_actions(mode, block@)) {
            (Ok(Some((acts, seed))), Ok((m, s))) => action_views(acts@) == m && seed == s,
            (Err(e), Err(d)) => e == d,
            _ => false,
        },
{
    if header_only {
        return Ok(None);
    }
    match inflate(block) {
        None => Err(DecodeError::Decompression),
        Some(raw) => match parse_replay_string(mode, raw.as_slice()) {
            Ok(a) => Ok(Some(a)),
            Err(e) => Err(e),
        },
    }
}

/// The fixed-width fields between the text fields and the life-bar graph.
struct Counters {
    count_300: i16,
    count_100: i16,
    count_50: i16,
    count_geki: i16,
    count_katu: i16,
    count_miss: i16,
    score: i32,
    max_combo: i16,
    perfect: bool,
    mods: Mod,
}

fn read_counters(data: &[u8], p3: usize, order: ByteOrder) -> (r: Counters)
    requires
        p3 + 23 <= data@.len(),
    ensures
        r.count_300 == int_at(data@, p3 as int, 2, order),
        r.count_100 == int_at(data@, p3 + 2, 2, order),
        r.count_50 == int_at(data@, p3 + 4, 2, order),
        r.count_geki == int_at(data@, p3 + 6, 2, order),
        r.count_katu == int_at(data@, p3 + 8, 2, order),
        r.count_miss == int_at(data@, p3 + 10, 2, order),
        r.score == int_at(data@, p3 + 12, 4, order),
        r.max_combo == int_at(data@, p3 + 16, 2, order),
        r.perfect == (data@[p3 + 18] == 1),
        r.mods.0 == bits32(int_at(data@, p3 + 19, 4, order)),
{
    let len = data.len();
    assert(p3 + 23 <= len);
    let (count_300, _) = read_i16(data, p3, order).unwrap();
    let (count_100, _) = read_i16(data, p3 + 2, order).unwrap();
    let (count_50, _) = read_i16(data, p3 + 4, order).unwrap();
    let (count_geki, _) = read_i16(data, p3 + 6, order).unwrap();
    let (count_katu, _) = read_i16(data, p3 + 8, order).unwrap();
    let (count_miss, _) = read_i16(data, p3 + 10, order).unwrap();
    let (score, _) = read_i32(data, p3 + 12, order).unwrap();
    let (max_combo, _) = read_i16(data, p3 + 16, order).unwrap();
    let perfect = data[p3 + 18] == 1;
    let (mods_bits, _) = read_i32(data, p3 + 19, order).unwrap();
    Counters {
        count_300,
        count_100,
        count_50,
        count_geki,
        count_katu,
        count_miss,
        score,
        max_combo,
        perfect,
        mods: Mod::from_bits(mods_bits),
    }
}

/// Decodes what follows the life-bar field, and assembles the replay.
#[verifier::rlimit(30)]
fn decode_tail(
    data: &[u8],
    order: ByteOrder,
    header_only: bool,
    beatmap_hash: Option<String>,
    username: Option<String>,
    replay_hash: Option<String>,
    p3: usize,
    life_bar_graph: Option<Vec<LifeBarState>>,
    p4: usize,
) -> (r: Result<Replay, DecodeError>)
    requires
        data@.len() >= 5,
        p3 + 23 <= data@.len(),
    ensures
        match (r, replay_model_tail(data@, order, header_only, text_view(beatmap_hash),
            text_view(username), text_view(replay_hash), p3 as int, life_view(life_bar_graph), p4 as int)) {
            (Ok(rep), Ok(m)) => rep@ == m,
            (Err(e), Err(d)) => e == d,
            _ => false,
        },
{
    let mode = GameMode::from_i8(data[0] as i8);
    let (game_version, _) = read_i32(data, 1, order).unwrap();
    let (timestamp, p) = match read_i64(data, p4, order) {
        Ok(x) => x,
        Err(e) => return Err(e),
    };
    if mode == GameMode::UNKNOWN {
        return Err(DecodeError::UnsupportedMode);
    }
    let (n, start) = match read_i32(data, p, order) {
        Ok(x) => x,
        Err(e) => return Err(e),
    };
    if n < 0 {
        return Err(DecodeError::BadLength);
    }
    if n as usize > data.len() - start {
        return Err(DecodeError::Truncated);
    }
    let end = start + n as usize;
    let block = slice_range(data, start, end);
    let acts = match decode_block(mode, block, header_only) {
        Ok(a) => a,
        Err(e) => return Err(e),
    };
    let replay_id = match parse_replay_id(data, end, order) {
        Ok(id) => id,
        Err(e) => return Err(e),
    };
    let c = read_counters(data, p3, order);
    let (replay_data, rng_seed) = match acts {
        Some((v, seed)) => (Some(v), seed),
        None => (None, None),
    };
    Ok(Replay {
        mode,
        game_version,
        beatmap_hash,
        username,
        replay_hash,
        count_300: c.count_300,
        count_100: c.count_100,
        count_50: c.count_50,
        count_geki: c.count_geki,
        count_katu: c.count_katu,
        count_miss: c.count_miss,
        score: c.score,
        max_combo: c.max_combo,
        perfect: c.perfect,
        mods: c.mods,
        life_bar_graph,
        timestamp,
        replay_data,
        rng_seed,
        replay_id,
    })
}

/// Decodes a whole replay buffer; with no configuration, little-endian fields
/// and the actions decoded.
pub fn osr_parser(data: &[u8], config: Option<ParseConfig>) -> (r: Result<Replay, DecodeError>)
    ensures
        ({
            let c = match config {
                Some(c) => c,
                None => ParseConfig { byte_order: ByteOrder::Little, header_only: false },
            };
            match (r, replay_model(data@, c.byte_order, c.header_only)) {
                (Ok(rep), Ok(m)) => rep@ == m,
                (Err(e), Err(d)) => e == d,
                _ => false,
            }
        }),
{
    let c = match config {
        Some(c) => c,
        None => ParseConfig::default(),
    };
    let order = c.byte_order;
    if data.len() < 5 {
        return Err(DecodeError::Truncated);
    }
    let (beatmap_hash, p1) = match parse_string(data, 5) {
        Ok(x) => x,
        Err(e) => return Err(e),
    };
    let (username, p2) = match parse_string(data, p1) {
        Ok(x) => x,
        Err(e) => return Err(e),
    };
    let (replay_hash, p3) = match parse_string(data, p2) {
        Ok(x) => x,
        Err(e) => return Err(e),
    };
    if p3 > data.len() || data.len() - p3 < 23 {
        return Err(DecodeError::Truncated);
    }
    let (life_text, p4) = match parse_string_bytes(data, p3 + 23) {
        Ok(x) => x,
        Err(e) => return Err(e),
    };
    let life_bar_graph = match parse_life_bar_graph(life_text) {
        Ok(x) => x,
        Err(e) => return Err(e),
    };
    decode_tail(data, order, c.header_only, beatmap_hash, username, replay_hash, p3, life_bar_graph, p4)
}

/// Decodes a whole replay buffer.
pub fn replay_from_bytes(data: &[u8], config: Option<ParseConfig>) -> (r: Result<Replay, DecodeError>)
    ensures
        ({
            let c = match config {
                Some(c) => c,
                None => ParseConfig { byte_order: ByteOrder::Little, header_only: false },
            };
            match (r, replay_model(data@, c.byte_order, c.header_only)) {
                (Ok(rep), Ok(m)) => rep@ == m,
                (Err(e), Err(d)) => e == d,
                _ => false,
            }
        }),
{
    osr_parser(data, config)
}


/// Decoding only the header leaves the actions and the seed absent and never
/// consults the compressed block's contents.
pub proof fn lemma_header_only(s: Seq<u8>, order: ByteOrder)
    ensures
        replay_model(s, order, true) matches Ok(m) ==> m.replay_data is None && m.rng_seed is None,
{
}

/// Where the full decode succeeds, the header-only decode succeeds too and
/// agrees with it on every header field.
pub proof fn lemma_header_only_agrees(s: Seq<u8>, order: ByteOrder)
    ensures
        replay_model(s, order, false) matches Ok(full) ==> replay_model(s, order, true) matches Ok(head) && {
            &&& head.mode == full.mode
            &&& head.game_version == full.game_version
            &&& head.beatmap_hash == full.beatmap_hash
            &&& head.username == full.username
            &&& head.replay_hash == full.replay_hash
            &&& head.count_300 == full.count_300
            &&& head.count_100 == full.count_100
            &&& head.count_50 == full.count_50
            &&& head.count_geki == full.count_geki
            &&& head.count_katu == full.count_katu
            &&& head.count_miss == full.count_miss
            &&& head.score == full.score
            &&& head.max_combo == full.max_combo
            &&& head.perfect == full.perfect
            &&& head.mods == full.mods
            &&& head.life_bar_graph == full.life_bar_graph
            &&& head.timestamp == full.timestamp
            &&& head.replay_id == full.replay_id
        },
{
}

} // verus!
