use osucore::bytes::{read_i16, read_i32, read_i64};
use osucore::flags::render_flags;
use osucore::life_bar::parse_life_bar_graph;
use osucore::string_field::{parse_string, parse_string_bytes};
use osucore::text::{leading_i32, leading_i64, parse_u32, split_bytes};
use osucore::events::decode_record;
use osucore::replay::parse_replay_id;
use osucore::{
    osr_parser, parse_replay_data, parse_replay_string, replay_from_bytes, Action, ByteOrder,
    DecodeError, FlagKind, GameMode, Key, KeyMania, KeyTaiko, Mod, ParseConfig,
};

const LZMA_STREAM: [u8; 49] = [
    93, 0, 0, 16, 0, 255, 255, 255, 255, 255, 255, 255, 255, 0, 24, 31, 2, 67, 81, 3, 180, 0, 85,
    87, 216, 83, 171, 4, 141, 101, 35, 96, 60, 88, 142, 21, 225, 183, 220, 22, 7, 24, 108, 31, 255,
    74, 20, 0, 0,
];

fn push_text(out: &mut Vec<u8>, text: Option<&str>) {
    match text {
        None => out.push(0x00),
        Some(t) => {
            out.push(0x0B);
            assert!(t.len() < 128);
            out.push(t.len() as u8);
            out.extend_from_slice(t.as_bytes());
        }
    }
}

fn replay_bytes(mode: u8, life: Option<&str>, block: &[u8], id: &[u8]) -> Vec<u8> {
    let mut out = vec![mode];
    out.extend_from_slice(&20230101i32.to_le_bytes());
    push_text(&mut out, Some("abc123"));
    push_text(&mut out, Some("player"));
    push_text(&mut out, None);
    for c in [300i16, 100, 50, 10, 5, 2] {
        out.extend_from_slice(&c.to_le_bytes());
    }
    out.extend_from_slice(&123456i32.to_le_bytes());
    out.extend_from_slice(&789i16.to_le_bytes());
    out.push(1);
    out.extend_from_slice(&24i32.to_le_bytes());
    push_text(&mut out, life);
    out.extend_from_slice(&637000000000000000i64.to_le_bytes());
    out.extend_from_slice(&(block.len() as i32).to_le_bytes());
    out.extend_from_slice(block);
    out.extend_from_slice(id);
    out
}

fn std_actions(acts: &[Action]) -> Vec<(i64, String, String, i32)> {
    acts.iter()
        .map(|a| match a {
            Action::Std(e) => (
                e.time_delta,
                String::from_utf8(e.x.clone()).unwrap(),
                String::from_utf8(e.y.clone()).unwrap(),
                e.keys.0,
            ),
            _ => panic!("not a standard action"),
        })
        .collect()
}

#[test]
fn absent_string_takes_one_byte() {
    for rest in [vec![], vec![0x0B, 0x05], vec![0xFF; 4]] {
        let mut data = vec![0x00];
        data.extend(rest);
        assert_eq!(parse_string(&data, 0), Ok((None, 1)));
    }
    assert_eq!(parse_string(&[7, 7, 0x00], 2), Ok((None, 3)));
}

#[test]
fn empty_present_string() {
    assert_eq!(parse_string(&[0x0B, 0x00], 0), Ok((Some(String::new()), 2)));
}

#[test]
fn present_string_text() {
    let data = [0x0B, 3, b'a', b'b', b'c', 9];
    assert_eq!(parse_string(&data, 0), Ok((Some("abc".to_string()), 5)));
    let bytes = parse_string_bytes(&data, 0).unwrap();
    assert_eq!(bytes, (Some(&data[2..5]), 5));
}

#[test]
fn multi_byte_length_prefix() {
    let mut data = vec![0x0B, 0x80 | 44, 1];
    data.extend(std::iter::repeat(b'x').take(172));
    let (text, next) = parse_string(&data, 0).unwrap();
    assert_eq!(text.unwrap().len(), 172);
    assert_eq!(next, 175);
}

#[test]
fn presence_byte_one_is_rejected() {
    assert_eq!(parse_string(&[0x01, 0x00], 0), Err(DecodeError::BadPresenceByte));
    assert_eq!(parse_string(&[0x0C], 0), Err(DecodeError::BadPresenceByte));
}

#[test]
fn string_errors() {
    assert_eq!(parse_string(&[], 0), Err(DecodeError::Truncated));
    assert_eq!(parse_string(&[0x0B], 0), Err(DecodeError::Truncated));
    assert_eq!(parse_string(&[0x0B, 4, b'a'], 0), Err(DecodeError::Truncated));
    assert_eq!(parse_string(&[0x0B, 2, 0xC3, 0x28], 0), Err(DecodeError::InvalidUtf8));
    assert_eq!(parse_string(&[0x0B, 0x80, 0x80], 0), Err(DecodeError::Truncated));
    let mut long = vec![0x0B];
    long.extend([0xFF; 19]);
    assert_eq!(parse_string(&long, 0), Err(DecodeError::BadLength));
}

#[test]
fn integer_readers() {
    let data = [0xFE, 0xFF, 0x01, 0x02, 0x03, 0x04, 0x05, 0x06];
    assert_eq!(read_i16(&data, 0, ByteOrder::Little), Ok((-2, 2)));
    assert_eq!(read_i16(&data, 0, ByteOrder::Big), Ok((-257, 2)));
    assert_eq!(read_i32(&data, 2, ByteOrder::Little), Ok((0x04030201, 6)));
    assert_eq!(read_i32(&data, 2, ByteOrder::Big), Ok((0x01020304, 6)));
    assert_eq!(read_i64(&data, 0, ByteOrder::Little), Ok((0x060504030201FFFEu64 as i64, 8)));
    assert_eq!(read_i64(&data, 1, ByteOrder::Little), Err(DecodeError::Truncated));
    assert_eq!(read_i32(&data, 6, ByteOrder::Little), Err(DecodeError::Truncated));
}

#[test]
fn life_bar_pairs_in_order() {
    let states = parse_life_bar_graph(Some(b"0|1.0,100|0.95,")).unwrap().unwrap();
    assert_eq!(states.len(), 2);
    assert_eq!(states[0].time, 0);
    assert_eq!(states[1].time, 100);
    let life: Vec<f32> = states
        .iter()
        .map(|s| std::str::from_utf8(&s.life).unwrap().parse::<f32>().unwrap())
        .collect();
    assert_eq!(life, vec![1.0f32, 0.95f32]);
}

#[test]
fn life_bar_absent_cases() {
    assert!(parse_life_bar_graph(None).unwrap().is_none());
    assert!(parse_life_bar_graph(Some(b"")).unwrap().is_none());
    assert!(parse_life_bar_graph(Some(b",,no pipe,")).unwrap().is_none());
}

#[test]
fn life_bar_keeps_rest_after_first_pipe_and_rejects_bad_time() {
    let states = parse_life_bar_graph(Some(b"5|0.5|x,junk")).unwrap().unwrap();
    assert_eq!(states.len(), 1);
    assert_eq!(states[0].life, b"0.5|x".to_vec());
    assert_eq!(parse_life_bar_graph(Some(b"-1|0.5")).err(), Some(DecodeError::BadLifeBar));
    assert_eq!(parse_life_bar_graph(Some(b"4294967296|0.5")).err(), Some(DecodeError::BadLifeBar));
}

#[test]
fn std_stream_with_seed() {
    let (acts, seed) =
        parse_replay_string(GameMode::STD, b"0|0|0|0,-12345|0|0|1234567890,").unwrap();
    assert_eq!(std_actions(&acts), vec![(0, "0".to_string(), "0".to_string(), 0)]);
    assert_eq!(seed, Some(1234567890));
}

#[test]
fn seed_without_trailing_comma() {
    let (acts, seed) = parse_replay_string(GameMode::STD, b"7|1.5|2.5|3,-12345|0|0|42").unwrap();
    assert_eq!(std_actions(&acts), vec![(7, "1.5".to_string(), "2.5".to_string(), 3)]);
    assert_eq!(seed, Some(42));
}

#[test]
fn last_action_kept_without_marker() {
    let (acts, seed) = parse_replay_string(GameMode::STD, b"1|0|0|0,2|0|0|5,").unwrap();
    assert_eq!(acts.len(), 2);
    assert_eq!(seed, None);
    let (acts, seed) = parse_replay_string(GameMode::STD, b"1|0|0|0,-12345|0|0|5,|").unwrap();
    assert_eq!(acts.len(), 2);
    assert_eq!(acts[1].time_delta(), -12345);
    assert_eq!(seed, None);
}

#[test]
fn empty_first_field_is_dropped() {
    let (acts, seed) = parse_replay_string(GameMode::STD, b"|1|2|3,4|1|2|3").unwrap();
    assert_eq!(std_actions(&acts), vec![(4, "1".to_string(), "2".to_string(), 3)]);
    assert_eq!(seed, None);
    let (acts, seed) = parse_replay_string(GameMode::MANIA, b"").unwrap();
    assert!(acts.is_empty());
    assert_eq!(seed, None);
}

#[test]
fn bad_records_fail() {
    assert_eq!(parse_replay_string(GameMode::STD, b"1|2|3").err(), Some(DecodeError::BadRecord));
    assert_eq!(parse_replay_string(GameMode::STD, b"a|2|3|4").err(), Some(DecodeError::BadRecord));
    assert_eq!(parse_replay_string(GameMode::TAIKO, b"1|x|3|4").err(), Some(DecodeError::BadRecord));
    assert_eq!(parse_replay_string(GameMode::MANIA, b"1").err(), Some(DecodeError::BadRecord));
    assert_eq!(
        parse_replay_string(GameMode::UNKNOWN, b"1|2|3|4").err(),
        Some(DecodeError::UnsupportedMode)
    );
}

#[test]
fn mania_record_uses_second_field() {
    let (acts, _) = parse_replay_string(GameMode::MANIA, b"5|12|0|0").unwrap();
    assert_eq!(acts.len(), 1);
    match &acts[0] {
        Action::Mania(e) => {
            assert_eq!(e.time_delta, 5);
            assert_eq!(e.keys, KeyMania(12));
        }
        _ => panic!("not a mania action"),
    }
}

#[test]
fn taiko_and_catch_records() {
    let fields = split_bytes(b"10|320|99|4", b'|');
    match decode_record(GameMode::TAIKO, &fields).unwrap().unwrap() {
        Action::Taiko(e) => {
            assert_eq!((e.time_delta, e.x, e.keys), (10, 320, KeyTaiko(4)));
        }
        _ => panic!("not a taiko action"),
    }
    match decode_record(GameMode::CTB, &fields).unwrap().unwrap() {
        Action::Catch(e) => {
            assert_eq!(e.time_delta, 10);
            assert_eq!(e.x, b"320".to_vec());
            assert!(!e.dashing);
        }
        _ => panic!("not a catch action"),
    }
    let dash = split_bytes(b"3|1.25|0|1", b'|');
    match decode_record(GameMode::CTB, &dash).unwrap().unwrap() {
        Action::Catch(e) => assert!(e.dashing),
        _ => panic!("not a catch action"),
    }
}

#[test]
fn unknown_mode_data_reads_as_standard() {
    let acts = parse_replay_data(b"1|2|3|4,-12345|0|0|9,", GameMode::UNKNOWN).unwrap();
    assert_eq!(std_actions(&acts), vec![(1, "2".to_string(), "3".to_string(), 4)]);
}

#[test]
fn mods_combine_by_addition() {
    let one = Mod(1);
    assert_eq!(one.combine(&Mod(1)), Mod(2));
    assert_ne!(one.combine(&Mod(1)), Mod(1));
    assert_eq!(Key(1).combine(&Key(1)).0, 2);
    assert_eq!(Mod(3).xor(&Mod(5)), Mod(6));
    assert_eq!(Mod(3).and(&Mod(5)), Mod(1));
    assert_eq!(KeyTaiko(9).sub(&KeyTaiko(4)), 5);
    assert_eq!(KeyMania(9).add(&KeyMania(4)), 13);
    assert!(Key(2) < Key(3));
    assert!(!Key(0).is_set());
}

#[test]
fn key_render_lists_flags_high_to_low() {
    assert_eq!(Key(0b101).render(), "<Key.K1|M1: 5>");
}

#[test]
fn render_zero_and_mods() {
    assert_eq!(Key(0).render(), "<Key.: 0>");
    assert_eq!(Mod(0).render(), "<Mod.0: 0>");
    assert_eq!(Mod(24).render(), "<Mod.HardRock|Hidden: 24>");
    assert_eq!(Mod(1 << 30).render(), "<Mod.Mirror: 1073741824>");
    assert_eq!(KeyTaiko(15).render(), "<KeyTaiko.RIGHT_KAT|RIGHT_DON|LEFT_KAT|LEFT_DON: 15>");
    assert_eq!(KeyMania(1 << 17).render(), "<KeyMania.K18: 131072>");
    assert_eq!(render_flags(FlagKind::Keys, 16), "<Key.SMOKE: 16>");
}

#[test]
fn leading_integers() {
    assert_eq!(leading_i64(b"-12345"), Some(-12345));
    assert_eq!(leading_i64(b"12ab"), Some(12));
    assert_eq!(leading_i64(b""), None);
    assert_eq!(leading_i64(b"x1"), None);
    assert_eq!(leading_i32(b"2147483648"), None);
    assert_eq!(leading_i32(b"-2147483648"), Some(i32::MIN));
    assert_eq!(parse_u32(b"+7"), Some(7));
    assert_eq!(parse_u32(b"7 "), None);
    assert_eq!(parse_u32(b"4294967295"), Some(u32::MAX));
}

#[test]
fn header_only_std_replay() {
    let data = replay_bytes(0, None, &[1, 2, 3], &42i64.to_le_bytes());
    let r = replay_from_bytes(&data, Some(ParseConfig::new(true))).unwrap();
    assert_eq!(r.mode, GameMode::STD);
    assert_eq!(r.game_version, 20230101);
    assert_eq!(r.beatmap_hash.as_deref(), Some("abc123"));
    assert_eq!(r.username.as_deref(), Some("player"));
    assert_eq!(r.replay_hash, None);
    assert_eq!(
        (r.count_300, r.count_100, r.count_50, r.count_geki, r.count_katu, r.count_miss),
        (300, 100, 50, 10, 5, 2)
    );
    assert_eq!((r.score, r.max_combo, r.perfect), (123456, 789, true));
    assert_eq!(r.mods, Mod(24));
    assert!(r.life_bar_graph.is_none());
    assert_eq!(r.timestamp, 637000000000000000);
    assert!(r.replay_data.is_none());
    assert_eq!(r.rng_seed, None);
    assert_eq!(r.replay_id, 42);
}

#[test]
fn full_decode_inflates_actions() {
    let data = replay_bytes(0, Some("0|1,50|0.5"), &LZMA_STREAM, &7i64.to_le_bytes());
    let r = osr_parser(&data, None).unwrap();
    let acts = r.replay_data.unwrap();
    assert_eq!(std_actions(&acts), vec![(0, "256".to_string(), "-500".to_string(), 0)]);
    assert_eq!(r.rng_seed, Some(77));
    assert_eq!(r.life_bar_graph.unwrap().len(), 2);
    assert_eq!(r.replay_id, 7);
}

#[test]
fn corrupt_block_fails_to_inflate() {
    let data = replay_bytes(0, None, &[1, 2, 3, 4, 5], &7i64.to_le_bytes());
    assert_eq!(osr_parser(&data, None).err(), Some(DecodeError::Decompression));
}

#[test]
fn unknown_mode_is_unsupported() {
    let data = replay_bytes(9, None, &[], &7i64.to_le_bytes());
    assert_eq!(replay_from_bytes(&data, Some(ParseConfig::new(true))).err(), Some(DecodeError::UnsupportedMode));
}

#[test]
fn replay_id_falls_back_to_four_bytes() {
    let data = replay_bytes(0, None, &[], &(-1i32).to_le_bytes());
    let r = replay_from_bytes(&data, Some(ParseConfig::new(true))).unwrap();
    assert_eq!(r.replay_id, u64::MAX);
    assert_eq!(parse_replay_id(&[1, 0, 0], 0, ByteOrder::Little), Err(DecodeError::Truncated));
    assert_eq!(parse_replay_id(&[5, 0, 0, 0, 0, 0, 0, 0], 0, ByteOrder::Little), Ok(5));
}

#[test]
fn truncated_replays_fail() {
    let data = replay_bytes(0, None, &[1, 2, 3], &42i64.to_le_bytes());
    for cut in [0, 4, 12, 30, 40] {
        assert!(replay_from_bytes(&data[..cut], Some(ParseConfig::new(true))).is_err());
    }
    let mut negative = replay_bytes(0, None, &[], &42i64.to_le_bytes());
    let at = negative.len() - 8 - 4;
    negative[at..at + 4].copy_from_slice(&(-1i32).to_le_bytes());
    assert_eq!(replay_from_bytes(&negative, Some(ParseConfig::new(true))).err(), Some(DecodeError::BadLength));
}

#[test]
fn config_defaults() {
    let c: ParseConfig = Default::default();
    assert_eq!(c.byte_order, ByteOrder::Little);
    assert!(!c.header_only);
    assert_eq!(GameMode::from_i8(3), GameMode::MANIA);
    assert_eq!(GameMode::from_i8(-1).value(), 4);
}
