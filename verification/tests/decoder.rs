//! Byte-level tests of the replay decoder: a synthetic replay built
//! from scratch, compressed with real zlib, decoded, and checked field
//! by field; plus the failure modes the format owes.

use std::io::Write;

use w3g_common::errors::DecodeError;
use w3g_common::model::{Action, AllianceType, GameSpeed, OrderType, ReplayBlock};
use w3g_common::parser::{parse_replay, parse_replay_data};

fn push_u16(v: &mut Vec<u8>, x: u16) {
    v.extend_from_slice(&x.to_le_bytes());
}

fn push_u32(v: &mut Vec<u8>, x: u32) {
    v.extend_from_slice(&x.to_le_bytes());
}

fn push_i32(v: &mut Vec<u8>, x: i32) {
    v.extend_from_slice(&x.to_le_bytes());
}

fn push_zstr(v: &mut Vec<u8>, s: &str) {
    v.extend_from_slice(s.as_bytes());
    v.push(0);
}

/// A stored-integer sync action under file `ID.D`.
fn push_sync_integer(v: &mut Vec<u8>, group: &str, key: &str, value: i32) {
    v.push(0x6B);
    push_zstr(v, "ID.D");
    push_zstr(v, group);
    push_zstr(v, key);
    push_i32(v, value);
}

/// The logical decompressed stream of a two-player match in which the
/// saver (slot 0) is classified a builder, the other player (slot 1)
/// the titan, and the builder is flagged the winner.
fn synthetic_stream() -> Vec<u8> {
    let mut s = Vec::new();
    // game header
    push_u32(&mut s, 0); // unknown
    s.push(0x00); // saver record id
    s.push(0x01); // saver player id (one-based)
    push_zstr(&mut s, "host");
    s.push(0x00); // additional data size
    push_zstr(&mut s, "lobby");
    s.push(0x00); // skipped byte
    s.extend_from_slice(&[0x41, 0x00]); // encoded string with terminator
    push_u32(&mut s, 2); // number of players
    push_u32(&mut s, 9); // game type
    push_u32(&mut s, 0); // language id
    // one more player record, framed by 0x16
    s.push(0x16);
    s.push(0x02); // player id
    push_zstr(&mut s, "ally");
    s.push(0x01); // additional data size
    s.push(0xAA);
    push_u32(&mut s, 0xDEAD_BEEF); // discarded trailing value
    // game record, framed by the tag that ended the player list
    s.push(0x19);
    push_u16(&mut s, 0); // num data bytes
    s.push(2); // slot count
    for slot in 0..2u8 {
        s.extend_from_slice(&[slot + 1, 100, 2, 0, slot, slot, 1, 0, 100]);
    }
    push_u32(&mut s, 0x1234_5678); // random seed
    s.push(3); // select mode
    s.push(2); // start spot count
    // one tick with one command holding four sync actions
    let mut actions = Vec::new();
    push_sync_integer(&mut actions, "class", "0", 3);
    push_sync_integer(&mut actions, "class", "1", 2);
    push_sync_integer(&mut actions, "game_start", "0", 1);
    push_sync_integer(&mut actions, "flag", "0", 1);
    let mut command = Vec::new();
    command.push(0x01); // acting player
    push_u16(&mut command, actions.len() as u16);
    command.extend_from_slice(&actions);
    s.push(0x1F);
    push_u16(&mut s, (command.len() + 2) as u16);
    push_u16(&mut s, 250); // time increment
    s.extend_from_slice(&command);
    // a leave-game block
    s.push(0x17);
    push_u32(&mut s, 1);
    s.push(0x02);
    push_u32(&mut s, 7);
    push_u32(&mut s, 1);
    // terminator
    s.push(0x00);
    s
}

/// A whole replay file around a logical stream: magic header, replay
/// header, and one zlib-compressed block.
fn synthetic_file(stream: &[u8], duration_ms: u32) -> Vec<u8> {
    let mut encoder = libflate::zlib::Encoder::new(Vec::new()).unwrap();
    encoder.write_all(stream).unwrap();
    let compressed = encoder.finish().into_result().unwrap();

    let mut f = Vec::new();
    f.extend_from_slice(b"Warcraft III recorded game\x1A\0");
    assert_eq!(f.len(), 28);
    push_u32(&mut f, 0x44); // header size
    push_u32(&mut f, (compressed.len() + 8) as u32); // compressed size
    push_u32(&mut f, 1); // header version
    push_u32(&mut f, stream.len() as u32); // decompressed size
    push_u32(&mut f, 1); // block count
    f.extend_from_slice(b"PX3W"); // version string
    push_u32(&mut f, 26);
    push_u16(&mut f, 6059); // build
    push_u16(&mut f, 0x8000); // flags
    push_u32(&mut f, duration_ms);
    push_u32(&mut f, 0); // crc
    push_u16(&mut f, compressed.len() as u16);
    push_u16(&mut f, stream.len() as u16);
    push_u32(&mut f, 0); // block crc
    f.extend_from_slice(&compressed);
    f
}

#[test]
fn decode_synthetic_replay() {
    let stream = synthetic_stream();
    let file = synthetic_file(&stream, 600_000);
    let replay = parse_replay(&file).expect("a well-formed replay must decode");

    assert_eq!(replay.magic_string, b"Warcraft III recorded game\x1A\0".to_vec());
    assert_eq!(replay.header_version, 1);
    assert_eq!(replay.replay_header.duration, 600_000);
    assert_eq!(replay.replay_header.build_number, 6059);
    assert_eq!(replay.game_header.replay_saver.player_id, 1);
    assert_eq!(replay.game_header.replay_saver.player_name, b"host".to_vec());
    assert_eq!(replay.game_header.players.len(), 1);
    assert_eq!(replay.game_header.players[0].player_name, b"ally".to_vec());
    assert_eq!(replay.game_header.players[0].additional_data, vec![0xAA]);
    assert_eq!(replay.game_header.game_record.record_id, 0x19);
    assert_eq!(replay.game_header.game_record.slot_records.len(), 2);
    assert_eq!(replay.game_header.game_record.random_seed, 0x1234_5678);
    assert_eq!(replay.replay_blocks.len(), 2);

    // at least one tick with a class sync under file ID.D
    match &replay.replay_blocks[0] {
        ReplayBlock::Tick { num_bytes, time_increment, commands } => {
            assert_eq!(*time_increment, 250);
            assert_eq!(commands.len(), 1);
            assert_eq!(commands[0].player_id, 1);
            assert_eq!(commands[0].actions.len(), 4);
            // every action's on-wire size is accounted: the actions of
            // the command fill its byte count exactly
            assert_eq!(*num_bytes as usize - 2, 3 + commands[0].num_bytes as usize);
            match &commands[0].actions[0] {
                Action::SyncStoredInteger { file, group, key, value } => {
                    assert_eq!(file, &b"ID.D".to_vec());
                    assert_eq!(group, &b"class".to_vec());
                    assert_eq!(key, &b"0".to_vec());
                    assert_eq!(*value, 3);
                },
                other => panic!("expected a stored-integer sync, got {:?}", other),
            }
        },
        other => panic!("expected a tick, got {:?}", other),
    }
}

#[test]
fn decode_is_deterministic() {
    let file = synthetic_file(&synthetic_stream(), 600_000);
    let a = parse_replay(&file).unwrap();
    let b = parse_replay(&file).unwrap();
    assert_eq!(a, b);
}

#[test]
fn short_file_is_refused() {
    let file = synthetic_file(&synthetic_stream(), 600_000);
    let r = parse_replay(&file[..40].to_vec());
    assert_eq!(r, Err(DecodeError::ShortRead));
}

#[test]
fn corrupt_compression_is_refused() {
    let mut file = synthetic_file(&synthetic_stream(), 600_000);
    let n = file.len();
    file[n - 10] ^= 0xFF;
    file[n - 11] ^= 0xFF;
    let r = parse_replay(&file);
    assert!(r == Err(DecodeError::Decompress) || r == Err(DecodeError::ShortRead));
}

#[test]
fn unknown_action_tag_is_fatal() {
    let mut stream = synthetic_stream();
    // a second tick whose single action carries an undocumented tag
    stream.pop(); // drop the terminator
    stream.push(0x1F);
    push_u16(&mut stream, 2 + 3 + 1);
    push_u16(&mut stream, 100);
    stream.push(0x01);
    push_u16(&mut stream, 1);
    stream.push(0x7F); // no such action
    stream.push(0x00);
    assert_eq!(parse_replay_data(&stream), Err(DecodeError::UnknownActionTag));
}

#[test]
fn unknown_block_tag_is_fatal() {
    let mut stream = synthetic_stream();
    stream.pop();
    stream.push(0x42); // no such block
    stream.push(0x00);
    assert_eq!(parse_replay_data(&stream), Err(DecodeError::UnknownBlockTag));
}

#[test]
fn invalid_game_speed_is_refused() {
    let mut stream = synthetic_stream();
    stream.pop();
    stream.push(0x1F);
    push_u16(&mut stream, 2 + 3 + 2);
    push_u16(&mut stream, 100);
    stream.push(0x01);
    push_u16(&mut stream, 2);
    stream.push(0x03); // set game speed
    stream.push(0x09); // not a speed
    stream.push(0x00);
    assert_eq!(parse_replay_data(&stream), Err(DecodeError::InvalidEnumValue));
}

#[test]
fn malformed_utf8_in_text_is_refused() {
    let mut stream = Vec::new();
    push_u32(&mut stream, 0);
    stream.push(0x00);
    stream.push(0x01);
    stream.extend_from_slice(&[0xFF, 0xFE, 0x00]); // not UTF-8, then NUL
    assert_eq!(parse_replay_data(&stream), Err(DecodeError::InvalidUtf8));
}

#[test]
fn chat_without_terminator_is_refused() {
    let mut stream = synthetic_stream();
    stream.pop();
    stream.push(0x20); // player chat
    stream.push(0x01); // player id
    push_u16(&mut stream, 6 + 2); // length: flags + mode + two text bytes
    stream.push(0x00); // flags
    push_u32(&mut stream, 0); // chat mode
    stream.extend_from_slice(b"hi");
    stream.push(0x07); // should have been zero
    stream.push(0x00);
    assert_eq!(parse_replay_data(&stream), Err(DecodeError::MissingTerminator));
}

#[test]
fn order_flags_decode_every_bit() {
    assert_eq!(
        OrderType::from_u16(0xFFFF),
        vec![
            OrderType::Queue,
            OrderType::Train,
            OrderType::Construct,
            OrderType::Group,
            OrderType::NoFormation,
            OrderType::Summon,
            OrderType::AutoCastOn,
        ],
    );
    assert_eq!(OrderType::from_u16(0), vec![]);
    assert_eq!(OrderType::from_u16(0x21), vec![OrderType::Queue, OrderType::Summon]);
    // the OR of the decoded flags recovers the recognised bits
    let word: u16 = 0x00D3;
    let folded = OrderType::from_u16(word)
        .iter()
        .fold(0u16, |acc, f| acc | order_bit(*f));
    assert_eq!(folded, word & 0xBF);
}

fn order_bit(f: OrderType) -> u16 {
    match f {
        OrderType::Queue => 0x01,
        OrderType::Train => 0x02,
        OrderType::Construct => 0x04,
        OrderType::Group => 0x08,
        OrderType::NoFormation => 0x10,
        OrderType::Summon => 0x20,
        OrderType::AutoCastOn => 0x80,
    }
}

fn alliance_bit(f: AllianceType) -> u32 {
    match f {
        AllianceType::Passive => 0x001,
        AllianceType::HelpRequest => 0x002,
        AllianceType::HelpResponse => 0x004,
        AllianceType::SharedXP => 0x008,
        AllianceType::SharedSpells => 0x010,
        AllianceType::SharedVision => 0x020,
        AllianceType::SharedControl => 0x040,
        AllianceType::FullSharedControl => 0x080,
        AllianceType::Rescuable => 0x100,
        AllianceType::SharedVisionForced => 0x200,
        AllianceType::AlliedVictory => 0x400,
    }
}

#[test]
fn alliance_flags_decode_every_bit() {
    let all = AllianceType::from_u32(0xFFFF_FFFF);
    assert_eq!(all.len(), 11);
    for f in &all {
        assert_ne!(0xFFFF_FFFFu32 & alliance_bit(*f), 0);
    }
    let word = 0x0000_F405u32;
    let folded = AllianceType::from_u32(word)
        .iter()
        .fold(0u32, |acc, f| acc | alliance_bit(*f));
    assert_eq!(folded, word & 0x7FF);
}

#[test]
fn game_speed_and_arrow_keys_decode() {
    assert_eq!(GameSpeed::from_u8(0), Ok(GameSpeed::Slow));
    assert_eq!(GameSpeed::from_u8(2), Ok(GameSpeed::Fast));
    assert_eq!(GameSpeed::from_u8(3), Err(DecodeError::InvalidEnumValue));
    assert_eq!(
        w3g_common::model::ArrowKeyEvent::from_u8(7),
        Ok(w3g_common::model::ArrowKeyEvent::ReleasedUpArrow),
    );
    assert_eq!(
        w3g_common::model::ArrowKeyEvent::from_u8(8),
        Err(DecodeError::InvalidEnumValue),
    );
}

#[test]
fn tick_too_short_for_its_time_field_is_refused() {
    let mut stream = synthetic_stream();
    stream.pop();
    stream.push(0x1F);
    push_u16(&mut stream, 1); // cannot even hold the time increment
    push_u16(&mut stream, 100);
    stream.push(0x00);
    assert_eq!(parse_replay_data(&stream), Err(DecodeError::LengthMismatch));
}

#[test]
fn action_overshooting_its_command_is_refused() {
    let mut stream = synthetic_stream();
    stream.pop();
    stream.push(0x1F);
    push_u16(&mut stream, 2 + 3 + 2); // command claims two action bytes
    push_u16(&mut stream, 100);
    stream.push(0x01);
    push_u16(&mut stream, 2);
    stream.push(0x07); // but this action takes five
    push_u32(&mut stream, 9);
    stream.push(0x00);
    assert_eq!(parse_replay_data(&stream), Err(DecodeError::LengthMismatch));
}
