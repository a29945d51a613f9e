//! Pipeline tests: outcome extraction, the duration rule, rating
//! bookkeeping with the real rater linked in, the stats key rule, and
//! the envelope fabric.

use std::collections::VecDeque;

use w3g_common::api::leaderboard;
use w3g_common::errors::{ExtractError, RatingError};
use w3g_common::extractor::{apply_duration_rule, get_game_result};
use w3g_common::ingest::{filter_new_game_ids, normalize_realm, GameIdDto};
use w3g_common::model::{Action, Command, GameHeader, GameRecord, PlayerRecord, Replay, ReplayBlock, ReplayHeader, SlotRecord};
use w3g_common::pubsub::{decode_key, encode_key, route_reply, IdStats, IdTeam, Message, Player};
use w3g_common::rating::{expand_to_lcm, truncate_rated, Rating, BETA_BITS};
use w3g_common::stats::{find_player_stats, plan_rating_update, same_player_key, update_stats, upsert_stats};

fn player(name: &str, realm: &str) -> Player {
    Player::new(name.to_string(), realm.to_string())
}

fn sync_action(group: &str, key: &str, value: i32) -> Action {
    Action::SyncStoredInteger {
        file: b"ID.D".to_vec(),
        group: group.as_bytes().to_vec(),
        key: key.as_bytes().to_vec(),
        value,
    }
}

fn player_record(record_id: u8, player_id: u8, name: &str) -> PlayerRecord {
    PlayerRecord {
        record_id,
        player_id,
        player_name: name.as_bytes().to_vec(),
        additional_data_size: 0,
        additional_data: Vec::new(),
    }
}

fn slot(player_id: u8) -> SlotRecord {
    SlotRecord {
        player_id,
        download_percent: 100,
        slot_status: 2,
        player_flag: 0,
        team_number: 0,
        color: player_id,
        race: 1,
        ai_strength: 0,
        handicap: 100,
    }
}

/// A decoded replay whose single tick carries the given actions.
fn replay_with_actions(actions: Vec<Action>, duration: u32) -> Replay {
    Replay {
        magic_string: b"Warcraft III recorded game\x1A\0".to_vec(),
        file_offset: 0x44,
        compressed_size: 0,
        header_version: 1,
        decompressed_size: 0,
        number_of_compressed_blocks: 1,
        replay_header: ReplayHeader {
            version_string: b"PX3W".to_vec(),
            version_number: 26,
            build_number: 6059,
            flags: 0x8000,
            duration,
            crc32: 0,
        },
        game_header: GameHeader {
            unknown: 0,
            replay_saver: player_record(0, 1, "host"),
            game_name: b"lobby".to_vec(),
            encoded_string: vec![0x41, 0x00],
            number_of_players: 2,
            game_type: 9,
            language_id: 0,
            players: vec![player_record(0x16, 2, "ally")],
            game_record: GameRecord {
                record_id: 0x19,
                num_data_bytes: 0,
                num_slot_records: 2,
                slot_records: vec![slot(1), slot(2)],
                random_seed: 7,
                select_mode: 3,
                start_spot_count: 2,
            },
        },
        replay_blocks: vec![ReplayBlock::Tick {
            num_bytes: 0,
            time_increment: 250,
            commands: vec![Command { player_id: 1, num_bytes: 0, actions }],
        }],
    }
}

fn standard_actions() -> Vec<Action> {
    vec![
        sync_action("class", "0", 3),
        sync_action("class", "1", 2),
        sync_action("game_start", "0", 1),
        sync_action("flag", "0", 1),
    ]
}

#[test]
fn extract_result_builder_win() {
    let replay = replay_with_actions(standard_actions(), 600_000);
    let roster = vec![player("grumble007", "useast.battle.net"), player("ougi", "useast.battle.net")];
    let result = get_game_result(&roster, &replay).unwrap();
    assert_eq!(result.winner, IdTeam::Builder);
    assert_eq!(result.builders.len(), 1);
    assert_eq!(result.titans.len(), 1);
    assert_eq!(result.builders[0].name, "grumble007");
    assert_eq!(result.titans[0].name, "ougi");
}

#[test]
fn extract_result_is_deterministic() {
    let replay = replay_with_actions(standard_actions(), 600_000);
    let roster = vec![player("a", "useast.battle.net"), player("b", "uswest.battle.net")];
    let x = get_game_result(&roster, &replay).unwrap();
    let y = get_game_result(&roster, &replay).unwrap();
    assert_eq!(x.winner, y.winner);
    assert_eq!(x.builders.len(), y.builders.len());
    assert_eq!(x.builders[0].name, y.builders[0].name);
    assert_eq!(x.titans[0].name, y.titans[0].name);
}

#[test]
fn class_events_after_game_start_are_ignored() {
    let mut actions = standard_actions();
    // after the game started, slot 1 claims to be a builder; it stays a titan
    actions.push(sync_action("class", "1", 3));
    let replay = replay_with_actions(actions, 600_000);
    let roster = vec![player("a", "r"), player("b", "r")];
    let result = get_game_result(&roster, &replay).unwrap();
    assert_eq!(result.titans.len(), 1);
    assert_eq!(result.builders.len(), 1);
}

#[test]
fn last_flag_event_wins() {
    let mut actions = standard_actions();
    actions.push(sync_action("flag", "1", 1)); // later: the titan won after all
    let replay = replay_with_actions(actions, 600_000);
    let roster = vec![player("a", "r"), player("b", "r")];
    let result = get_game_result(&roster, &replay).unwrap();
    assert_eq!(result.winner, IdTeam::Titan);
}

#[test]
fn empty_team_is_an_error() {
    // no titan classification at all
    let actions = vec![sync_action("class", "0", 3), sync_action("flag", "0", 1)];
    let replay = replay_with_actions(actions, 600_000);
    let roster = vec![player("a", "r"), player("b", "r")];
    assert_eq!(get_game_result(&roster, &replay).err(), Some(ExtractError::EmptyTeam));
}

#[test]
fn zero_player_id_is_an_error() {
    let mut replay = replay_with_actions(standard_actions(), 600_000);
    replay.game_header.replay_saver.player_id = 0;
    let roster = vec![player("a", "r"), player("b", "r")];
    assert_eq!(get_game_result(&roster, &replay).err(), Some(ExtractError::BadPlayerId));
}

#[test]
fn duration_clamp_turns_long_titan_win_into_tie() {
    assert_eq!(apply_duration_rule(IdTeam::Titan, 3_600_001), IdTeam::Tie);
    assert_eq!(apply_duration_rule(IdTeam::Titan, 3_600_000), IdTeam::Titan);
    assert_eq!(apply_duration_rule(IdTeam::Builder, 3_600_001), IdTeam::Builder);
    assert_eq!(apply_duration_rule(IdTeam::Tie, 3_600_001), IdTeam::Tie);
}

fn default_rating() -> Rating {
    Rating::new(1500f64.to_bits(), 500f64.to_bits())
}

fn mu(r: Rating) -> f64 {
    f64::from_bits(r.mu_bits)
}

/// The rater of the outside crate, on two already-expanded teams.
fn rate(first: &[Rating], second: &[Rating], ranks: [usize; 2]) -> (Vec<Rating>, Vec<Rating>) {
    let to_bbt = |r: &Rating| bbt::Rating::new(f64::from_bits(r.mu_bits), f64::from_bits(r.sigma_bits));
    let mut a: Vec<bbt::Rating> = first.iter().map(to_bbt).collect();
    let mut b: Vec<bbt::Rating> = second.iter().map(to_bbt).collect();
    {
        let mut ar: Vec<&mut bbt::Rating> = a.iter_mut().collect();
        let mut br: Vec<&mut bbt::Rating> = b.iter_mut().collect();
        let mut teams = [&mut ar[..], &mut br[..]];
        bbt::Rater::new(f64::from_bits(BETA_BITS))
            .update_ratings(&mut teams, ranks)
            .unwrap();
    }
    let back = |r: &bbt::Rating| Rating::new(r.mu().to_bits(), r.sigma().to_bits());
    (a.iter().map(back).collect(), b.iter().map(back).collect())
}

#[test]
fn team_size_is_invariant_under_expansion() {
    let three = vec![default_rating(); 3];
    let two = vec![Rating::new(1400f64.to_bits(), 400f64.to_bits()); 2];
    let (a, b) = expand_to_lcm(&three, &two);
    assert_eq!(a.len(), 6);
    assert_eq!(b.len(), 6);
    assert_eq!(a[3], a[0]);
    assert_eq!(b[2], b[0]);
    let (ra, rb) = rate(&a, &b, [1, 2]);
    let (ta, tb) = truncate_rated((ra, rb), 3, 2);
    assert_eq!(ta.len(), 3);
    assert_eq!(tb.len(), 2);
}

#[test]
fn rating_update_is_symmetric_for_equal_teams() {
    // two equal-size teams with identical ratings: swapping who won
    // yields ratings that are exact permutations of each other
    let team = vec![default_rating(); 2];
    let (a_w, a_l) = rate(&team, &team, [1, 2]);
    let (b_l, b_w) = rate(&team, &team, [2, 1]);
    for i in 0..2 {
        assert_eq!(a_w[i], b_w[i]);
        assert_eq!(a_l[i], b_l[i]);
    }
    assert!(mu(a_w[0]) > 1500.0);
    assert!(mu(a_l[0]) < 1500.0);
}

fn fresh_stats(name: &str) -> IdStats {
    IdStats::default(player(name, "useast.battle.net"))
}

#[test]
fn titan_win_moves_counters_and_ratings() {
    let builders = vec![fresh_stats("b1"), fresh_stats("b2")];
    let titans = vec![fresh_stats("t1")];
    let plan = plan_rating_update(&builders, &titans, IdTeam::Titan).unwrap().unwrap();
    assert_eq!(plan.2, (2, 1));
    assert_eq!(plan.0.len(), 2);
    assert_eq!(plan.1.len(), 2);
    let (rated_b, rated_t) = rate(&plan.0, &plan.1, [plan.2.0, plan.2.1]);
    let (rated_b, rated_t) = truncate_rated((rated_b, rated_t), builders.len(), titans.len());
    let (new_b, new_t) = update_stats(builders, titans, IdTeam::Titan, rated_b, rated_t).unwrap();
    assert_eq!(new_b[0].builder_stats.losses, 1);
    assert_eq!(new_b[0].builder_stats.wins, 0);
    assert_eq!(new_b[1].builder_stats.losses, 1);
    assert_eq!(new_t[0].titan_stats.wins, 1);
    assert_eq!(new_t[0].titan_stats.losses, 0);
    assert!(mu(new_b[0].builder_stats.rating) < 1500.0);
    assert!(mu(new_t[0].titan_stats.rating) > 1500.0);
    // the untouched role is untouched
    assert_eq!(new_b[0].titan_stats.wins, 0);
    assert_eq!(mu(new_b[0].titan_stats.rating), 1500.0);
}

#[test]
fn tie_bumps_only_tie_counters() {
    let builders = vec![fresh_stats("b1")];
    let titans = vec![fresh_stats("t1")];
    assert_eq!(plan_rating_update(&builders, &titans, IdTeam::Tie).unwrap(), None);
    let (new_b, new_t) = update_stats(builders, titans, IdTeam::Tie, Vec::new(), Vec::new()).unwrap();
    assert_eq!(new_b[0].builder_stats.ties, 1);
    assert_eq!(new_b[0].builder_stats.wins, 0);
    assert_eq!(new_b[0].builder_stats.losses, 0);
    assert_eq!(new_t[0].titan_stats.ties, 1);
    assert_eq!(new_b[0].builder_stats.rating, default_rating());
    assert_eq!(new_t[0].titan_stats.rating, default_rating());
}

#[test]
fn empty_side_of_a_decided_match_is_refused() {
    let titans = vec![fresh_stats("t1")];
    assert_eq!(
        plan_rating_update(&Vec::new(), &titans, IdTeam::Builder),
        Err(RatingError::EmptyTeam),
    );
}

#[test]
fn empty_result_is_a_noop() {
    let (new_b, new_t) =
        update_stats(Vec::new(), Vec::new(), IdTeam::Builder, Vec::new(), Vec::new()).unwrap();
    assert_eq!(new_b.len(), 0);
    assert_eq!(new_t.len(), 0);
    // and writing nothing leaves a collection as it was
    let collection = vec![fresh_stats("kimimaru")];
    let unchanged: Vec<IdStats> = collection;
    assert_eq!(unchanged.len(), 1);
    assert_eq!(unchanged[0].player.name, "kimimaru");
}

#[test]
fn potential_projections_for_a_full_lobby() {
    // ten builders and one titan, all at the default rating
    let builders = vec![default_rating(); 10];
    let titan = vec![default_rating(); 1];
    let (be, te) = expand_to_lcm(&builders, &titan);
    assert_eq!(be.len(), 10);
    assert_eq!(te.len(), 10);
    // builders win
    let (bw_b, bw_t) = rate(&be, &te, [1, 2]);
    let (bw_b, bw_t) = truncate_rated((bw_b, bw_t), 10, 1);
    // titan wins
    let (tw_t, tw_b) = rate(&te, &be, [1, 2]);
    let (tw_t, tw_b) = truncate_rated((tw_t, tw_b), 1, 10);
    for i in 0..10 {
        let gain = mu(bw_b[i]) - 1500.0;
        let loss = mu(tw_b[i]) - 1500.0;
        assert!(gain > 0.0, "builder gain must be positive");
        assert!(loss < 0.0, "builder loss must be negative");
        let titan_gain = (mu(tw_t[0]) - 1500.0).abs();
        // with identical ratings the cyclic expansion makes the two
        // sides perfectly symmetric, so the lone titan's stake meets
        // every builder's instead of exceeding it
        assert!(titan_gain >= gain.abs(), "the lone titan risks at least as much as any builder");
    }
    let _ = (bw_t, tw_b);
}

#[test]
fn stats_key_rule_folds_case_on_name_only() {
    let a = player("Grumble007", "useast.battle.net");
    let b = player("gRUMBLE007", "useast.battle.net");
    let c = player("grumble007", "uswest.battle.net");
    assert!(same_player_key(&a, &b));
    assert!(!same_player_key(&a, &c));
    let collection = vec![IdStats::default(b.duplicate())];
    let found = find_player_stats(&a, &collection);
    assert_eq!(found.player.name, "gRUMBLE007");
    let missing = find_player_stats(&c, &collection);
    assert_eq!(missing.player.name, "grumble007");
    assert_eq!(missing.builder_stats.wins, 0);
}

#[test]
fn upsert_replaces_by_key_or_appends() {
    let collection = vec![fresh_stats("Alpha"), fresh_stats("beta")];
    let mut replacement = fresh_stats("ALPHA");
    replacement.builder_stats.wins = 5;
    let written = upsert_stats(collection, replacement);
    assert_eq!(written.len(), 2);
    assert_eq!(written[0].player.name, "ALPHA");
    assert_eq!(written[0].builder_stats.wins, 5);
    assert_eq!(written[1].player.name, "beta");
    let appended = upsert_stats(written, fresh_stats("gamma"));
    assert_eq!(appended.len(), 3);
    assert_eq!(appended[2].player.name, "gamma");
}

#[test]
fn leaderboard_request_travels_the_envelope_chain() {
    // the router publishes a sized request whose reply topic rides in
    // the destination queue; the stats side pops it and answers there
    let mut destinations = VecDeque::new();
    destinations.push_back("id-leaderboard-response".to_string());
    let request: Message<u32> = Message::new(10, destinations, None);
    assert_eq!(request.data, 10);

    let stats = vec![fresh_stats("ougi")];
    let mut rows = Vec::new();
    for s in &stats {
        rows.push(leaderboard::Builder::from_id_stats(s.duplicate()));
    }
    let board = leaderboard::LeaderBoard::new(rows, Vec::new());
    assert!(board.builders.len() <= 10);
    assert_eq!(board.builders[0].name, "ougi");
    assert_eq!(f64::from_bits(board.builders[0].rating), 1500.0);

    let routed = route_reply(request, board);
    let (topic, reply) = routed.expect("a routed request must have a reply topic");
    assert_eq!(topic, "id-leaderboard-response");
    assert_eq!(reply.destinations.len(), 0);
    assert_eq!(reply.data.builders.len(), 1);

    // a reply with no remaining destination roots the chain
    let spent: Message<u32> = Message::new(1, VecDeque::new(), None);
    assert!(route_reply(spent, 0u32).is_none());
}

#[test]
fn broker_keys_round_trip_big_endian() {
    let key = 0x0102_0304_0506_0708u64;
    let bytes = encode_key(key);
    assert_eq!(bytes, vec![1, 2, 3, 4, 5, 6, 7, 8]);
    assert_eq!(decode_key(&bytes), Some(key));
    assert_eq!(decode_key(&vec![1, 2, 3]), None);
}

#[test]
fn realms_normalise_to_canonical_forms() {
    assert_eq!(normalize_realm("USEast".to_string()), "useast.battle.net");
    assert_eq!(normalize_realm("USWest".to_string()), "uswest.battle.net");
    assert_eq!(normalize_realm("Europe".to_string()), "europe.battle.net");
    assert_eq!(normalize_realm("Asia".to_string()), "asia.battle.net");
    assert_eq!(normalize_realm("entconnect".to_string()), "entconnect");
    assert_eq!(normalize_realm("Kalimdor".to_string()), "Kalimdor");
}

#[test]
fn ledger_filter_keeps_only_unseen_ids() {
    let ids = vec![5, 10, 15, 20, 25];
    assert_eq!(filter_new_game_ids(&ids, 10, 20), vec![5, 25]);
    assert_eq!(filter_new_game_ids(&ids, i64::MIN, i64::MAX), Vec::<i64>::new());
    let dto = GameIdDto::new(25, true, false);
    assert!(dto.was_parsed && !dto.was_sent_over_pubsub);
    assert_eq!(dto.game_id, 25);
}

#[test]
fn mismatched_rated_lists_are_refused() {
    let builders = vec![fresh_stats("b1")];
    let titans = vec![fresh_stats("t1")];
    let r = update_stats(builders, titans, IdTeam::Builder, Vec::new(), Vec::new());
    assert_eq!(r.err(), Some(RatingError::MismatchedRatings));
}

#[test]
fn reclassification_moves_a_player_between_teams() {
    // both players start as builders; the second is then reclassified
    // as the titan and must leave the builder team
    let actions = vec![
        sync_action("class", "0", 3),
        sync_action("class", "1", 3),
        sync_action("class", "1", 2),
        sync_action("game_start", "0", 1),
        sync_action("flag", "0", 1),
    ];
    let replay = replay_with_actions(actions, 600_000);
    let roster = vec![player("a", "r"), player("b", "r")];
    let result = get_game_result(&roster, &replay).unwrap();
    assert_eq!(result.builders.len(), 1);
    assert_eq!(result.titans.len(), 1);
    assert_eq!(result.builders[0].name, "a");
    assert_eq!(result.titans[0].name, "b");
    assert_eq!(result.winner, IdTeam::Builder);
}

#[test]
fn observer_flags_do_not_decide_the_winner() {
    // slot 0 is an observer (enumerated with the builders); its flag
    // event must not settle the match
    let actions = vec![
        sync_action("class", "0", 4),
        sync_action("class", "1", 2),
        sync_action("game_start", "0", 1),
        sync_action("flag", "0", 1),
    ];
    let replay = replay_with_actions(actions, 600_000);
    let roster = vec![player("watcher", "r"), player("titan", "r")];
    let result = get_game_result(&roster, &replay).unwrap();
    assert_eq!(result.builders.len(), 1);
    assert_eq!(result.titans.len(), 1);
    assert_eq!(result.winner, IdTeam::Tie);
}

#[test]
fn extraction_applies_the_stalemate_clamp() {
    // the titan is flagged the winner; past one hour the recorded
    // winner is a tie, at the boundary it stands
    let actions = vec![
        sync_action("class", "0", 3),
        sync_action("class", "1", 2),
        sync_action("game_start", "0", 1),
        sync_action("flag", "1", 1),
    ];
    let roster = vec![player("a", "r"), player("b", "r")];
    let long_replay = replay_with_actions(actions.clone(), 3_600_001);
    assert_eq!(get_game_result(&roster, &long_replay).unwrap().winner, IdTeam::Tie);
    let boundary_replay = replay_with_actions(actions, 3_600_000);
    assert_eq!(get_game_result(&roster, &boundary_replay).unwrap().winner, IdTeam::Titan);
}
