//! The outcome extractor: replays the decoded action stream as a small
//! state machine to learn the team composition and the winner.
//!
//! The map script broadcasts authoritative state through synchronised
//! integers keyed on a (file, group, key) triple: under file `ID.D`,
//! group `class` classifies a slot's player before the game starts,
//! group `game_start` freezes the teams, and group `flag` marks a slot's
//! player a winner or loser; the team the flagged player belongs to at
//! that moment decides the overall winner, the last such event from a
//! non-observer winning. Reclassification moves a player: a player
//! stands in `builders` or `titans`, never both. A match that ran
//! longer than an hour and settled on a titan victory is recorded as a
//! tie.

use vstd::prelude::*;
use vstd::multiset::Multiset;
use vstd::relations::{sorted_by, total_ordering};
use vstd::seq_lib::lemma_sorted_unique;
use crate::errors::ExtractError;
use crate::model::{
    Action, ActionV, Command, CommandV, PlayerRecordV, Replay, ReplayBlock, ReplayBlockV, ReplayV,
};
use crate::pubsub::{IdGameResult, IdGameResultV, IdTeam, Player, PlayerV};

verus! {

/// The byte ordering that the slot list is sorted by.
pub open spec fn u8_le() -> spec_fn(u8, u8) -> bool {
    |a: u8, b: u8| a <= b
}

/// The bytes of the file name `ID.D`.
pub open spec fn id_file_bytes() -> Seq<u8> {
    seq![0x49u8, 0x44u8, 0x2Eu8, 0x44u8]
}

/// The bytes of the group name `flag`.
pub open spec fn flag_group_bytes() -> Seq<u8> {
    seq![0x66u8, 0x6Cu8, 0x61u8, 0x67u8]
}

/// The bytes of the group name `class`.
pub open spec fn class_group_bytes() -> Seq<u8> {
    seq![0x63u8, 0x6Cu8, 0x61u8, 0x73u8, 0x73u8]
}

/// The bytes of the group name `game_start`.
pub open spec fn game_start_group_bytes() -> Seq<u8> {
    seq![0x67u8, 0x61u8, 0x6Du8, 0x65u8, 0x5Fu8, 0x73u8, 0x74u8, 0x61u8, 0x72u8, 0x74u8]
}

/// Folds decimal digits into a value, refusing anything over one byte.
pub open spec fn dec_digits_val(b: Seq<u8>, acc: int) -> Option<int>
    decreases b.len(),
{
    if b.len() == 0 {
        Some(acc)
    } else if 0x30 <= b[0] <= 0x39 {
        let acc2 = acc * 10 + (b[0] - 0x30);
        if acc2 > 255 {
            None
        } else {
            dec_digits_val(b.drop_first(), acc2)
        }
    } else {
        None
    }
}

/// The slot number a key names: an optional plus sign, then decimal
/// digits, with a value that fits in one byte.
pub open spec fn parse_u8_key(b: Seq<u8>) -> Option<u8> {
    let d = if b.len() > 0 && b[0] == 0x2B {
        b.drop_first()
    } else {
        b
    };
    if d.len() == 0 {
        None
    } else {
        match dec_digits_val(d, 0) {
            Some(v) => Some(v as u8),
            None => None,
        }
    }
}

/// What [`parse_u8_key`] returns, phrased over the digits run that
/// remains after an optional leading plus sign.
proof fn lemma_key_digits(key: Seq<u8>, d: Seq<u8>)
    requires
        d == (if key.len() > 0 && key[0] == 0x2B {
            key.drop_first()
        } else {
            key
        }),
    ensures
        d.len() == 0 ==> parse_u8_key(key) is None,
        d.len() > 0 && dec_digits_val(d, 0) is None ==> parse_u8_key(key) is None,
        (d.len() > 0 && dec_digits_val(d, 0) matches Some(v)) ==> parse_u8_key(key) == Some(
            (dec_digits_val(d, 0)->Some_0) as u8,
        ),
{
}

/// Parses a key as a slot number, exactly as [`parse_u8_key`] says.
pub fn key_to_slot(key: &Vec<u8>) -> (r: Option<u8>)
    ensures
        r == parse_u8_key(key@),
{
    let mut i: usize = 0;
    if key.len() > 0 && key[0] == 0x2B {
        i = 1;
    }
    let ghost d = if key@.len() > 0 && key@[0] == 0x2B {
        key@.drop_first()
    } else {
        key@
    };
    proof {
        assert(d =~= key@.subrange(i as int, key@.len() as int));
    }
    if i >= key.len() {
        proof {
            lemma_key_digits(key@, d);
        }
        return None;
    }
    let mut acc: u32 = 0;
    while i < key.len()
        invariant
            0 <= i <= key@.len(),
            acc <= 255,
            d == (if key@.len() > 0 && key@[0] == 0x2B {
                key@.drop_first()
            } else {
                key@
            }),
            d.len() > 0,
            dec_digits_val(d, 0) == dec_digits_val(
                key@.subrange(i as int, key@.len() as int),
                acc as int,
            ),
        decreases key@.len() - i,
    {
        let b = key[i];
        let ghost rest = key@.subrange(i as int, key@.len() as int);
        proof {
            assert(rest[0] == key@[i as int]);
            assert(rest.drop_first() =~= key@.subrange(i as int + 1, key@.len() as int));
        }
        if b < 0x30 || b > 0x39 {
            proof {
                assert(dec_digits_val(rest, acc as int) is None);
                lemma_key_digits(key@, d);
            }
            return None;
        }
        let acc2 = acc * 10 + ((b - 0x30) as u32);
        if acc2 > 255 {
            proof {
                assert(dec_digits_val(rest, acc as int) is None);
                lemma_key_digits(key@, d);
            }
            return None;
        }
        acc = acc2;
        i = i + 1;
    }
    proof {
        assert(key@.subrange(key@.len() as int, key@.len() as int) =~= Seq::<u8>::empty());
        assert(dec_digits_val(d, 0) == Some(acc as int));
        lemma_key_digits(key@, d);
    }
    Some(acc as u8)
}

/// The roster built by zipping the first `k` sorted slot ids with the
/// externally supplied player list; a repeated id keeps the later
/// pairing.
pub open spec fn spec_roster(ids: Seq<u8>, players: Seq<PlayerV>, k: int) -> Map<u8, PlayerV>
    decreases k,
{
    if k <= 0 {
        Map::empty()
    } else {
        spec_roster(ids, players, k - 1).insert(ids[k - 1], players[k - 1])
    }
}

/// The state of the outcome machine. Observers ride along in
/// `builders` for team enumeration but are tracked so that their flag
/// events never decide the winner.
pub struct StateV {
    pub game_started: bool,
    pub winner: IdTeam,
    pub builders: Seq<PlayerV>,
    pub titans: Seq<PlayerV>,
    pub observers: Seq<PlayerV>,
}

/// Whether a team already holds a player.
pub open spec fn team_has(team: Seq<PlayerV>, p: PlayerV) -> bool {
    exists|i: int| 0 <= i < team.len() && team[i] == p
}

/// A team with a player added, unless already present.
pub open spec fn team_with(team: Seq<PlayerV>, p: PlayerV) -> Seq<PlayerV> {
    if team_has(team, p) {
        team
    } else {
        team.push(p)
    }
}

/// A team with every entry of a player taken out, order kept.
pub open spec fn team_without(team: Seq<PlayerV>, p: PlayerV) -> Seq<PlayerV>
    decreases team.len(),
{
    if team.len() == 0 {
        Seq::empty()
    } else {
        (if team[0] == p {
            Seq::<PlayerV>::empty()
        } else {
            seq![team[0]]
        }) + team_without(team.drop_first(), p)
    }
}

/// One step of the outcome machine.
pub open spec fn step_action(st: StateV, a: ActionV, roster: Map<u8, PlayerV>) -> StateV {
    match a {
        ActionV::SyncStoredInteger { file, group, key, value } => {
            if file == id_file_bytes() && group == flag_group_bytes() {
                match parse_u8_key(key) {
                    Some(slot) => {
                        if roster.contains_key(slot) {
                            let p = roster[slot];
                            if team_has(st.observers, p) {
                                st
                            } else if value == 0 {
                                if team_has(st.builders, p) {
                                    StateV { winner: IdTeam::Titan, ..st }
                                } else if team_has(st.titans, p) {
                                    StateV { winner: IdTeam::Builder, ..st }
                                } else {
                                    st
                                }
                            } else if value == 1 {
                                if team_has(st.builders, p) {
                                    StateV { winner: IdTeam::Builder, ..st }
                                } else if team_has(st.titans, p) {
                                    StateV { winner: IdTeam::Titan, ..st }
                                } else {
                                    st
                                }
                            } else {
                                st
                            }
                        } else {
                            st
                        }
                    },
                    None => st,
                }
            } else if file == id_file_bytes() && group == class_group_bytes() {
                if st.game_started {
                    st
                } else {
                    match parse_u8_key(key) {
                        Some(slot) => {
                            if roster.contains_key(slot) {
                                let p = roster[slot];
                                if value == 2 {
                                    StateV {
                                        builders: team_without(st.builders, p),
                                        titans: team_with(st.titans, p),
                                        observers: team_without(st.observers, p),
                                        ..st
                                    }
                                } else if value == 4 {
                                    StateV {
                                        builders: team_with(st.builders, p),
                                        titans: team_without(st.titans, p),
                                        observers: team_with(st.observers, p),
                                        ..st
                                    }
                                } else if value == 0 || value == 1 || value == 3 {
                                    StateV {
                                        builders: team_with(st.builders, p),
                                        titans: team_without(st.titans, p),
                                        observers: team_without(st.observers, p),
                                        ..st
                                    }
                                } else {
                                    st
                                }
                            } else {
                                st
                            }
                        },
                        None => st,
                    }
                }
            } else if file == id_file_bytes() && group == game_start_group_bytes() {
                StateV { game_started: true, ..st }
            } else {
                st
            }
        },
        _ => st,
    }
}

/// The machine run over the actions of one command.
pub open spec fn steps_actions(st: StateV, actions: Seq<ActionV>, roster: Map<u8, PlayerV>) -> StateV
    decreases actions.len(),
{
    if actions.len() == 0 {
        st
    } else {
        steps_actions(step_action(st, actions[0], roster), actions.drop_first(), roster)
    }
}

/// The machine run over the commands of one tick.
pub open spec fn steps_commands(st: StateV, commands: Seq<CommandV>, roster: Map<u8, PlayerV>) -> StateV
    decreases commands.len(),
{
    if commands.len() == 0 {
        st
    } else {
        steps_commands(
            steps_actions(st, commands[0].actions, roster),
            commands.drop_first(),
            roster,
        )
    }
}

/// One replay block: only ticks carry commands; everything else,
/// including a desynchronisation notice, leaves the state unchanged.
pub open spec fn step_block(st: StateV, b: ReplayBlockV, roster: Map<u8, PlayerV>) -> StateV {
    match b {
        ReplayBlockV::Tick { num_bytes: _, time_increment: _, commands } => steps_commands(
            st,
            commands,
            roster,
        ),
        ReplayBlockV::TickPreOverflow { num_bytes: _, time_increment: _, commands } =>
            steps_commands(st, commands, roster),
        _ => st,
    }
}

/// The machine run over the whole block list.
pub open spec fn steps_blocks(st: StateV, blocks: Seq<ReplayBlockV>, roster: Map<u8, PlayerV>) -> StateV
    decreases blocks.len(),
{
    if blocks.len() == 0 {
        st
    } else {
        steps_blocks(step_block(st, blocks[0], roster), blocks.drop_first(), roster)
    }
}

/// The machine's starting state: teams in flux and a tie on record.
pub open spec fn initial_state() -> StateV {
    StateV {
        game_started: false,
        winner: IdTeam::Tie,
        builders: Seq::empty(),
        titans: Seq::empty(),
        observers: Seq::empty(),
    }
}

/// The one-based player ids that the replay header names: the saving
/// player first, then the other player records in order.
pub open spec fn wire_ids(rep: ReplayV) -> Seq<u8> {
    seq![rep.game_header.replay_saver.player_id] + rep.game_header.players.map_values(
        |p: PlayerRecordV| p.player_id,
    )
}

/// The sorted zero-based slot ids of the roster.
pub open spec fn sorted_slot_ids(rep: ReplayV) -> Seq<u8> {
    wire_ids(rep).map_values(|id: u8| (id - 1) as u8).sort_by(u8_le())
}

/// What outcome extraction returns, as a pure function of the supplied
/// player list and the decoded replay. The long-titan-stalemate rule is
/// part of extraction: the winner on record is already clamped.
pub open spec fn spec_extract(players: Seq<PlayerV>, rep: ReplayV) -> Result<
    IdGameResultV,
    ExtractError,
> {
    let wire = wire_ids(rep);
    if exists|i: int| 0 <= i < wire.len() && wire[i] == 0 {
        Err(ExtractError::BadPlayerId)
    } else {
        let ids = sorted_slot_ids(rep);
        let n = if ids.len() <= players.len() {
            ids.len() as int
        } else {
            players.len() as int
        };
        let roster = spec_roster(ids, players, n);
        let st = steps_blocks(initial_state(), rep.replay_blocks, roster);
        if st.builders.len() == 0 || st.titans.len() == 0 {
            Err(ExtractError::EmptyTeam)
        } else {
            Ok(IdGameResultV {
                builders: st.builders,
                titans: st.titans,
                winner: spec_duration_rule(st.winner, rep.replay_header.duration),
            })
        }
    }
}

/// The executable state of the outcome machine.
pub struct ExtractState {
    pub game_started: bool,
    pub winner: IdTeam,
    pub builders: Vec<Player>,
    pub titans: Vec<Player>,
    pub observers: Vec<Player>,
}

impl View for ExtractState {
    type V = StateV;

    open spec fn view(&self) -> StateV {
        StateV {
            game_started: self.game_started,
            winner: self.winner,
            builders: self.builders@.map_values(|p: Player| p@),
            titans: self.titans@.map_values(|p: Player| p@),
            observers: self.observers@.map_values(|p: Player| p@),
        }
    }
}

/// Whether a team already holds a player.
fn team_contains(team: &Vec<Player>, p: &Player) -> (r: bool)
    ensures
        r == team_has(team@.map_values(|q: Player| q@), p@),
{
    let ghost tv = team@.map_values(|q: Player| q@);
    let mut i: usize = 0;
    while i < team.len()
        invariant
            0 <= i <= team@.len(),
            tv == team@.map_values(|q: Player| q@),
            forall|j: int| 0 <= j < i ==> tv[j] != p@,
        decreases team@.len() - i,
    {
        if team[i].same_identity(p) {
            proof {
                assert(tv[i as int] == team@[i as int]@);
                assert(team_has(tv, p@));
            }
            return true;
        }
        i = i + 1;
    }
    false
}

/// Adds a player to a team, unless already present.
fn team_insert(team: &mut Vec<Player>, p: &Player)
    ensures
        final(team)@.map_values(|q: Player| q@) == team_with(
            old(team)@.map_values(|q: Player| q@),
            p@,
        ),
{
    if !team_contains(team, p) {
        let ghost before = team@.map_values(|q: Player| q@);
        team.push(p.duplicate());
        proof {
            assert(team@.map_values(|q: Player| q@) =~= before.push(p@));
        }
    }
}

/// Takes every entry of a player out of a team, order kept.
fn team_remove(team: &mut Vec<Player>, p: &Player)
    ensures
        final(team)@.map_values(|q: Player| q@) == team_without(
            old(team)@.map_values(|q: Player| q@),
            p@,
        ),
{
    let ghost tv = old(team)@.map_values(|q: Player| q@);
    let mut kept: Vec<Player> = Vec::new();
    proof {
        assert(tv.skip(0) =~= tv);
    }
    let mut i: usize = 0;
    while i < team.len()
        invariant
            0 <= i <= team@.len(),
            team@ == old(team)@,
            tv == team@.map_values(|q: Player| q@),
            team_without(tv, p@) == kept@.map_values(|q: Player| q@) + team_without(
                tv.skip(i as int),
                p@,
            ),
        decreases team@.len() - i,
    {
        proof {
            assert(tv.skip(i as int)[0] == tv[i as int]);
            assert(tv.skip(i as int).drop_first() =~= tv.skip(i as int + 1));
        }
        let ghost before = kept@.map_values(|q: Player| q@);
        if !team[i].same_identity(p) {
            kept.push(team[i].duplicate());
            proof {
                assert(kept@.map_values(|q: Player| q@) =~= before.push(tv[i as int]));
                assert(before.push(tv[i as int]) =~= before + seq![tv[i as int]]);
                assert((before + seq![tv[i as int]]) + team_without(tv.skip(i as int + 1), p@)
                    =~= before + (seq![tv[i as int]] + team_without(tv.skip(i as int + 1), p@)));
            }
        }
        i = i + 1;
    }
    proof {
        assert(tv.skip(tv.len() as int) =~= Seq::<PlayerV>::empty());
        assert(kept@.map_values(|q: Player| q@) + Seq::<PlayerV>::empty() =~= kept@.map_values(
            |q: Player| q@,
        ));
    }
    *team = kept;
}

/// Finds the roster entry of a slot: the later of two pairings with the
/// same id wins, as repeated map insertion would have it.
fn roster_lookup(ids: &Vec<u8>, players: &Vec<Player>, n: usize, slot: u8) -> (r: Option<usize>)
    requires
        n <= ids@.len(),
        n <= players@.len(),
    ensures
        ({
            let roster = spec_roster(ids@, players@.map_values(|p: Player| p@), n as int);
            match r {
                Some(j) => j < n && ids@[j as int] == slot && roster.contains_key(slot)
                    && roster[slot] == players@[j as int]@,
                None => !roster.contains_key(slot),
            }
        }),
{
    let ghost pv = players@.map_values(|p: Player| p@);
    let mut j: usize = n;
    while j > 0
        invariant
            0 <= j <= n <= ids@.len(),
            n <= players@.len(),
            pv == players@.map_values(|p: Player| p@),
            spec_roster(ids@, pv, n as int).contains_key(slot) == spec_roster(
                ids@,
                pv,
                j as int,
            ).contains_key(slot),
            spec_roster(ids@, pv, n as int).contains_key(slot) ==> spec_roster(
                ids@,
                pv,
                n as int,
            )[slot] == spec_roster(ids@, pv, j as int)[slot],
        decreases j,
    {
        j = j - 1;
        if ids[j] == slot {
            return Some(j);
        }
    }
    None
}

/// Compares a text field against the file name `ID.D`.
fn is_id_file(v: &Vec<u8>) -> (r: bool)
    ensures
        r == (v@ == id_file_bytes()),
{
    let r = v.len() == 4 && v[0] == 0x49 && v[1] == 0x44 && v[2] == 0x2E && v[3] == 0x44;
    proof {
        if r {
            assert(v@ =~= id_file_bytes());
        } else {
            assert(v@ != id_file_bytes());
        }
    }
    r
}

/// Compares a text field against the group name `flag`.
fn is_flag_group(v: &Vec<u8>) -> (r: bool)
    ensures
        r == (v@ == flag_group_bytes()),
{
    let r = v.len() == 4 && v[0] == 0x66 && v[1] == 0x6C && v[2] == 0x61 && v[3] == 0x67;
    proof {
        if r {
            assert(v@ =~= flag_group_bytes());
        } else {
            assert(v@ != flag_group_bytes());
        }
    }
    r
}

/// Compares a text field against the group name `class`.
fn is_class_group(v: &Vec<u8>) -> (r: bool)
    ensures
        r == (v@ == class_group_bytes()),
{
    let r = v.len() == 5 && v[0] == 0x63 && v[1] == 0x6C && v[2] == 0x61 && v[3] == 0x73 && v[4]
        == 0x73;
    proof {
        if r {
            assert(v@ =~= class_group_bytes());
        } else {
            assert(v@ != class_group_bytes());
        }
    }
    r
}

/// Compares a text field against the group name `game_start`.
fn is_game_start_group(v: &Vec<u8>) -> (r: bool)
    ensures
        r == (v@ == game_start_group_bytes()),
{
    let r = v.len() == 10 && v[0] == 0x67 && v[1] == 0x61 && v[2] == 0x6D && v[3] == 0x65 && v[4]
        == 0x5F && v[5] == 0x73 && v[6] == 0x74 && v[7] == 0x61 && v[8] == 0x72 && v[9] == 0x74;
    proof {
        if r {
            assert(v@ =~= game_start_group_bytes());
        } else {
            assert(v@ != game_start_group_bytes());
        }
    }
    r
}

/// Applies one action to the machine state.
#[verifier::spinoff_prover]
fn apply_action(
    state: &mut ExtractState,
    a: &Action,
    ids: &Vec<u8>,
    players: &Vec<Player>,
    n: usize,
)
    requires
        n <= ids@.len(),
        n <= players@.len(),
    ensures
        final(state)@ == step_action(
            old(state)@,
            a@,
            spec_roster(ids@, players@.map_values(|p: Player| p@), n as int),
        ),
{
    let ghost roster = spec_roster(ids@, players@.map_values(|p: Player| p@), n as int);
    match a {
        Action::SyncStoredInteger { file, group, key, value } => {
            if !is_id_file(file) {
                return;
            }
            if is_flag_group(group) {
                let slot = match key_to_slot(key) {
                    Some(s) => s,
                    None => {
                        return;
                    },
                };
                let j = match roster_lookup(ids, players, n, slot) {
                    Some(j) => j,
                    None => {
                        return;
                    },
                };
                if team_contains(&state.observers, &players[j]) {
                    return;
                }
                if *value == 0 {
                    if team_contains(&state.builders, &players[j]) {
                        state.winner = IdTeam::Titan;
                    } else if team_contains(&state.titans, &players[j]) {
                        state.winner = IdTeam::Builder;
                    }
                } else if *value == 1 {
                    if team_contains(&state.builders, &players[j]) {
                        state.winner = IdTeam::Builder;
                    } else if team_contains(&state.titans, &players[j]) {
                        state.winner = IdTeam::Titan;
                    }
                }
            } else if is_class_group(group) {
                if state.game_started {
                    return;
                }
                let slot = match key_to_slot(key) {
                    Some(s) => s,
                    None => {
                        return;
                    },
                };
                let j = match roster_lookup(ids, players, n, slot) {
                    Some(j) => j,
                    None => {
                        return;
                    },
                };
                if *value == 2 {
                    team_remove(&mut state.builders, &players[j]);
                    team_insert(&mut state.titans, &players[j]);
                    team_remove(&mut state.observers, &players[j]);
                } else if *value == 4 {
                    team_insert(&mut state.builders, &players[j]);
                    team_remove(&mut state.titans, &players[j]);
                    team_insert(&mut state.observers, &players[j]);
                } else if *value == 0 || *value == 1 || *value == 3 {
                    team_insert(&mut state.builders, &players[j]);
                    team_remove(&mut state.titans, &players[j]);
                    team_remove(&mut state.observers, &players[j]);
                }
            } else if is_game_start_group(group) {
                state.game_started = true;
            }
        },
        _ => {},
    }
}

/// Replays the commands of one tick through the machine, handing back
/// the state that the specification fold assigns.
pub fn extract_players_from_commands(
    commands: &Vec<Command>,
    ids: &Vec<u8>,
    players: &Vec<Player>,
    n: usize,
    state: &mut ExtractState,
)
    requires
        n <= ids@.len(),
        n <= players@.len(),
    ensures
        final(state)@ == steps_commands(
            old(state)@,
            commands@.map_values(|c: Command| c@),
            spec_roster(ids@, players@.map_values(|p: Player| p@), n as int),
        ),
{
    let ghost roster = spec_roster(ids@, players@.map_values(|p: Player| p@), n as int);
    let ghost cv = commands@.map_values(|c: Command| c@);
    proof {
        assert(cv.skip(0) =~= cv);
    }
    let mut i: usize = 0;
    while i < commands.len()
        invariant
            0 <= i <= commands@.len(),
            n <= ids@.len(),
            n <= players@.len(),
            roster == spec_roster(ids@, players@.map_values(|p: Player| p@), n as int),
            cv == commands@.map_values(|c: Command| c@),
            steps_commands(old(state)@, cv, roster) == steps_commands(
                state@,
                cv.skip(i as int),
                roster,
            ),
        decreases commands@.len() - i,
    {
        let ghost before = state@;
        let command = &commands[i];
        let ghost av = command.actions@.map_values(|a: Action| a@);
        proof {
            assert(av.skip(0) =~= av);
        }
        let mut k: usize = 0;
        while k < command.actions.len()
            invariant
                0 <= k <= command.actions@.len(),
                n <= ids@.len(),
                n <= players@.len(),
                roster == spec_roster(ids@, players@.map_values(|p: Player| p@), n as int),
                av == command.actions@.map_values(|a: Action| a@),
                steps_actions(before, av, roster) == steps_actions(
                    state@,
                    av.skip(k as int),
                    roster,
                ),
            decreases command.actions@.len() - k,
        {
            proof {
                assert(av.skip(k as int)[0] == av[k as int]);
                assert(av.skip(k as int).drop_first() =~= av.skip(k as int + 1));
            }
            apply_action(state, &command.actions[k], ids, players, n);
            k = k + 1;
        }
        proof {
            assert(av.skip(av.len() as int) =~= Seq::<ActionV>::empty());
            assert(state@ == steps_actions(before, av, roster));
            assert(cv.skip(i as int)[0] == cv[i as int]);
            assert(cv[i as int] == commands@[i as int]@);
            assert(cv.skip(i as int).drop_first() =~= cv.skip(i as int + 1));
        }
        i = i + 1;
    }
    proof {
        assert(cv.skip(cv.len() as int) =~= Seq::<CommandV>::empty());
    }
}

} // verus!

verus! {

/// Sorts the slot ids ascending, returning exactly the sorted
/// permutation that the specification order assigns.
#[verifier::spinoff_prover]
fn sort_ids(input: Vec<u8>) -> (out: Vec<u8>)
    ensures
        out@ == input@.sort_by(u8_le()),
{
    broadcast use vstd::seq_lib::group_to_multiset_ensures;
    broadcast use vstd::multiset::group_multiset_axioms;

    let ghost orig = input@;
    let ghost leq = u8_le();
    let mut rem = input;
    let mut out: Vec<u8> = Vec::new();
    proof {
        assert(out@.to_multiset().add(rem@.to_multiset()) =~= orig.to_multiset());
        assert(sorted_by(out@, leq));
    }
    while rem.len() > 0
        invariant
            leq == u8_le(),
            sorted_by(out@, leq),
            out@.to_multiset().add(rem@.to_multiset()) == orig.to_multiset(),
            forall|x: int, y: int|
                0 <= x < out@.len() && 0 <= y < rem@.len() ==> out@[x] <= rem@[y],
        decreases rem@.len(),
    {
        let mut m: usize = 0;
        let mut k: usize = 1;
        while k < rem.len()
            invariant
                0 <= m < rem@.len(),
                1 <= k <= rem@.len() || rem@.len() == 0,
                forall|t: int| 0 <= t < k && t < rem@.len() ==> rem@[m as int] <= rem@[t],
            decreases rem@.len() - k,
        {
            if rem[k] < rem[m] {
                m = k;
            }
            k = k + 1;
        }
        let ghost rem_before = rem@;
        let ghost out_before = out@;
        let x = rem.remove(m);
        proof {
            assert(rem@ == rem_before.remove(m as int));
            vstd::seq_lib::to_multiset_remove(rem_before, m as int);
            assert(rem@.to_multiset() == rem_before.to_multiset().remove(x));
            vstd::seq_lib::to_multiset_contains(rem_before, x);
            assert(rem_before.to_multiset().count(x) > 0) by {
                assert(rem_before.contains(x)) by {
                    assert(rem_before[m as int] == x);
                }
            }
        }
        out.push(x);
        proof {
            assert(out@ == out_before.push(x));
            vstd::seq_lib::to_multiset_build(out_before, x);
            assert(out@.to_multiset() == out_before.to_multiset().insert(x));
            assert(out@.to_multiset().add(rem@.to_multiset()) =~= orig.to_multiset());
            assert(sorted_by(out@, leq)) by {
                assert(forall|i: int, j: int|
                    0 <= i <= j < out@.len() ==> #[trigger] leq(out@[i], out@[j])) by {
                    assert(forall|i: int|
                        0 <= i < out_before.len() ==> out_before[i] <= x);
                }
            }
            assert forall|a: int, b: int|
                0 <= a < out@.len() && 0 <= b < rem@.len() implies out@[a] <= rem@[b] by {
                assert(rem@[b] == rem_before.remove(m as int)[b]);
                if b < m {
                    assert(rem@[b] == rem_before[b]);
                } else {
                    assert(rem@[b] == rem_before[b + 1]);
                }
                if a < out_before.len() {
                    assert(out@[a] == out_before[a]);
                } else {
                    assert(out@[a] == x);
                    assert(x == rem_before[m as int]);
                }
            }
        }
    }
    proof {
        assert(rem@.to_multiset() =~= Multiset::<u8>::empty());
        assert(out@.to_multiset() =~= orig.to_multiset());
        assert(total_ordering(leq)) by {
            assert(forall|a: u8| #[trigger] leq(a, a));
            assert(forall|a: u8, b: u8| #[trigger] leq(a, b) && leq(b, a) ==> a == b);
            assert(forall|a: u8, b: u8, c: u8|
                #[trigger] leq(a, b) && #[trigger] leq(b, c) ==> leq(a, c));
            assert(forall|a: u8, b: u8| #[trigger] leq(a, b) || #[trigger] leq(b, a));
        }
        orig.lemma_sort_by_ensures(leq);
        lemma_sorted_unique(out@, orig.sort_by(leq), leq);
        assert(out@ =~= orig.sort_by(leq));
    }
    out
}

/// Determines the team composition and the winner of a decoded replay,
/// zipping the externally supplied display-order player list with the
/// replay's sorted slot ids, then replaying the action stream. The
/// long-titan-stalemate rule is applied before the result is returned:
/// a titan victory in a match longer than an hour is recorded as a tie.
///
/// The result is exactly what [`spec_extract`] assigns to the inputs: a
/// pure function of the player list and the replay.
#[verifier::spinoff_prover]
pub fn get_game_result(player_list: &Vec<Player>, replay: &Replay) -> (r: Result<
    IdGameResult,
    ExtractError,
>)
    ensures
        match r {
            Ok(g) => spec_extract(player_list@.map_values(|p: Player| p@), replay@) == Ok::<
                IdGameResultV,
                ExtractError,
            >(g@),
            Err(e) => spec_extract(player_list@.map_values(|p: Player| p@), replay@) == Err::<
                IdGameResultV,
                ExtractError,
            >(e),
        },
{
    let ghost wire = wire_ids(replay@);
    let gh = &replay.game_header;
    let mut raw_ids: Vec<u8> = Vec::new();
    raw_ids.push(gh.replay_saver.player_id);
    let mut i: usize = 0;
    while i < gh.players.len()
        invariant
            0 <= i <= gh.players@.len(),
            wire == wire_ids(replay@),
            gh == replay.game_header,
            raw_ids@ =~= wire.take(1 + i as int),
        decreases gh.players@.len() - i,
    {
        raw_ids.push(gh.players[i].player_id);
        i = i + 1;
        proof {
            assert(wire[i as int] == gh.players@[i - 1]@.player_id);
            assert(raw_ids@ =~= wire.take(1 + i as int));
        }
    }
    proof {
        assert(raw_ids@ =~= wire);
    }
    let mut ids: Vec<u8> = Vec::new();
    let mut j: usize = 0;
    while j < raw_ids.len()
        invariant
            0 <= j <= raw_ids@.len(),
            wire == wire_ids(replay@),
            raw_ids@ == wire,
            forall|t: int| 0 <= t < j ==> wire[t] != 0,
            ids@ =~= wire.map_values(|id: u8| (id - 1) as u8).take(j as int),
        decreases raw_ids@.len() - j,
    {
        let id = raw_ids[j];
        if id == 0 {
            proof {
                assert(wire[j as int] == 0);
                assert(wire_ids(replay@)[j as int] == 0);
                assert(exists|t: int|
                    0 <= t < wire_ids(replay@).len() && wire_ids(replay@)[t] == 0);
            }
            return Err(ExtractError::BadPlayerId);
        }
        ids.push(id - 1);
        j = j + 1;
        proof {
            assert(ids@ =~= wire.map_values(|id: u8| (id - 1) as u8).take(j as int));
        }
    }
    proof {
        assert(!(exists|t: int| 0 <= t < wire.len() && wire[t] == 0));
        assert(ids@ =~= wire.map_values(|id: u8| (id - 1) as u8));
    }
    let sorted = sort_ids(ids);
    proof {
        assert(sorted@ == sorted_slot_ids(replay@));
    }
    let n: usize = if sorted.len() <= player_list.len() {
        sorted.len()
    } else {
        player_list.len()
    };
    let ghost pv = player_list@.map_values(|p: Player| p@);
    let ghost roster = spec_roster(sorted@, pv, n as int);
    let mut state = ExtractState {
        game_started: false,
        winner: IdTeam::Tie,
        builders: Vec::new(),
        titans: Vec::new(),
        observers: Vec::new(),
    };
    proof {
        assert(state@.builders =~= initial_state().builders);
        assert(state@.titans =~= initial_state().titans);
        assert(state@.observers =~= initial_state().observers);
        assert(state@ == initial_state());
    }
    let ghost bv = replay.replay_blocks@.map_values(|b: ReplayBlock| b@);
    proof {
        assert(bv.skip(0) =~= bv);
    }
    let mut bi: usize = 0;
    while bi < replay.replay_blocks.len()
        invariant
            0 <= bi <= replay.replay_blocks@.len(),
            n <= sorted@.len(),
            n <= player_list@.len(),
            pv == player_list@.map_values(|p: Player| p@),
            roster == spec_roster(sorted@, pv, n as int),
            bv == replay.replay_blocks@.map_values(|b: ReplayBlock| b@),
            steps_blocks(initial_state(), bv, roster) == steps_blocks(
                state@,
                bv.skip(bi as int),
                roster,
            ),
        decreases replay.replay_blocks@.len() - bi,
    {
        proof {
            assert(bv.skip(bi as int)[0] == bv[bi as int]);
            assert(bv[bi as int] == replay.replay_blocks@[bi as int]@);
            assert(bv.skip(bi as int).drop_first() =~= bv.skip(bi as int + 1));
        }
        match &replay.replay_blocks[bi] {
            ReplayBlock::Tick { num_bytes: _, time_increment: _, commands } => {
                extract_players_from_commands(commands, &sorted, player_list, n, &mut state);
            },
            ReplayBlock::TickPreOverflow { num_bytes: _, time_increment: _, commands } => {
                extract_players_from_commands(commands, &sorted, player_list, n, &mut state);
            },
            _ => {},
        }
        bi = bi + 1;
    }
    proof {
        assert(bv.skip(bv.len() as int) =~= Seq::<ReplayBlockV>::empty());
        assert(state@ == steps_blocks(initial_state(), bv, roster));
    }
    if state.builders.len() == 0 || state.titans.len() == 0 {
        return Err(ExtractError::EmptyTeam);
    }
    let ExtractState { game_started: _, winner, builders, titans, observers: _ } = state;
    let winner = apply_duration_rule(winner, replay.replay_header.duration);
    Ok(IdGameResult { builders, titans, winner })
}

} // verus!

verus! {

/// One hour, in milliseconds.
pub const ONE_HOUR_MS: u32 = 3_600_000;

/// The long-titan-stalemate rule: a titan victory in a match that ran
/// longer than an hour is recorded as a tie, so that a stalling titan
/// cannot farm rating.
pub open spec fn spec_duration_rule(winner: IdTeam, duration_ms: u32) -> IdTeam {
    if duration_ms > ONE_HOUR_MS && winner == IdTeam::Titan {
        IdTeam::Tie
    } else {
        winner
    }
}

/// Applies the long-titan-stalemate rule to a winner.
pub fn apply_duration_rule(winner: IdTeam, duration_ms: u32) -> (r: IdTeam)
    ensures
        r == spec_duration_rule(winner, duration_ms),
{
    if duration_ms > ONE_HOUR_MS && matches!(winner, IdTeam::Titan) {
        IdTeam::Tie
    } else {
        winner
    }
}

} // verus!

verus! {

/// No player appears twice in a team.
pub open spec fn team_distinct(team: Seq<PlayerV>) -> bool {
    forall|i: int, j: int| 0 <= i < j < team.len() ==> team[i] != team[j]
}

/// No player stands on both teams.
pub open spec fn teams_disjoint(builders: Seq<PlayerV>, titans: Seq<PlayerV>) -> bool {
    forall|i: int, j: int|
        0 <= i < builders.len() && 0 <= j < titans.len() ==> builders[i] != titans[j]
}

/// The team invariant of the outcome machine.
pub open spec fn state_teams_ok(st: StateV) -> bool {
    team_distinct(st.builders) && team_distinct(st.titans) && teams_disjoint(
        st.builders,
        st.titans,
    )
}

/// Removal keeps a team distinct, keeps only members, and leaves no
/// entry of the removed player.
proof fn lemma_team_without_members(team: Seq<PlayerV>, p: PlayerV)
    ensures
        forall|k: int|
            0 <= k < team_without(team, p).len() ==> #[trigger] team_without(team, p)[k] != p
                && team_has(team, team_without(team, p)[k]),
        team_distinct(team) ==> team_distinct(team_without(team, p)),
    decreases team.len(),
{
    if team.len() == 0 {
    } else {
        let rest = team.drop_first();
        lemma_team_without_members(rest, p);
        let w = team_without(team, p);
        assert forall|k: int| 0 <= k < w.len() implies #[trigger] w[k] != p && team_has(
            team,
            w[k],
        ) by {
            if team[0] == p {
                assert(w =~= team_without(rest, p));
                assert(team_has(rest, w[k]));
                let ghost wk = choose|t: int| 0 <= t < rest.len() && rest[t] == w[k];
                assert(team[wk + 1] == w[k]);
            } else {
                assert(w == seq![team[0]] + team_without(rest, p));
                if k == 0 {
                    assert(w[0] == team[0]);
                    assert(team_has(team, team[0]));
                    if team[0] == p {
                        assert(false);
                    }
                } else {
                    assert(w[k] == team_without(rest, p)[k - 1]);
                    assert(team_has(rest, w[k]));
                    let ghost wk = choose|t: int| 0 <= t < rest.len() && rest[t] == w[k];
                    assert(team[wk + 1] == w[k]);
                }
            }
        }
        if team_distinct(team) {
            assert(team_distinct(rest)) by {
                assert(forall|i: int, j: int|
                    0 <= i < j < rest.len() ==> rest[i] == team[i + 1] && rest[j] == team[j + 1]);
            }
            assert forall|i: int, j: int| 0 <= i < j < w.len() implies w[i] != w[j] by {
                if team[0] == p {
                    assert(w =~= team_without(rest, p));
                } else {
                    assert(w == seq![team[0]] + team_without(rest, p));
                    if i == 0 {
                        assert(w[j] == team_without(rest, p)[j - 1]);
                        assert(team_has(rest, w[j]));
                        let ghost t = choose|t: int| 0 <= t < rest.len() && rest[t] == w[j];
                        assert(team[t + 1] == w[j]);
                        assert(team[0] != team[t + 1]);
                    } else {
                        assert(w[i] == team_without(rest, p)[i - 1]);
                        assert(w[j] == team_without(rest, p)[j - 1]);
                    }
                }
            }
        }
    }
}

/// Insertion keeps a team distinct and adds at most the new player.
proof fn lemma_team_with_members(team: Seq<PlayerV>, p: PlayerV)
    ensures
        forall|k: int|
            0 <= k < team_with(team, p).len() ==> team_has(team, #[trigger] team_with(team, p)[k])
                || team_with(team, p)[k] == p,
        team_distinct(team) ==> team_distinct(team_with(team, p)),
{
    let w = team_with(team, p);
    assert forall|k: int| 0 <= k < w.len() implies team_has(team, #[trigger] w[k]) || w[k]
        == p by {
        if team_has(team, p) {
            assert(w == team);
            assert(team_has(team, team[k]));
        } else {
            assert(w == team.push(p));
            if k < team.len() {
                assert(w[k] == team[k]);
                assert(team_has(team, team[k]));
            } else {
                assert(w[k] == p);
            }
        }
    }
    if team_distinct(team) && !team_has(team, p) {
        assert forall|i: int, j: int| 0 <= i < j < w.len() implies w[i] != w[j] by {
            assert(w == team.push(p));
            if j < team.len() {
            } else {
                assert(w[j] == p);
                assert(w[i] == team[i]);
                assert(team_has(team, team[i]));
            }
        }
    }
}

/// One step of the machine keeps the team invariant.
#[verifier::spinoff_prover]
#[verifier::rlimit(60)]
proof fn lemma_step_action_teams_ok(st: StateV, a: ActionV, roster: Map<u8, PlayerV>)
    requires
        state_teams_ok(st),
    ensures
        state_teams_ok(step_action(st, a, roster)),
{
    match a {
        ActionV::SyncStoredInteger { file, group, key, value } => {
            if file == id_file_bytes() && group == class_group_bytes() && !st.game_started {
                match parse_u8_key(key) {
                    Some(slot) => {
                        if roster.contains_key(slot) {
                            let p = roster[slot];
                            lemma_team_without_members(st.builders, p);
                            lemma_team_without_members(st.titans, p);
                            lemma_team_without_members(st.observers, p);
                            lemma_team_with_members(st.builders, p);
                            lemma_team_with_members(st.titans, p);
                            lemma_team_with_members(st.observers, p);
                            if value == 2 {
                                let b2 = team_without(st.builders, p);
                                let t2 = team_with(st.titans, p);
                                assert forall|i: int, j: int|
                                    0 <= i < b2.len() && 0 <= j < t2.len() implies b2[i]
                                    != t2[j] by {
                                    assert(b2[i] != p && team_has(st.builders, b2[i]));
                                    if t2[j] == p {
                                    } else {
                                        assert(team_has(st.titans, t2[j]));
                                        let bi = choose|t: int|
                                            0 <= t < st.builders.len() && st.builders[t] == b2[i];
                                        let tj = choose|t: int|
                                            0 <= t < st.titans.len() && st.titans[t] == t2[j];
                                        assert(st.builders[bi] != st.titans[tj]);
                                    }
                                }
                            } else if value == 0 || value == 1 || value == 3 || value == 4 {
                                let b2 = team_with(st.builders, p);
                                let t2 = team_without(st.titans, p);
                                assert forall|i: int, j: int|
                                    0 <= i < b2.len() && 0 <= j < t2.len() implies b2[i]
                                    != t2[j] by {
                                    assert(t2[j] != p && team_has(st.titans, t2[j]));
                                    if b2[i] == p {
                                    } else {
                                        assert(team_has(st.builders, b2[i]));
                                        let bi = choose|t: int|
                                            0 <= t < st.builders.len() && st.builders[t] == b2[i];
                                        let tj = choose|t: int|
                                            0 <= t < st.titans.len() && st.titans[t] == t2[j];
                                        assert(st.builders[bi] != st.titans[tj]);
                                    }
                                }
                            }
                        }
                    },
                    None => {},
                }
            }
        },
        _ => {},
    }
}

/// A whole action list keeps the team invariant.
proof fn lemma_steps_actions_teams_ok(st: StateV, actions: Seq<ActionV>, roster: Map<u8, PlayerV>)
    requires
        state_teams_ok(st),
    ensures
        state_teams_ok(steps_actions(st, actions, roster)),
    decreases actions.len(),
{
    if actions.len() > 0 {
        lemma_step_action_teams_ok(st, actions[0], roster);
        lemma_steps_actions_teams_ok(
            step_action(st, actions[0], roster),
            actions.drop_first(),
            roster,
        );
    }
}

/// A whole command list keeps the team invariant.
proof fn lemma_steps_commands_teams_ok(
    st: StateV,
    commands: Seq<CommandV>,
    roster: Map<u8, PlayerV>,
)
    requires
        state_teams_ok(st),
    ensures
        state_teams_ok(steps_commands(st, commands, roster)),
    decreases commands.len(),
{
    if commands.len() > 0 {
        lemma_steps_actions_teams_ok(st, commands[0].actions, roster);
        lemma_steps_commands_teams_ok(
            steps_actions(st, commands[0].actions, roster),
            commands.drop_first(),
            roster,
        );
    }
}

/// The whole block list keeps the team invariant.
proof fn lemma_steps_blocks_teams_ok(
    st: StateV,
    blocks: Seq<ReplayBlockV>,
    roster: Map<u8, PlayerV>,
)
    requires
        state_teams_ok(st),
    ensures
        state_teams_ok(steps_blocks(st, blocks, roster)),
    decreases blocks.len(),
{
    if blocks.len() > 0 {
        match blocks[0] {
            ReplayBlockV::Tick { num_bytes: _, time_increment: _, commands } => {
                lemma_steps_commands_teams_ok(st, commands, roster);
            },
            ReplayBlockV::TickPreOverflow { num_bytes: _, time_increment: _, commands } => {
                lemma_steps_commands_teams_ok(st, commands, roster);
            },
            _ => {},
        }
        lemma_steps_blocks_teams_ok(step_block(st, blocks[0], roster), blocks.drop_first(), roster);
    }
}

/// On success the extracted teams hold no player twice and share no
/// player: everyone in the result appears in `builders` or `titans`,
/// never both.
pub proof fn lemma_extract_teams_disjoint(players: Seq<PlayerV>, rep: ReplayV)
    ensures
        spec_extract(players, rep) matches Ok(g) ==> team_distinct(g.builders) && team_distinct(
            g.titans,
        ) && teams_disjoint(g.builders, g.titans),
{
    let wire = wire_ids(rep);
    if !(exists|i: int| 0 <= i < wire.len() && wire[i] == 0) {
        let ids = sorted_slot_ids(rep);
        let n = if ids.len() <= players.len() {
            ids.len() as int
        } else {
            players.len() as int
        };
        let roster = spec_roster(ids, players, n);
        assert(state_teams_ok(initial_state()));
        lemma_steps_blocks_teams_ok(initial_state(), rep.replay_blocks, roster);
    }
}

} // verus!
