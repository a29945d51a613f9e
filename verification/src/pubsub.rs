//! The envelope and payload model of the pub/sub fabric: typed messages
//! with a source-routed destination queue, player identities, game
//! results, and the per-player statistics records.
//!
//! The broker itself is plain I/O and lives outside the library; what is
//! verified here is the shape of the data and the envelope routing rule:
//! a handler answers on the topic popped from the head of the queue and
//! forwards the remaining queue.

use vstd::prelude::*;
use std::collections::VecDeque;
use crate::rating::{initial_rating, Rating};

verus! {

/// A typed payload plus its source-routed destination queue and optional
/// debug annotations.
pub struct Message<T> {
    pub data: T,
    pub destinations: VecDeque<String>,
    pub debug: Option<Vec<(String, String)>>,
}

impl<T> Message<T> {
    /// Wraps a payload in an envelope.
    pub fn new(data: T, destinations: VecDeque<String>, debug: Option<Vec<(String, String)>>) -> (r:
        Message<T>)
        ensures
            r == (Message { data, destinations, debug }),
    {
        Message { data, destinations, debug }
    }
}

/// Routes a reply: pops the topic at the head of a request's destination
/// queue and wraps the reply payload in an envelope that carries the
/// remaining queue and the request's debug annotations. `None` when the
/// request named no destination, which leaves the reply unsent.
pub fn route_reply<T, U>(request: Message<T>, reply_data: U) -> (r: Option<(String, Message<U>)>)
    ensures
        request.destinations@.len() == 0 ==> r is None,
        request.destinations@.len() > 0 ==> r is Some,
        r matches Some(v) ==> {
            &&& v.0 == request.destinations@[0]
            &&& v.1.data == reply_data
            &&& v.1.destinations@ == request.destinations@.drop_first()
            &&& v.1.debug == request.debug
        },
{
    let Message { data: _, mut destinations, debug } = request;
    let ghost q0 = destinations@;
    match destinations.pop_front() {
        None => None,
        Some(topic) => {
            proof {
                assert(destinations@ =~= q0.drop_first());
            }
            Some((topic, Message { data: reply_data, destinations, debug }))
        },
    }
}

/// A player identity: case-folded equality on the name, exact equality
/// on the realm.
#[derive(Debug)]
pub struct Player {
    pub name: String,
    pub realm: String,
}

/// Mathematical view of a [`Player`].
pub struct PlayerV {
    pub name: Seq<char>,
    pub realm: Seq<char>,
}

impl View for Player {
    type V = PlayerV;

    open spec fn view(&self) -> PlayerV {
        PlayerV { name: self.name@, realm: self.realm@ }
    }
}

impl Player {
    /// Builds an identity from its two parts.
    pub fn new(name: String, realm: String) -> (r: Player)
        ensures
            r@.name == name@ && r@.realm == realm@,
    {
        Player { name, realm }
    }

    /// Copies an identity.
    pub fn duplicate(&self) -> (r: Player)
        ensures
            r@ == self@,
    {
        Player { name: self.name.clone(), realm: self.realm.clone() }
    }

    /// Exact equality of name and realm.
    pub fn same_identity(&self, other: &Player) -> (r: bool)
        ensures
            r == (self@ == other@),
    {
        let n = self.name == other.name;
        let m = self.realm == other.realm;
        if n && m {
            proof {
                assert(self@ == other@);
            }
            true
        } else {
            proof {
                assert(self@ != other@);
            }
            false
        }
    }
}

/// The side that won a match, or a tie.
#[derive(Debug, Clone, Copy, PartialEq, Eq, Structural)]
pub enum IdTeam {
    Builder,
    Titan,
    Tie,
}

/// The outcome of one match: the two rosters and the winning side.
#[derive(Debug)]
pub struct IdGameResult {
    pub builders: Vec<Player>,
    pub titans: Vec<Player>,
    pub winner: IdTeam,
}

/// Mathematical view of an [`IdGameResult`].
pub struct IdGameResultV {
    pub builders: Seq<PlayerV>,
    pub titans: Seq<PlayerV>,
    pub winner: IdTeam,
}

impl View for IdGameResult {
    type V = IdGameResultV;

    open spec fn view(&self) -> IdGameResultV {
        IdGameResultV {
            builders: self.builders@.map_values(|p: Player| p@),
            titans: self.titans@.map_values(|p: Player| p@),
            winner: self.winner,
        }
    }
}

impl IdGameResult {
    /// Builds a result from its parts.
    pub fn new(builders: Vec<Player>, titans: Vec<Player>, winner: IdTeam) -> (r: IdGameResult)
        ensures
            r == (IdGameResult { builders, titans, winner }),
    {
        IdGameResult { builders, titans, winner }
    }
}

/// One side's record: rating and win/loss/tie counters.
#[derive(Debug, Clone, Copy, PartialEq, Eq, Structural)]
pub struct BuilderStats {
    pub rating: Rating,
    pub wins: i32,
    pub losses: i32,
    pub ties: i32,
}

impl BuilderStats {
    /// The record of a player never seen before.
    pub fn default() -> (r: BuilderStats)
        ensures
            r == (BuilderStats { rating: initial_rating(), wins: 0, losses: 0, ties: 0 }),
    {
        BuilderStats { rating: Rating::initial(), wins: 0, losses: 0, ties: 0 }
    }
}

/// The titan-side record: rating and win/loss/tie counters.
#[derive(Debug, Clone, Copy, PartialEq, Eq, Structural)]
pub struct TitanStats {
    pub rating: Rating,
    pub wins: i32,
    pub losses: i32,
    pub ties: i32,
}

impl TitanStats {
    /// The record of a player never seen before.
    pub fn default() -> (r: TitanStats)
        ensures
            r == (TitanStats { rating: initial_rating(), wins: 0, losses: 0, ties: 0 }),
    {
        TitanStats { rating: Rating::initial(), wins: 0, losses: 0, ties: 0 }
    }
}

/// The persisted record of one player: identity plus one record per
/// role, because performance in the two roles is uncorrelated.
#[derive(Debug)]
pub struct IdStats {
    pub player: Player,
    pub builder_stats: BuilderStats,
    pub titan_stats: TitanStats,
}

/// Mathematical view of an [`IdStats`].
pub struct IdStatsV {
    pub player: PlayerV,
    pub builder_stats: BuilderStats,
    pub titan_stats: TitanStats,
}

impl View for IdStats {
    type V = IdStatsV;

    open spec fn view(&self) -> IdStatsV {
        IdStatsV {
            player: self.player@,
            builder_stats: self.builder_stats,
            titan_stats: self.titan_stats,
        }
    }
}

impl IdStats {
    /// The record of a player never seen before.
    pub fn default(player: Player) -> (r: IdStats)
        ensures
            r@.player == player@,
            r@.builder_stats == (BuilderStats {
                rating: initial_rating(),
                wins: 0,
                losses: 0,
                ties: 0,
            }),
            r@.titan_stats == (TitanStats {
                rating: initial_rating(),
                wins: 0,
                losses: 0,
                ties: 0,
            }),
    {
        IdStats {
            player,
            builder_stats: BuilderStats::default(),
            titan_stats: TitanStats::default(),
        }
    }
}

} // verus!

verus! {

/// The big-endian bytes of a broker key.
pub open spec fn u64_be_bytes(x: u64) -> Seq<u8> {
    seq![
        (x >> 56) as u8,
        (x >> 48) as u8,
        (x >> 40) as u8,
        (x >> 32) as u8,
        (x >> 24) as u8,
        (x >> 16) as u8,
        (x >> 8) as u8,
        x as u8,
    ]
}

/// The broker key held in eight big-endian bytes.
pub open spec fn u64_from_be_bytes(s: Seq<u8>) -> u64 {
    ((s[0] as u64) << 56) | ((s[1] as u64) << 48) | ((s[2] as u64) << 40) | ((s[3] as u64) << 32)
        | ((s[4] as u64) << 24) | ((s[5] as u64) << 16) | ((s[6] as u64) << 8) | (s[7] as u64)
}

/// Encodes a broker key as its eight big-endian bytes.
pub fn encode_key(key: u64) -> (r: Vec<u8>)
    ensures
        r@ == u64_be_bytes(key),
{
    let mut out: Vec<u8> = Vec::new();
    out.push((key >> 56) as u8);
    out.push((key >> 48) as u8);
    out.push((key >> 40) as u8);
    out.push((key >> 32) as u8);
    out.push((key >> 24) as u8);
    out.push((key >> 16) as u8);
    out.push((key >> 8) as u8);
    out.push(key as u8);
    proof {
        assert(out@ =~= u64_be_bytes(key));
    }
    out
}

/// Decodes a broker key from its eight big-endian bytes; any other
/// length is refused.
pub fn decode_key(bytes: &Vec<u8>) -> (r: Option<u64>)
    ensures
        bytes@.len() == 8 ==> r == Some(u64_from_be_bytes(bytes@)),
        bytes@.len() != 8 ==> r is None,
{
    if bytes.len() != 8 {
        return None;
    }
    let v = ((bytes[0] as u64) << 56) | ((bytes[1] as u64) << 48) | ((bytes[2] as u64) << 40) | ((
    bytes[3] as u64) << 32) | ((bytes[4] as u64) << 24) | ((bytes[5] as u64) << 16) | ((
    bytes[6] as u64) << 8) | (bytes[7] as u64);
    Some(v)
}

/// A broker key survives the trip through its byte encoding.
pub proof fn lemma_key_round_trip(x: u64)
    ensures
        u64_from_be_bytes(u64_be_bytes(x)) == x,
{
    assert(((((x >> 56) as u8) as u64) << 56) | ((((x >> 48) as u8) as u64) << 48) | ((((x
        >> 40) as u8) as u64) << 40) | ((((x >> 32) as u8) as u64) << 32) | ((((x
        >> 24) as u8) as u64) << 24) | ((((x >> 16) as u8) as u64) << 16) | ((((x
        >> 8) as u8) as u64) << 8) | ((x as u8) as u64) == x) by (bit_vector);
}

} // verus!
