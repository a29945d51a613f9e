//! The leaderboard projection: one row per ranked player, per side.
//! Rating means are carried as IEEE-754 bit patterns; the HTTP worker
//! turns them into numbers when it serves the projection.

use vstd::prelude::*;
use crate::pubsub::IdStats;

verus! {

/// One builder-side leaderboard row.
#[derive(Debug)]
pub struct Builder {
    pub name: String,
    pub realm: String,
    /// IEEE-754 bits of the builder-side rating mean.
    pub rating: u64,
    pub wins: i32,
    pub losses: i32,
    pub ties: i32,
}

/// Mathematical view of a leaderboard [`Builder`] row.
pub struct BuilderV {
    pub name: Seq<char>,
    pub realm: Seq<char>,
    pub rating: u64,
    pub wins: i32,
    pub losses: i32,
    pub ties: i32,
}

impl View for Builder {
    type V = BuilderV;

    open spec fn view(&self) -> BuilderV {
        BuilderV {
            name: self.name@,
            realm: self.realm@,
            rating: self.rating,
            wins: self.wins,
            losses: self.losses,
            ties: self.ties,
        }
    }
}

impl Builder {
    /// Projects a stats record onto its builder-side row.
    pub fn from_id_stats(stats: IdStats) -> (r: Builder)
        ensures
            r@ == (BuilderV {
                name: stats.player@.name,
                realm: stats.player@.realm,
                rating: stats.builder_stats.rating.mu_bits,
                wins: stats.builder_stats.wins,
                losses: stats.builder_stats.losses,
                ties: stats.builder_stats.ties,
            }),
    {
        Builder {
            name: stats.player.name,
            realm: stats.player.realm,
            rating: stats.builder_stats.rating.mu_bits,
            wins: stats.builder_stats.wins,
            losses: stats.builder_stats.losses,
            ties: stats.builder_stats.ties,
        }
    }
}

/// One titan-side leaderboard row.
#[derive(Debug)]
pub struct Titan {
    pub name: String,
    pub realm: String,
    /// IEEE-754 bits of the titan-side rating mean.
    pub rating: u64,
    pub wins: i32,
    pub losses: i32,
    pub ties: i32,
}

/// Mathematical view of a leaderboard [`Titan`] row.
pub struct TitanV {
    pub name: Seq<char>,
    pub realm: Seq<char>,
    pub rating: u64,
    pub wins: i32,
    pub losses: i32,
    pub ties: i32,
}

impl View for Titan {
    type V = TitanV;

    open spec fn view(&self) -> TitanV {
        TitanV {
            name: self.name@,
            realm: self.realm@,
            rating: self.rating,
            wins: self.wins,
            losses: self.losses,
            ties: self.ties,
        }
    }
}

impl Titan {
    /// Projects a stats record onto its titan-side row.
    pub fn from_id_stats(stats: IdStats) -> (r: Titan)
        ensures
            r@ == (TitanV {
                name: stats.player@.name,
                realm: stats.player@.realm,
                rating: stats.titan_stats.rating.mu_bits,
                wins: stats.titan_stats.wins,
                losses: stats.titan_stats.losses,
                ties: stats.titan_stats.ties,
            }),
    {
        Titan {
            name: stats.player.name,
            realm: stats.player.realm,
            rating: stats.titan_stats.rating.mu_bits,
            wins: stats.titan_stats.wins,
            losses: stats.titan_stats.losses,
            ties: stats.titan_stats.ties,
        }
    }
}

/// The two ranked lists served to clients.
#[derive(Debug)]
pub struct LeaderBoard {
    pub builders: Vec<Builder>,
    pub titans: Vec<Titan>,
}

impl LeaderBoard {
    /// Builds a leaderboard from its two lists.
    pub fn new(builders: Vec<Builder>, titans: Vec<Titan>) -> (r: LeaderBoard)
        ensures
            r.builders@ == builders@ && r.titans@ == titans@,
    {
        LeaderBoard { builders, titans }
    }
}

} // verus!
