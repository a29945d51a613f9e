//! The lobby projection: per-slot ratings with the means a slot would
//! hold after either hypothetical outcome. Means are carried as
//! IEEE-754 bit patterns; the HTTP worker derives the potential gain
//! and loss differences when it serves the projection.

use vstd::prelude::*;
use crate::errors::RatingError;
use crate::pubsub::{IdStats, IdStatsV};

verus! {

/// The rating outlook of one slot: the current mean and the means after
/// a win and after a loss of its team, all as IEEE-754 bit patterns.
#[derive(Debug, Clone, Copy, PartialEq, Eq, Structural)]
pub struct Rating {
    pub mean_mu_bits: u64,
    pub win_mu_bits: u64,
    pub loss_mu_bits: u64,
}

/// One builder slot of the lobby.
#[derive(Debug)]
pub struct Builder {
    pub slot: u8,
    pub name: String,
    pub realm: String,
    pub rating: Rating,
    pub wins: i32,
    pub losses: i32,
    pub ties: i32,
}

/// Mathematical view of a lobby [`Builder`] slot.
pub struct BuilderV {
    pub slot: u8,
    pub name: Seq<char>,
    pub realm: Seq<char>,
    pub rating: Rating,
    pub wins: i32,
    pub losses: i32,
    pub ties: i32,
}

impl View for Builder {
    type V = BuilderV;

    open spec fn view(&self) -> BuilderV {
        BuilderV {
            slot: self.slot,
            name: self.name@,
            realm: self.realm@,
            rating: self.rating,
            wins: self.wins,
            losses: self.losses,
            ties: self.ties,
        }
    }
}

/// The titan slot of the lobby.
#[derive(Debug)]
pub struct Titan {
    pub slot: u8,
    pub name: String,
    pub realm: String,
    pub rating: Rating,
    pub wins: i32,
    pub losses: i32,
    pub ties: i32,
}

/// Mathematical view of the lobby [`Titan`] slot.
pub struct TitanV {
    pub slot: u8,
    pub name: Seq<char>,
    pub realm: Seq<char>,
    pub rating: Rating,
    pub wins: i32,
    pub losses: i32,
    pub ties: i32,
}

impl View for Titan {
    type V = TitanV;

    open spec fn view(&self) -> TitanV {
        TitanV {
            slot: self.slot,
            name: self.name@,
            realm: self.realm@,
            rating: self.rating,
            wins: self.wins,
            losses: self.losses,
            ties: self.ties,
        }
    }
}

/// The lobby projection: the builder slots and the titan slot.
#[derive(Debug)]
pub struct Lobby {
    pub builders: Vec<Builder>,
    pub titans: Vec<Titan>,
}

/// The first record of a slot-keyed roster under a given slot, if any.
pub open spec fn lookup_slot(ps: Seq<(u32, IdStatsV)>, slot: u32) -> Option<IdStatsV>
    decreases ps.len(),
{
    if ps.len() == 0 {
        None
    } else if ps[0].0 == slot {
        Some(ps[0].1)
    } else {
        lookup_slot(ps.drop_first(), slot)
    }
}

/// The slot-keyed records found for slots `0` to `k - 1`, in slot
/// order.
pub open spec fn collect_slots(ps: Seq<(u32, IdStatsV)>, k: int) -> Seq<(u32, IdStatsV)>
    decreases k,
{
    if k <= 0 {
        Seq::empty()
    } else {
        collect_slots(ps, k - 1) + (match lookup_slot(ps, (k - 1) as u32) {
            Some(s) => seq![((k - 1) as u32, s)],
            None => Seq::empty(),
        })
    }
}

/// Finds the first record of a slot-keyed roster under a given slot.
fn find_slot(players: &Vec<(u32, IdStats)>, slot: u32) -> (r: Option<usize>)
    ensures
        ({
            let pv = players@.map_values(|p: (u32, IdStats)| (p.0, p.1@));
            match r {
                Some(j) => j < players@.len() && players@[j as int].0 == slot && lookup_slot(
                    pv,
                    slot,
                ) == Some(players@[j as int].1@),
                None => lookup_slot(pv, slot) is None,
            }
        }),
{
    let ghost pv = players@.map_values(|p: (u32, IdStats)| (p.0, p.1@));
    proof {
        assert(pv.skip(0) =~= pv);
    }
    let mut i: usize = 0;
    while i < players.len()
        invariant
            0 <= i <= players@.len(),
            pv == players@.map_values(|p: (u32, IdStats)| (p.0, p.1@)),
            lookup_slot(pv, slot) == lookup_slot(pv.skip(i as int), slot),
        decreases players@.len() - i,
    {
        proof {
            assert(pv.skip(i as int)[0] == pv[i as int]);
            assert(pv.skip(i as int).drop_first() =~= pv.skip(i as int + 1));
        }
        if players[i].0 == slot {
            return Some(i);
        }
        i = i + 1;
    }
    proof {
        assert(pv.skip(pv.len() as int) =~= Seq::<(u32, IdStatsV)>::empty());
    }
    None
}

/// Splits a slot-keyed roster into the builder slots (`0` to `9`, in
/// slot order) and the titan slot (`10`), as the lobby layout fixes
/// them.
pub fn partition_lobby(players: &Vec<(u32, IdStats)>) -> (r: (
    Vec<(u32, IdStats)>,
    Vec<(u32, IdStats)>,
))
    ensures
        ({
            let pv = players@.map_values(|p: (u32, IdStats)| (p.0, p.1@));
            &&& r.0@.map_values(|p: (u32, IdStats)| (p.0, p.1@)) == collect_slots(pv, 10)
            &&& r.1@.map_values(|p: (u32, IdStats)| (p.0, p.1@)) == (match lookup_slot(pv, 10) {
                Some(s) => seq![(10u32, s)],
                None => Seq::<(u32, IdStatsV)>::empty(),
            })
        }),
{
    let ghost pv = players@.map_values(|p: (u32, IdStats)| (p.0, p.1@));
    let mut builders: Vec<(u32, IdStats)> = Vec::new();
    let mut slot: u32 = 0;
    while slot < 10
        invariant
            0 <= slot <= 10,
            pv == players@.map_values(|p: (u32, IdStats)| (p.0, p.1@)),
            builders@.map_values(|p: (u32, IdStats)| (p.0, p.1@)) =~= collect_slots(
                pv,
                slot as int,
            ),
        decreases 10 - slot,
    {
        match find_slot(players, slot) {
            Some(j) => {
                builders.push((slot, players[j].1.duplicate()));
            },
            None => {},
        }
        slot = slot + 1;
        proof {
            assert(builders@.map_values(|p: (u32, IdStats)| (p.0, p.1@)) =~= collect_slots(
                pv,
                slot as int,
            ));
        }
    }
    let mut titans: Vec<(u32, IdStats)> = Vec::new();
    match find_slot(players, 10) {
        Some(j) => {
            titans.push((10, players[j].1.duplicate()));
        },
        None => {},
    }
    proof {
        assert(builders@.map_values(|p: (u32, IdStats)| (p.0, p.1@)) =~= collect_slots(pv, 10));
        assert(titans@.map_values(|p: (u32, IdStats)| (p.0, p.1@)) =~= (match lookup_slot(
            pv,
            10,
        ) {
            Some(s) => seq![(10u32, s)],
            None => Seq::<(u32, IdStatsV)>::empty(),
        }));
    }
    (builders, titans)
}

/// The builder slot built from one record and its two hypothetical
/// rating means.
pub open spec fn builder_slot_of(
    slot: u32,
    s: IdStatsV,
    win_mu_bits: u64,
    loss_mu_bits: u64,
) -> BuilderV {
    BuilderV {
        slot: (slot % 256) as u8,
        name: s.player.name,
        realm: s.player.realm,
        rating: Rating {
            mean_mu_bits: s.builder_stats.rating.mu_bits,
            win_mu_bits,
            loss_mu_bits,
        },
        wins: s.builder_stats.wins,
        losses: s.builder_stats.losses,
        ties: s.builder_stats.ties,
    }
}

/// The titan slot built from one record and its two hypothetical rating
/// means.
pub open spec fn titan_slot_of(
    slot: u32,
    s: IdStatsV,
    win_mu_bits: u64,
    loss_mu_bits: u64,
) -> TitanV {
    TitanV {
        slot: (slot % 256) as u8,
        name: s.player.name,
        realm: s.player.realm,
        rating: Rating { mean_mu_bits: s.titan_stats.rating.mu_bits, win_mu_bits, loss_mu_bits },
        wins: s.titan_stats.wins,
        losses: s.titan_stats.losses,
        ties: s.titan_stats.ties,
    }
}

/// Assembles the lobby projection from the partitioned roster and the
/// four hypothetical rating lists the rater produced: the builder
/// ratings after a builder win and after a titan win, and the titan
/// ratings after a titan win and after a builder win. Lists whose
/// lengths do not match the rosters are refused.
#[verifier::spinoff_prover]
pub fn assemble_lobby(
    builders: Vec<(u32, IdStats)>,
    titans: Vec<(u32, IdStats)>,
    builder_win_ratings: &Vec<crate::rating::Rating>,
    builder_loss_ratings: &Vec<crate::rating::Rating>,
    titan_win_ratings: &Vec<crate::rating::Rating>,
    titan_loss_ratings: &Vec<crate::rating::Rating>,
) -> (r: Result<Lobby, RatingError>)
    ensures
        ({
            let bv = builders@.map_values(|p: (u32, IdStats)| (p.0, p.1@));
            let tv = titans@.map_values(|p: (u32, IdStats)| (p.0, p.1@));
            if builder_win_ratings@.len() != builders@.len() || builder_loss_ratings@.len()
                != builders@.len() || titan_win_ratings@.len() != titans@.len()
                || titan_loss_ratings@.len() != titans@.len() {
                r == Err::<Lobby, RatingError>(RatingError::MismatchedRatings)
            } else {
                &&& r is Ok
                &&& r matches Ok(l)
                &&& l.builders@.len() == builders@.len()
                &&& l.titans@.len() == titans@.len()
                &&& forall|i: int|
                    0 <= i < builders@.len() ==> #[trigger] l.builders@[i]@ == builder_slot_of(
                        bv[i].0,
                        bv[i].1,
                        builder_win_ratings@[i].mu_bits,
                        builder_loss_ratings@[i].mu_bits,
                    )
                &&& forall|i: int|
                    0 <= i < titans@.len() ==> #[trigger] l.titans@[i]@ == titan_slot_of(
                        tv[i].0,
                        tv[i].1,
                        titan_win_ratings@[i].mu_bits,
                        titan_loss_ratings@[i].mu_bits,
                    )
            }
        }),
{
    if builder_win_ratings.len() != builders.len() || builder_loss_ratings.len() != builders.len()
        || titan_win_ratings.len() != titans.len() || titan_loss_ratings.len() != titans.len() {
        return Err(RatingError::MismatchedRatings);
    }
    let ghost bv = builders@.map_values(|p: (u32, IdStats)| (p.0, p.1@));
    let ghost tv = titans@.map_values(|p: (u32, IdStats)| (p.0, p.1@));
    let mut out_builders: Vec<Builder> = Vec::new();
    let mut i: usize = 0;
    while i < builders.len()
        invariant
            0 <= i <= builders@.len(),
            bv == builders@.map_values(|p: (u32, IdStats)| (p.0, p.1@)),
            builder_win_ratings@.len() == builders@.len(),
            builder_loss_ratings@.len() == builders@.len(),
            out_builders@.len() == i,
            forall|j: int|
                0 <= j < i ==> #[trigger] out_builders@[j]@ == builder_slot_of(
                    bv[j].0,
                    bv[j].1,
                    builder_win_ratings@[j].mu_bits,
                    builder_loss_ratings@[j].mu_bits,
                ),
        decreases builders@.len() - i,
    {
        let (slot, s) = &builders[i];
        out_builders.push(Builder {
            slot: (*slot % 256) as u8,
            name: s.player.name.clone(),
            realm: s.player.realm.clone(),
            rating: Rating {
                mean_mu_bits: s.builder_stats.rating.mu_bits,
                win_mu_bits: builder_win_ratings[i].mu_bits,
                loss_mu_bits: builder_loss_ratings[i].mu_bits,
            },
            wins: s.builder_stats.wins,
            losses: s.builder_stats.losses,
            ties: s.builder_stats.ties,
        });
        proof {
            assert(bv[i as int] == (builders@[i as int].0, builders@[i as int].1@));
            assert(out_builders@[i as int]@ == builder_slot_of(
                bv[i as int].0,
                bv[i as int].1,
                builder_win_ratings@[i as int].mu_bits,
                builder_loss_ratings@[i as int].mu_bits,
            ));
        }
        i = i + 1;
    }
    let mut out_titans: Vec<Titan> = Vec::new();
    let mut k: usize = 0;
    while k < titans.len()
        invariant
            0 <= k <= titans@.len(),
            tv == titans@.map_values(|p: (u32, IdStats)| (p.0, p.1@)),
            titan_win_ratings@.len() == titans@.len(),
            titan_loss_ratings@.len() == titans@.len(),
            out_titans@.len() == k,
            forall|j: int|
                0 <= j < k ==> #[trigger] out_titans@[j]@ == titan_slot_of(
                    tv[j].0,
                    tv[j].1,
                    titan_win_ratings@[j].mu_bits,
                    titan_loss_ratings@[j].mu_bits,
                ),
        decreases titans@.len() - k,
    {
        let (slot, s) = &titans[k];
        out_titans.push(Titan {
            slot: (*slot % 256) as u8,
            name: s.player.name.clone(),
            realm: s.player.realm.clone(),
            rating: Rating {
                mean_mu_bits: s.titan_stats.rating.mu_bits,
                win_mu_bits: titan_win_ratings[k].mu_bits,
                loss_mu_bits: titan_loss_ratings[k].mu_bits,
            },
            wins: s.titan_stats.wins,
            losses: s.titan_stats.losses,
            ties: s.titan_stats.ties,
        });
        proof {
            assert(tv[k as int] == (titans@[k as int].0, titans@[k as int].1@));
            assert(out_titans@[k as int]@ == titan_slot_of(
                tv[k as int].0,
                tv[k as int].1,
                titan_win_ratings@[k as int].mu_bits,
                titan_loss_ratings@[k as int].mu_bits,
            ));
        }
        k = k + 1;
    }
    Ok(Lobby { builders: out_builders, titans: out_titans })
}

} // verus!
