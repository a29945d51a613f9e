//! The stats service's verified core: case-folded player matching, the
//! lookup-or-default rule, the plan for a rating update, and the exact
//! bookkeeping a validated game result causes.
//!
//! The worker around the library fetches records from storage, lets the
//! outside rater grade the two expanded teams, and persists what
//! [`update_stats`] hands back; every decision in between is made and
//! proved here.

use vstd::prelude::*;
use vstd::string::StrSliceExecFns;
use crate::errors::RatingError;
use crate::pubsub::{BuilderStats, IdStats, IdStatsV, IdTeam, Player, PlayerV, TitanStats};
use crate::rating::{cyclic_expand, spec_lcm, Rating};

verus! {

/// A character code with an upper-case ASCII letter folded to lower
/// case.
pub open spec fn lower_code(c: char) -> u32 {
    let u = c as u32;
    if 65 <= u <= 90 {
        (u + 32) as u32
    } else {
        u
    }
}

/// Case-folded equality of two names.
pub open spec fn name_key_eq(a: Seq<char>, b: Seq<char>) -> bool {
    a.len() == b.len() && forall|i: int| 0 <= i < a.len() ==> lower_code(a[i]) == lower_code(b[i])
}

/// The stats key rule: case-folded equality on the name, exact equality
/// on the realm.
pub open spec fn player_key_eq(a: PlayerV, b: PlayerV) -> bool {
    name_key_eq(a.name, b.name) && a.realm == b.realm
}

/// Decides the stats key rule for two identities.
pub fn same_player_key(a: &Player, b: &Player) -> (r: bool)
    ensures
        r == player_key_eq(a@, b@),
{
    if !(a.realm == b.realm) {
        return false;
    }
    let an = a.name.as_str();
    let bn = b.name.as_str();
    let alen = an.unicode_len();
    let blen = bn.unicode_len();
    if alen != blen {
        return false;
    }
    let mut i: usize = 0;
    while i < alen
        invariant
            0 <= i <= alen,
            alen == a@.name.len(),
            blen == b@.name.len(),
            alen == blen,
            an@ == a@.name,
            bn@ == b@.name,
            forall|j: int| 0 <= j < i ==> lower_code(a@.name[j]) == lower_code(b@.name[j]),
        decreases alen - i,
    {
        let ca = an.get_char(i);
        let cb = bn.get_char(i);
        let ua = ca as u32;
        let ub = cb as u32;
        let fa = if 65 <= ua && ua <= 90 {
            ua + 32
        } else {
            ua
        };
        let fb = if 65 <= ub && ub <= 90 {
            ub + 32
        } else {
            ub
        };
        if fa != fb {
            return false;
        }
        i = i + 1;
    }
    true
}

impl IdStats {
    /// Copies a stats record.
    pub fn duplicate(&self) -> (r: IdStats)
        ensures
            r@ == self@,
    {
        IdStats {
            player: self.player.duplicate(),
            builder_stats: self.builder_stats,
            titan_stats: self.titan_stats,
        }
    }
}

/// The first record of a collection that matches a player under the
/// stats key rule, if any.
pub open spec fn spec_find_stats(collection: Seq<IdStatsV>, player: PlayerV) -> Option<IdStatsV>
    decreases collection.len(),
{
    if collection.len() == 0 {
        None
    } else if player_key_eq(collection[0].player, player) {
        Some(collection[0])
    } else {
        spec_find_stats(collection.drop_first(), player)
    }
}

/// Looks a player up in a collection of records under the stats key
/// rule; a player never seen before gets the default record. This is
/// the lookup rule the stats worker applies to its persisted
/// collection.
pub fn find_player_stats(player: &Player, collection: &Vec<IdStats>) -> (r: IdStats)
    ensures
        ({
            let cv = collection@.map_values(|s: IdStats| s@);
            match spec_find_stats(cv, player@) {
                Some(s) => r@ == s,
                None => r@ == (IdStatsV {
                    player: player@,
                    builder_stats: BuilderStats {
                        rating: crate::rating::initial_rating(),
                        wins: 0,
                        losses: 0,
                        ties: 0,
                    },
                    titan_stats: TitanStats {
                        rating: crate::rating::initial_rating(),
                        wins: 0,
                        losses: 0,
                        ties: 0,
                    },
                }),
            }
        }),
{
    let ghost cv = collection@.map_values(|s: IdStats| s@);
    proof {
        assert(cv.skip(0) =~= cv);
    }
    let mut i: usize = 0;
    while i < collection.len()
        invariant
            0 <= i <= collection@.len(),
            cv == collection@.map_values(|s: IdStats| s@),
            spec_find_stats(cv, player@) == spec_find_stats(cv.skip(i as int), player@),
        decreases collection@.len() - i,
    {
        proof {
            assert(cv.skip(i as int)[0] == cv[i as int]);
            assert(cv.skip(i as int).drop_first() =~= cv.skip(i as int + 1));
        }
        if same_player_key(&collection[i].player, player) {
            return collection[i].duplicate();
        }
        i = i + 1;
    }
    proof {
        assert(cv.skip(cv.len() as int) =~= Seq::<IdStatsV>::empty());
    }
    IdStats::default(player.duplicate())
}

/// A counter raised by one, held at its ceiling instead of wrapping.
pub open spec fn bump(x: i32) -> i32 {
    if x == i32::MAX {
        i32::MAX
    } else {
        (x + 1) as i32
    }
}

/// A builder-side record after a match: the new rating, and the counter
/// of the match's outcome raised by one.
pub open spec fn builder_after(s: IdStatsV, new_rating: Rating, winner: IdTeam) -> IdStatsV {
    IdStatsV {
        player: s.player,
        builder_stats: BuilderStats {
            rating: new_rating,
            wins: if winner == IdTeam::Builder {
                bump(s.builder_stats.wins)
            } else {
                s.builder_stats.wins
            },
            losses: if winner == IdTeam::Titan {
                bump(s.builder_stats.losses)
            } else {
                s.builder_stats.losses
            },
            ties: if winner == IdTeam::Tie {
                bump(s.builder_stats.ties)
            } else {
                s.builder_stats.ties
            },
        },
        titan_stats: s.titan_stats,
    }
}

/// A titan-side record after a match: the new rating, and the counter
/// of the match's outcome raised by one.
pub open spec fn titan_after(s: IdStatsV, new_rating: Rating, winner: IdTeam) -> IdStatsV {
    IdStatsV {
        player: s.player,
        builder_stats: s.builder_stats,
        titan_stats: TitanStats {
            rating: new_rating,
            wins: if winner == IdTeam::Titan {
                bump(s.titan_stats.wins)
            } else {
                s.titan_stats.wins
            },
            losses: if winner == IdTeam::Builder {
                bump(s.titan_stats.losses)
            } else {
                s.titan_stats.losses
            },
            ties: if winner == IdTeam::Tie {
                bump(s.titan_stats.ties)
            } else {
                s.titan_stats.ties
            },
        },
    }
}

/// The builder-side ratings of a fetched roster.
pub fn builder_ratings(records: &Vec<IdStats>) -> (r: Vec<Rating>)
    ensures
        r@ == records@.map_values(|s: IdStats| s.builder_stats.rating),
{
    let mut out: Vec<Rating> = Vec::new();
    let mut i: usize = 0;
    while i < records.len()
        invariant
            0 <= i <= records@.len(),
            out@ =~= records@.map_values(|s: IdStats| s.builder_stats.rating).take(i as int),
        decreases records@.len() - i,
    {
        out.push(records[i].builder_stats.rating);
        i = i + 1;
        proof {
            assert(out@ =~= records@.map_values(|s: IdStats| s.builder_stats.rating).take(
                i as int,
            ));
        }
    }
    proof {
        assert(out@ =~= records@.map_values(|s: IdStats| s.builder_stats.rating));
    }
    out
}

/// The titan-side ratings of a fetched roster.
pub fn titan_ratings(records: &Vec<IdStats>) -> (r: Vec<Rating>)
    ensures
        r@ == records@.map_values(|s: IdStats| s.titan_stats.rating),
{
    let mut out: Vec<Rating> = Vec::new();
    let mut i: usize = 0;
    while i < records.len()
        invariant
            0 <= i <= records@.len(),
            out@ =~= records@.map_values(|s: IdStats| s.titan_stats.rating).take(i as int),
        decreases records@.len() - i,
    {
        out.push(records[i].titan_stats.rating);
        i = i + 1;
        proof {
            assert(out@ =~= records@.map_values(|s: IdStats| s.titan_stats.rating).take(i as int));
        }
    }
    proof {
        assert(out@ =~= records@.map_values(|s: IdStats| s.titan_stats.rating));
    }
    out
}

/// Plans the rater call for a validated game result: a tie skips the
/// rater; otherwise both sides' role ratings are expanded to their
/// least common multiple of sizes, and the rank pair tells the rater
/// which side won. An empty side of a decided match is refused.
pub fn plan_rating_update(builders: &Vec<IdStats>, titans: &Vec<IdStats>, winner: IdTeam) -> (r:
    Result<Option<(Vec<Rating>, Vec<Rating>, (usize, usize))>, RatingError>)
    requires
        spec_lcm(builders@.len(), titans@.len()) <= usize::MAX,
    ensures
        winner == IdTeam::Tie ==> r == Ok::<Option<(Vec<Rating>, Vec<Rating>, (usize, usize))>, RatingError>(
            None,
        ),
        winner != IdTeam::Tie && (builders@.len() == 0 || titans@.len() == 0) ==> r == Err::<
            Option<(Vec<Rating>, Vec<Rating>, (usize, usize))>,
            RatingError,
        >(RatingError::EmptyTeam),
        winner != IdTeam::Tie && builders@.len() > 0 && titans@.len() > 0 ==> {
            &&& r is Ok
            &&& r matches Ok(Some(v))
            &&& ({
                let m = spec_lcm(builders@.len(), titans@.len()) as int;
                &&& v.0@ == cyclic_expand(
                    builders@.map_values(|s: IdStats| s.builder_stats.rating),
                    m,
                )
                &&& v.1@ == cyclic_expand(
                    titans@.map_values(|s: IdStats| s.titan_stats.rating),
                    m,
                )
                &&& v.2 == (if winner == IdTeam::Builder {
                    (1usize, 2usize)
                } else {
                    (2usize, 1usize)
                })
            })
        },
{
    match winner {
        IdTeam::Tie => Ok(None),
        _ => {
            if builders.len() == 0 || titans.len() == 0 {
                return Err(RatingError::EmptyTeam);
            }
            let b = builder_ratings(builders);
            let t = titan_ratings(titans);
            let (be, te) = crate::rating::expand_to_lcm(&b, &t);
            let ranks = if matches!(winner, IdTeam::Builder) {
                (1usize, 2usize)
            } else {
                (2usize, 1usize)
            };
            Ok(Some((be, te, ranks)))
        },
    }
}

/// Applies a validated game result to the fetched rosters: every
/// builder and titan record gets the outcome counter of the match
/// raised by one, and — for a decided match — the rating the rater
/// assigned to its slot. A tie leaves every rating untouched. Rated
/// lists whose lengths do not match the rosters are refused.
pub fn update_stats(
    builders: Vec<IdStats>,
    titans: Vec<IdStats>,
    winner: IdTeam,
    rated_builders: Vec<Rating>,
    rated_titans: Vec<Rating>,
) -> (r: Result<(Vec<IdStats>, Vec<IdStats>), RatingError>)
    ensures
        ({
            let bv = builders@.map_values(|s: IdStats| s@);
            let tv = titans@.map_values(|s: IdStats| s@);
            if winner != IdTeam::Tie && (rated_builders@.len() != builders@.len()
                || rated_titans@.len() != titans@.len()) {
                r == Err::<(Vec<IdStats>, Vec<IdStats>), RatingError>(
                    RatingError::MismatchedRatings,
                )
            } else {
                &&& r is Ok
                &&& r matches Ok(v)
                &&& v.0@.len() == builders@.len()
                &&& v.1@.len() == titans@.len()
                &&& forall|i: int|
                    0 <= i < builders@.len() ==> #[trigger] v.0@[i]@ == builder_after(
                        bv[i],
                        if winner == IdTeam::Tie {
                            bv[i].builder_stats.rating
                        } else {
                            rated_builders@[i]
                        },
                        winner,
                    )
                &&& forall|i: int|
                    0 <= i < titans@.len() ==> #[trigger] v.1@[i]@ == titan_after(
                        tv[i],
                        if winner == IdTeam::Tie {
                            tv[i].titan_stats.rating
                        } else {
                            rated_titans@[i]
                        },
                        winner,
                    )
            }
        }),
{
    let is_tie = matches!(winner, IdTeam::Tie);
    if !is_tie && (rated_builders.len() != builders.len() || rated_titans.len() != titans.len()) {
        return Err(RatingError::MismatchedRatings);
    }
    let ghost bv = builders@.map_values(|s: IdStats| s@);
    let ghost tv = titans@.map_values(|s: IdStats| s@);
    let mut out_builders: Vec<IdStats> = Vec::new();
    let mut i: usize = 0;
    while i < builders.len()
        invariant
            0 <= i <= builders@.len(),
            bv == builders@.map_values(|s: IdStats| s@),
            is_tie == (winner == IdTeam::Tie),
            !is_tie ==> rated_builders@.len() == builders@.len(),
            out_builders@.len() == i,
            forall|j: int|
                0 <= j < i ==> #[trigger] out_builders@[j]@ == builder_after(
                    bv[j],
                    if winner == IdTeam::Tie {
                        bv[j].builder_stats.rating
                    } else {
                        rated_builders@[j]
                    },
                    winner,
                ),
        decreases builders@.len() - i,
    {
        let s = &builders[i];
        let new_rating = if is_tie {
            s.builder_stats.rating
        } else {
            rated_builders[i]
        };
        let wins = if matches!(winner, IdTeam::Builder) {
            saturating_bump(s.builder_stats.wins)
        } else {
            s.builder_stats.wins
        };
        let losses = if matches!(winner, IdTeam::Titan) {
            saturating_bump(s.builder_stats.losses)
        } else {
            s.builder_stats.losses
        };
        let ties = if is_tie {
            saturating_bump(s.builder_stats.ties)
        } else {
            s.builder_stats.ties
        };
        out_builders.push(IdStats {
            player: s.player.duplicate(),
            builder_stats: BuilderStats { rating: new_rating, wins, losses, ties },
            titan_stats: s.titan_stats,
        });
        i = i + 1;
    }
    let mut out_titans: Vec<IdStats> = Vec::new();
    let mut k: usize = 0;
    while k < titans.len()
        invariant
            0 <= k <= titans@.len(),
            tv == titans@.map_values(|s: IdStats| s@),
            is_tie == (winner == IdTeam::Tie),
            !is_tie ==> rated_titans@.len() == titans@.len(),
            out_titans@.len() == k,
            forall|j: int|
                0 <= j < k ==> #[trigger] out_titans@[j]@ == titan_after(
                    tv[j],
                    if winner == IdTeam::Tie {
                        tv[j].titan_stats.rating
                    } else {
                        rated_titans@[j]
                    },
                    winner,
                ),
        decreases titans@.len() - k,
    {
        let s = &titans[k];
        let new_rating = if is_tie {
            s.titan_stats.rating
        } else {
            rated_titans[k]
        };
        let wins = if matches!(winner, IdTeam::Titan) {
            saturating_bump(s.titan_stats.wins)
        } else {
            s.titan_stats.wins
        };
        let losses = if matches!(winner, IdTeam::Builder) {
            saturating_bump(s.titan_stats.losses)
        } else {
            s.titan_stats.losses
        };
        let ties = if is_tie {
            saturating_bump(s.titan_stats.ties)
        } else {
            s.titan_stats.ties
        };
        out_titans.push(IdStats {
            player: s.player.duplicate(),
            builder_stats: s.builder_stats,
            titan_stats: TitanStats { rating: new_rating, wins, losses, ties },
        });
        k = k + 1;
    }
    Ok((out_builders, out_titans))
}

/// Raises a counter by one, holding it at its ceiling.
fn saturating_bump(x: i32) -> (r: i32)
    ensures
        r == bump(x),
{
    if x == i32::MAX {
        x
    } else {
        x + 1
    }
}

} // verus!

verus! {

/// A collection with one record replaced or appended: the first record
/// matching the new record's player under the stats key rule is
/// replaced; a player without a record is appended. This is the
/// replace-or-insert write the stats worker performs per record.
pub open spec fn spec_upsert(c: Seq<IdStatsV>, rec: IdStatsV) -> Seq<IdStatsV>
    decreases c.len(),
{
    if c.len() == 0 {
        seq![rec]
    } else if player_key_eq(c[0].player, rec.player) {
        seq![rec] + c.drop_first()
    } else {
        seq![c[0]] + spec_upsert(c.drop_first(), rec)
    }
}

/// A collection after a batch of records was written one by one.
pub open spec fn spec_upsert_all(c: Seq<IdStatsV>, recs: Seq<IdStatsV>) -> Seq<IdStatsV>
    decreases recs.len(),
{
    if recs.len() == 0 {
        c
    } else {
        spec_upsert_all(spec_upsert(c, recs[0]), recs.drop_first())
    }
}

/// Writing no records leaves a collection untouched. In particular a
/// game result with empty rosters causes no update at all: applied to a
/// clean collection it is a no-op.
pub proof fn lemma_upsert_nothing(c: Seq<IdStatsV>)
    ensures
        spec_upsert_all(c, Seq::<IdStatsV>::empty()) == c,
{
}

/// Writes one record into a collection, replacing the first record of
/// the same player under the stats key rule, or appending.
pub fn upsert_stats(collection: Vec<IdStats>, record: IdStats) -> (r: Vec<IdStats>)
    ensures
        r@.map_values(|s: IdStats| s@) == spec_upsert(
            collection@.map_values(|s: IdStats| s@),
            record@,
        ),
{
    let ghost cv = collection@.map_values(|s: IdStats| s@);
    proof {
        assert(cv.skip(0) =~= cv);
    }
    let mut out: Vec<IdStats> = Vec::new();
    let mut i: usize = 0;
    while i < collection.len()
        invariant
            0 <= i <= collection@.len(),
            cv == collection@.map_values(|s: IdStats| s@),
            out@.len() == i,
            forall|j: int| 0 <= j < i ==> #[trigger] out@[j]@ == cv[j],
            forall|j: int| 0 <= j < i ==> !player_key_eq(cv[j].player, record@.player),
            spec_upsert(cv, record@) == out@.map_values(|s: IdStats| s@) + spec_upsert(
                cv.skip(i as int),
                record@,
            ),
        decreases collection@.len() - i,
    {
        proof {
            assert(cv.skip(i as int)[0] == cv[i as int]);
            assert(cv.skip(i as int).drop_first() =~= cv.skip(i as int + 1));
        }
        let ghost before = out@.map_values(|s: IdStats| s@);
        if same_player_key(&collection[i].player, &record.player) {
            let ghost rv = record@;
            proof {
                assert(before =~= cv.take(i as int));
                assert(spec_upsert(cv.skip(i as int), rv) =~= seq![rv] + cv.skip(i as int + 1));
            }
            out.push(record);
            proof {
                assert(out@.map_values(|s: IdStats| s@) =~= (cv.take(i as int) + seq![rv])
                    + cv.subrange(i as int + 1, i as int + 1));
            }
            let mut k: usize = i + 1;
            while k < collection.len()
                invariant
                    cv == collection@.map_values(|s: IdStats| s@),
                    i < collection@.len(),
                    i + 1 <= k <= collection@.len(),
                    spec_upsert(cv, rv) == cv.take(i as int) + (seq![rv] + cv.skip(i as int + 1)),
                    out@.map_values(|s: IdStats| s@) =~= (cv.take(i as int) + seq![rv])
                        + cv.subrange(i as int + 1, k as int),
                decreases collection@.len() - k,
            {
                let ghost ov = out@.map_values(|s: IdStats| s@);
                out.push(collection[k].duplicate());
                proof {
                    assert(cv[k as int] == collection@[k as int]@);
                    assert(out@.map_values(|s: IdStats| s@) =~= ov.push(cv[k as int]));
                    assert(cv.subrange(i as int + 1, k as int).push(cv[k as int]) =~= cv.subrange(
                        i as int + 1,
                        k as int + 1,
                    ));
                    assert(ov.push(cv[k as int]) =~= (cv.take(i as int) + seq![rv]) + cv.subrange(
                        i as int + 1,
                        k as int,
                    ).push(cv[k as int]));
                }
                k = k + 1;
                proof {
                    assert(out@.map_values(|s: IdStats| s@) =~= (cv.take(i as int) + seq![rv])
                        + cv.subrange(i as int + 1, k as int));
                }
            }
            proof {
                assert(cv.subrange(i as int + 1, cv.len() as int) =~= cv.skip(i as int + 1));
                assert(out@.map_values(|s: IdStats| s@) =~= spec_upsert(cv, rv));
            }
            return out;
        }
        out.push(collection[i].duplicate());
        i = i + 1;
        proof {
            assert(out@.map_values(|s: IdStats| s@) =~= before.push(cv[i - 1]));
            assert(before.push(cv[i - 1]) =~= before + seq![cv[i - 1]]);
            assert((before + seq![cv[i - 1]]) + spec_upsert(cv.skip(i as int), record@)
                =~= before + (seq![cv[i - 1]] + spec_upsert(cv.skip(i as int), record@)));
        }
    }
    proof {
        assert(cv.skip(cv.len() as int) =~= Seq::<IdStatsV>::empty());
    }
    out.push(record);
    proof {
        assert(out@.map_values(|s: IdStats| s@) =~= spec_upsert(cv, record@));
    }
    out
}

} // verus!

verus! {

/// Plans one hypothetical match of a lobby projection: both sides'
/// role ratings expanded to their least common multiple of sizes, with
/// the rank pair naming the winning side. `None` when either side is
/// empty — the projection then keeps the input ratings and makes no
/// rater call.
pub fn plan_potential_ratings(
    builders: &Vec<IdStats>,
    titans: &Vec<IdStats>,
    builders_win: bool,
) -> (r: Option<(Vec<Rating>, Vec<Rating>, (usize, usize))>)
    requires
        spec_lcm(builders@.len(), titans@.len()) <= usize::MAX,
    ensures
        r is None <==> builders@.len() == 0 || titans@.len() == 0,
        r matches Some(v) ==> {
            let m = spec_lcm(builders@.len(), titans@.len()) as int;
            &&& v.0@ == cyclic_expand(
                builders@.map_values(|s: IdStats| s.builder_stats.rating),
                m,
            )
            &&& v.1@ == cyclic_expand(titans@.map_values(|s: IdStats| s.titan_stats.rating), m)
            &&& v.2 == (if builders_win {
                (1usize, 2usize)
            } else {
                (2usize, 1usize)
            })
        },
{
    if builders.len() == 0 || titans.len() == 0 {
        return None;
    }
    let b = builder_ratings(builders);
    let t = titan_ratings(titans);
    let (be, te) = crate::rating::expand_to_lcm(&b, &t);
    let ranks = if builders_win {
        (1usize, 2usize)
    } else {
        (2usize, 1usize)
    };
    Some((be, te, ranks))
}

} // verus!
