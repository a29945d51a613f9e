//! The downloader's verified decisions: the ingest ledger entry, the
//! filter that picks replay ids not yet covered by the ledger bounds,
//! and the realm normalisation table shared with the lobby scraper.

use vstd::prelude::*;

verus! {

/// One ingest ledger entry: a replay id and what happened to it.
/// The id is kept signed because the ledger's storage has no unsigned
/// integers.
#[derive(Debug, Clone, Copy, PartialEq, Eq, Structural)]
pub struct GameIdDto {
    pub game_id: i64,
    pub was_parsed: bool,
    pub was_sent_over_pubsub: bool,
}

impl GameIdDto {
    /// Builds a ledger entry.
    pub fn new(game_id: i64, was_parsed: bool, was_sent_over_pubsub: bool) -> (r: GameIdDto)
        ensures
            r == (GameIdDto { game_id, was_parsed, was_sent_over_pubsub }),
    {
        GameIdDto { game_id, was_parsed, was_sent_over_pubsub }
    }
}

/// The ids outside the closed interval of already-seen ids, in their
/// original order.
pub open spec fn spec_new_ids(ids: Seq<i64>, min_seen: i64, max_seen: i64) -> Seq<i64>
    decreases ids.len(),
{
    if ids.len() == 0 {
        Seq::empty()
    } else {
        (if ids[0] < min_seen || ids[0] > max_seen {
            seq![ids[0]]
        } else {
            Seq::empty()
        }) + spec_new_ids(ids.drop_first(), min_seen, max_seen)
    }
}

/// Keeps the replay ids that lie outside the ledger's seen interval.
pub fn filter_new_game_ids(ids: &Vec<i64>, min_seen: i64, max_seen: i64) -> (r: Vec<i64>)
    ensures
        r@ == spec_new_ids(ids@, min_seen, max_seen),
{
    let mut out: Vec<i64> = Vec::new();
    proof {
        assert(ids@.skip(0) =~= ids@);
    }
    let mut i: usize = 0;
    while i < ids.len()
        invariant
            0 <= i <= ids@.len(),
            spec_new_ids(ids@, min_seen, max_seen) == out@ + spec_new_ids(
                ids@.skip(i as int),
                min_seen,
                max_seen,
            ),
        decreases ids@.len() - i,
    {
        proof {
            assert(ids@.skip(i as int)[0] == ids@[i as int]);
            assert(ids@.skip(i as int).drop_first() =~= ids@.skip(i as int + 1));
        }
        let ghost before = out@;
        let id = ids[i];
        if id < min_seen || id > max_seen {
            out.push(id);
            proof {
                assert(before + (seq![id] + spec_new_ids(
                    ids@.skip(i as int + 1),
                    min_seen,
                    max_seen,
                )) =~= out@ + spec_new_ids(ids@.skip(i as int + 1), min_seen, max_seen));
            }
        }
        i = i + 1;
    }
    proof {
        assert(ids@.skip(ids@.len() as int) =~= Seq::<i64>::empty());
        assert(out@ + Seq::<i64>::empty() =~= out@);
    }
    out
}

/// The canonical form of an on-wire realm string; unknown realms pass
/// through unchanged.
pub open spec fn spec_normalize_realm(s: Seq<char>) -> Seq<char> {
    if s == "USEast"@ {
        "useast.battle.net"@
    } else if s == "USWest"@ {
        "uswest.battle.net"@
    } else if s == "Europe"@ {
        "europe.battle.net"@
    } else if s == "Asia"@ {
        "asia.battle.net"@
    } else {
        s
    }
}

/// Normalises an on-wire realm string to its canonical form.
pub fn normalize_realm(realm: String) -> (r: String)
    ensures
        r@ == spec_normalize_realm(realm@),
{
    let us_east: String = "USEast".to_owned();
    if realm == us_east {
        return "useast.battle.net".to_owned();
    }
    let us_west: String = "USWest".to_owned();
    if realm == us_west {
        return "uswest.battle.net".to_owned();
    }
    let europe: String = "Europe".to_owned();
    if realm == europe {
        return "europe.battle.net".to_owned();
    }
    let asia: String = "Asia".to_owned();
    if realm == asia {
        return "asia.battle.net".to_owned();
    }
    realm
}

} // verus!
