//! Laws of the decoder that relate several functions: the exact size
//! accounting of the action stream, and the bit-set laws of the two
//! flag decoders.

use vstd::prelude::*;
use crate::model::{ActionV, AllianceType, CommandV, OrderType};
use crate::spec_parse::{
    alliance_flags_of, alliance_flags_upto, alliance_member, alliance_type_bit, find_nul,
    order_flags_of, order_flags_upto, order_member, order_type_bit, sp_action, sp_actions,
    sp_commands, sp_fgk, sp_zstr,
};

verus! {

/// The declared on-wire size of an action, its tag byte included.
pub open spec fn action_wire_size(a: ActionV) -> int {
    match a {
        ActionV::PauseGame {} => 1,
        ActionV::ResumeGame {} => 1,
        ActionV::SetGameSpeed { .. } => 2,
        ActionV::IncreaseGameSpeed {} => 1,
        ActionV::DecreaseGameSpeed {} => 1,
        ActionV::SaveGame { game_name } => 2 + game_name.len() as int,
        ActionV::SaveGameFinish { .. } => 5,
        ActionV::SelfOrder { .. } => 15,
        ActionV::PointOrder { .. } => 23,
        ActionV::ObjectOrder { .. } => 31,
        ActionV::DropOrGiveItem { .. } => 39,
        ActionV::FogObjectOrder { .. } => 44,
        ActionV::ChangeSelection { select_mode: _, targets } => 4 + 8 * targets.len() as int,
        ActionV::AssignGroup { group_number: _, targets } => 4 + 8 * targets.len() as int,
        ActionV::SelectGroup { .. } => 3,
        ActionV::SelectSubGroup { .. } => 13,
        ActionV::PreSubSelection {} => 1,
        ActionV::TriggerSelectionEvent { .. } => 10,
        ActionV::SelectGroundItem { .. } => 10,
        ActionV::CancelHeroRevival { .. } => 9,
        ActionV::CancelUnitInQueue { .. } => 6,
        ActionV::Unknown21 { .. } => 9,
        ActionV::CheatTheDudeAbides {} => 1,
        ActionV::CheatSomebodySetUpUsTheBomb {} => 1,
        ActionV::CheatWarpTen {} => 1,
        ActionV::CheatIocainePowder {} => 1,
        ActionV::CheatPointBreak {} => 1,
        ActionV::CheatWhosYourDaddy {} => 1,
        ActionV::CheatKeyserSoze { .. } => 6,
        ActionV::CheatLeafItToMe { .. } => 6,
        ActionV::CheatThereIsNoSpoon {} => 1,
        ActionV::CheatStrengthAndHonor {} => 1,
        ActionV::CheatItVexesMe {} => 1,
        ActionV::CheatWhoIsJohnGalt {} => 1,
        ActionV::CheatGreedIsGood { .. } => 6,
        ActionV::CheatDaylightSavings { .. } => 5,
        ActionV::CheatISeeDeadPeople {} => 1,
        ActionV::CheatSynergy {} => 1,
        ActionV::CheatSharpAndShiny {} => 1,
        ActionV::CheatAllYourBaseAreBelongToUs {} => 1,
        ActionV::ChangeAlly { .. } => 6,
        ActionV::TransferResources { .. } => 10,
        ActionV::MapTriggerChat { event: _, message } => 10 + message.len() as int,
        ActionV::Esc {} => 1,
        ActionV::TriggerSleepOrSyncFinished { .. } => 13,
        ActionV::TriggerSyncReady { .. } => 9,
        ActionV::TriggerMouseClickedTrackable { .. } => 9,
        ActionV::TriggerMouseTouchedTrackable { .. } => 9,
        ActionV::EnterHeroSkillSubMenu {} => 1,
        ActionV::EnterBuildingSubMenu {} => 1,
        ActionV::MiniMapSignal { .. } => 13,
        ActionV::DialogButtonClicked { .. } => 17,
        ActionV::DialogAnyButtonClicked { .. } => 17,
        ActionV::SyncStoredInteger { file, group, key, .. } => 8 + file.len() as int + group.len() as int
            + key.len() as int,
        ActionV::SyncStoredFloat { file, group, key, .. } => 8 + file.len() as int + group.len() as int
            + key.len() as int,
        ActionV::SyncStoredBoolean { file, group, key, .. } => 8 + file.len() as int + group.len() as int
            + key.len() as int,
        ActionV::SyncStoredUnit { file, group, key, inventory, abilities, .. } => 94 + file.len() as int
            + group.len() as int + key.len() as int + 12 * inventory.len() as int + 8 * abilities.len() as int,
        ActionV::SyncStoredString { file, group, key, value } => 5 + file.len() as int + group.len() as int
            + key.len() as int + value.len() as int,
        ActionV::SyncEmptyInteger { file, group, key } => 4 + file.len() as int + group.len() as int + key.len() as int,
        ActionV::SyncEmptyString { file, group, key } => 4 + file.len() as int + group.len() as int + key.len() as int,
        ActionV::SyncEmptyBoolean { file, group, key } => 4 + file.len() as int + group.len() as int + key.len() as int,
        ActionV::SyncEmptyUnit { file, group, key } => 4 + file.len() as int + group.len() as int + key.len() as int,
        ActionV::SyncEmptyFloat { file, group, key } => 4 + file.len() as int + group.len() as int + key.len() as int,
        ActionV::TriggerArrow { .. } => 2,
    }
}

/// The summed on-wire sizes of a command's actions.
pub open spec fn sum_action_sizes(s: Seq<ActionV>) -> int
    decreases s.len(),
{
    if s.len() == 0 {
        0
    } else {
        action_wire_size(s[0]) + sum_action_sizes(s.drop_first())
    }
}

/// A found terminator lies at or after the start and holds a zero.
proof fn lemma_find_nul_bounds(s: Seq<u8>, p: int)
    requires
        0 <= p,
    ensures
        find_nul(s, p) matches Some(q) ==> p <= q < s.len() && s[q] == 0,
    decreases s.len() - p,
{
    if p >= s.len() {
    } else if s[p] == 0 {
    } else {
        lemma_find_nul_bounds(s, p + 1);
    }
}

/// A parsed text run advances the cursor by its length plus the
/// terminator.
proof fn lemma_zstr_len(s: Seq<u8>, p: int)
    requires
        0 <= p,
    ensures
        sp_zstr(s, p) matches Ok(v) ==> v.1 == p + v.0.len() + 1 && v.1 <= s.len(),
{
    lemma_find_nul_bounds(s, p);
}

/// A parsed file/group/key triple advances the cursor by the three
/// lengths plus their three terminators.
proof fn lemma_fgk_len(s: Seq<u8>, p: int)
    requires
        0 <= p,
    ensures
        sp_fgk(s, p) matches Ok(v) ==> ({
            let ((file, group, key), q) = v;
            q == p + file.len() + group.len() + key.len() + 3 && q <= s.len() && 0 <= q
        }),
{
    lemma_zstr_len(s, p);
    match sp_zstr(s, p) {
        Ok((_, p1)) => {
            lemma_zstr_len(s, p1);
            match sp_zstr(s, p1) {
                Ok((_, p2)) => {
                    lemma_zstr_len(s, p2);
                },
                Err(_) => {},
            }
        },
        Err(_) => {},
    }
}

/// A parsed action advances the cursor by exactly its declared on-wire
/// size.
#[verifier::spinoff_prover]
#[verifier::rlimit(100)]
pub proof fn lemma_action_size(s: Seq<u8>, p: int)
    ensures
        sp_action(s, p) matches Ok(v) ==> v.1 - p == action_wire_size(v.0),
{
    if 0 <= p && p < s.len() {
        let t = s[p];
        let q = p + 1;
        if t == 0x06 {
            lemma_zstr_len(s, q);
        } else if t == 0x60 {
            lemma_zstr_len(s, q + 8);
        } else if t == 0x6B || t == 0x6C || t == 0x6D || t == 0x70 || t == 0x71 || t == 0x72 || t
            == 0x73 || t == 0x74 {
            lemma_fgk_len(s, q);
        } else if t == 0x6E {
            lemma_fgk_len(s, q);
        } else if t == 0x6F {
            lemma_fgk_len(s, q);
            match sp_fgk(s, q) {
                Ok((_, p3)) => {
                    lemma_zstr_len(s, p3);
                },
                Err(_) => {},
            }
        }
    }
}

/// A parsed action list lands exactly on its byte budget, and the
/// summed declared sizes of its actions equal that budget. This is the
/// size-accounting law of the command format: for every command,
/// the sum of its actions' on-wire sizes is the command's byte count.
pub proof fn lemma_actions_sizes(s: Seq<u8>, p: int, budget: int)
    ensures
        sp_actions(s, p, budget) matches Ok(v) ==> v.1 == p + budget && sum_action_sizes(v.0)
            == budget,
    decreases budget,
{
    if budget <= 0 {
    } else {
        match sp_action(s, p) {
            Err(_) => {},
            Ok((a, q)) => {
                lemma_action_size(s, p);
                if q <= p || q - p > budget {
                } else {
                    lemma_actions_sizes(s, q, budget - (q - p));
                    match sp_actions(s, q, budget - (q - p)) {
                        Err(_) => {},
                        Ok((rest, _)) => {
                            assert((seq![a] + rest).drop_first() =~= rest);
                            assert((seq![a] + rest)[0] == a);
                        },
                    }
                }
            },
        }
    }
}

/// Every command of a parsed tick accounts for its byte count exactly:
/// the summed on-wire sizes of its actions equal its `num_bytes` field.
pub proof fn lemma_command_sizes(s: Seq<u8>, p: int, budget: int)
    ensures
        sp_commands(s, p, budget) matches Ok(v) ==> forall|i: int|
            0 <= i < v.0.len() ==> sum_action_sizes(#[trigger] v.0[i].actions) == v.0[i].num_bytes,
    decreases budget,
{
    if budget <= 0 {
    } else if !(0 <= p && p + 3 <= s.len()) {
    } else {
        let num_bytes = crate::spec_parse::le16(s, p + 1);
        lemma_actions_sizes(s, p + 3, num_bytes as int);
        match sp_actions(s, p + 3, num_bytes as int) {
            Err(_) => {},
            Ok((actions, r)) => {
                if r <= p || r - p > budget {
                } else {
                    lemma_command_sizes(s, r, budget - (r - p));
                    match sp_commands(s, r, budget - (r - p)) {
                        Err(_) => {},
                        Ok((rest, _)) => {
                            let c = CommandV { player_id: s[p], num_bytes, actions };
                            assert forall|i: int|
                                0 <= i < (seq![c] + rest).len() implies sum_action_sizes(
                                #[trigger] (seq![c] + rest)[i].actions,
                            ) == (seq![c] + rest)[i].num_bytes by {
                                if i == 0 {
                                    assert((seq![c] + rest)[0] == c);
                                } else {
                                    assert((seq![c] + rest)[i] == rest[i - 1]);
                                }
                            }
                        },
                    }
                }
            },
        }
    }
}

/// The bitwise OR of a list of order flags.
pub open spec fn or_flags16(s: Seq<OrderType>) -> u16
    decreases s.len(),
{
    if s.len() == 0 {
        0u16
    } else {
        or_flags16(s.drop_last()) | order_type_bit(s.last())
    }
}

/// The bitwise OR of a list of alliance flags.
pub open spec fn or_flags32(s: Seq<AllianceType>) -> u32
    decreases s.len(),
{
    if s.len() == 0 {
        0u32
    } else {
        or_flags32(s.drop_last()) | alliance_type_bit(s.last())
    }
}

/// All recognised order bits.
pub const ORDER_FLAG_MASK: u16 = 0xBF;

/// All recognised alliance bits.
pub const ALLIANCE_FLAG_MASK: u32 = 0x7FF;

/// The recognised order bits among the first `k` members.
pub open spec fn order_mask_upto(k: int) -> u16
    decreases k,
{
    if k <= 0 {
        0u16
    } else {
        order_mask_upto(k - 1) | order_type_bit(order_member(k - 1))
    }
}

/// The recognised alliance bits among the first `k` members.
pub open spec fn alliance_mask_upto(k: int) -> u32
    decreases k,
{
    if k <= 0 {
        0u32
    } else {
        alliance_mask_upto(k - 1) | alliance_type_bit(alliance_member(k - 1))
    }
}

proof fn lemma_or16_step(w: u16, m: u16, b: u16)
    requires
        w & b == 0 || w & b == b,
    ensures
        w & b != 0 ==> ((w & m) | b) == w & (m | b),
        w & b == 0 ==> (w & m) == w & (m | b),
{
    assert((w & b == b && w & b != 0) ==> ((w & m) | b) == w & (m | b)) by (bit_vector);
    assert(w & b == 0 ==> (w & m) == w & (m | b)) by (bit_vector);
}

proof fn lemma_or32_step(w: u32, m: u32, b: u32)
    requires
        w & b == 0 || w & b == b,
    ensures
        w & b != 0 ==> ((w & m) | b) == w & (m | b),
        w & b == 0 ==> (w & m) == w & (m | b),
{
    assert((w & b == b && w & b != 0) ==> ((w & m) | b) == w & (m | b)) by (bit_vector);
    assert(w & b == 0 ==> (w & m) == w & (m | b)) by (bit_vector);
}

proof fn lemma_order_bits_single(w: u16)
    ensures
        forall|k: int| 0 <= k < 7 ==> w & #[trigger] order_type_bit(order_member(k)) == 0 || w
            & order_type_bit(order_member(k)) == order_type_bit(order_member(k)),
        w & 0u16 == 0,
{
    assert((w & 0x01u16 == 0 || w & 0x01u16 == 0x01) && (w & 0x02u16 == 0 || w & 0x02u16 == 0x02)
        && (w & 0x04u16 == 0 || w & 0x04u16 == 0x04) && (w & 0x08u16 == 0 || w & 0x08u16 == 0x08)
        && (w & 0x10u16 == 0 || w & 0x10u16 == 0x10) && (w & 0x20u16 == 0 || w & 0x20u16 == 0x20)
        && (w & 0x80u16 == 0 || w & 0x80u16 == 0x80) && w & 0u16 == 0) by (bit_vector);
    assert forall|k: int| 0 <= k < 7 implies w & #[trigger] order_type_bit(order_member(k)) == 0
        || w & order_type_bit(order_member(k)) == order_type_bit(order_member(k)) by {
        if k == 0 {
        } else if k == 1 {
        } else if k == 2 {
        } else if k == 3 {
        } else if k == 4 {
        } else if k == 5 {
        } else {
        }
    }
}

proof fn lemma_alliance_bits_single(w: u32)
    ensures
        forall|k: int| 0 <= k < 11 ==> w & #[trigger] alliance_type_bit(alliance_member(k)) == 0
            || w & alliance_type_bit(alliance_member(k)) == alliance_type_bit(alliance_member(k)),
        w & 0u32 == 0,
{
    assert((w & 0x001u32 == 0 || w & 0x001u32 == 0x001) && (w & 0x002u32 == 0 || w & 0x002u32
        == 0x002) && (w & 0x004u32 == 0 || w & 0x004u32 == 0x004) && (w & 0x008u32 == 0 || w
        & 0x008u32 == 0x008) && (w & 0x010u32 == 0 || w & 0x010u32 == 0x010) && (w & 0x020u32 == 0
        || w & 0x020u32 == 0x020) && (w & 0x040u32 == 0 || w & 0x040u32 == 0x040) && (w & 0x080u32
        == 0 || w & 0x080u32 == 0x080) && (w & 0x100u32 == 0 || w & 0x100u32 == 0x100) && (w
        & 0x200u32 == 0 || w & 0x200u32 == 0x200) && (w & 0x400u32 == 0 || w & 0x400u32 == 0x400)
        && w & 0u32 == 0) by (bit_vector);
    assert forall|k: int| 0 <= k < 11 implies w & #[trigger] alliance_type_bit(alliance_member(k))
        == 0 || w & alliance_type_bit(alliance_member(k)) == alliance_type_bit(
        alliance_member(k),
    ) by {
        if k == 0 {
        } else if k == 1 {
        } else if k == 2 {
        } else if k == 3 {
        } else if k == 4 {
        } else if k == 5 {
        } else if k == 6 {
        } else if k == 7 {
        } else if k == 8 {
        } else if k == 9 {
        } else {
        }
    }
}

proof fn lemma_or_upto16(w: u16, k: int)
    requires
        0 <= k <= 7,
    ensures
        or_flags16(order_flags_upto(w, k)) == w & order_mask_upto(k),
    decreases k,
{
    lemma_order_bits_single(w);
    if k == 0 {
        assert(order_flags_upto(w, 0) =~= Seq::<OrderType>::empty());
    } else {
        lemma_or_upto16(w, k - 1);
        let prev = order_flags_upto(w, k - 1);
        let b = order_type_bit(order_member(k - 1));
        lemma_or16_step(w, order_mask_upto(k - 1), b);
        if w & b != 0 {
            let cur = order_flags_upto(w, k);
            assert(cur == prev + seq![order_member(k - 1)]);
            assert(cur.drop_last() =~= prev);
            assert(cur.last() == order_member(k - 1));
            assert(cur.len() > 0);
        } else {
            assert(order_flags_upto(w, k) =~= prev);
        }
    }
}

proof fn lemma_or_upto32(w: u32, k: int)
    requires
        0 <= k <= 11,
    ensures
        or_flags32(alliance_flags_upto(w, k)) == w & alliance_mask_upto(k),
    decreases k,
{
    lemma_alliance_bits_single(w);
    if k == 0 {
        assert(alliance_flags_upto(w, 0) =~= Seq::<AllianceType>::empty());
    } else {
        lemma_or_upto32(w, k - 1);
        let prev = alliance_flags_upto(w, k - 1);
        let b = alliance_type_bit(alliance_member(k - 1));
        lemma_or32_step(w, alliance_mask_upto(k - 1), b);
        if w & b != 0 {
            let cur = alliance_flags_upto(w, k);
            assert(cur == prev + seq![alliance_member(k - 1)]);
            assert(cur.drop_last() =~= prev);
            assert(cur.last() == alliance_member(k - 1));
            assert(cur.len() > 0);
        } else {
            assert(alliance_flags_upto(w, k) =~= prev);
        }
    }
}

/// The bitwise OR of the decoded order flags recovers the input word
/// restricted to the recognised bits.
pub proof fn lemma_order_flags_or(w: u16)
    ensures
        or_flags16(order_flags_of(w)) == w & ORDER_FLAG_MASK,
{
    lemma_or_upto16(w, 7);
    assert(0x01u16 | 0x02 == 0x03 && 0x03u16 | 0x04 == 0x07 && 0x07u16 | 0x08 == 0x0F && 0x0Fu16
        | 0x10 == 0x1F && 0x1Fu16 | 0x20 == 0x3F && 0x3Fu16 | 0x80 == 0xBF && 0u16 | 0x01 == 0x01)
        by (bit_vector);
    assert(order_mask_upto(0) == 0x00u16);
    assert(order_mask_upto(1) == 0x01u16);
    assert(order_mask_upto(2) == 0x03u16);
    assert(order_mask_upto(3) == 0x07u16);
    assert(order_mask_upto(4) == 0x0Fu16);
    assert(order_mask_upto(5) == 0x1Fu16);
    assert(order_mask_upto(6) == 0x3Fu16);
    assert(order_mask_upto(7) == 0xBFu16);
}

/// The bitwise OR of the decoded alliance flags recovers the input word
/// restricted to the recognised bits.
pub proof fn lemma_alliance_flags_or(w: u32)
    ensures
        or_flags32(alliance_flags_of(w)) == w & ALLIANCE_FLAG_MASK,
{
    lemma_or_upto32(w, 11);
    assert(0x001u32 | 0x002 == 0x003 && 0x003u32 | 0x004 == 0x007 && 0x007u32 | 0x008 == 0x00F
        && 0x00Fu32 | 0x010 == 0x01F && 0x01Fu32 | 0x020 == 0x03F && 0x03Fu32 | 0x040 == 0x07F
        && 0x07Fu32 | 0x080 == 0x0FF && 0x0FFu32 | 0x100 == 0x1FF && 0x1FFu32 | 0x200 == 0x3FF
        && 0x3FFu32 | 0x400 == 0x7FF && 0u32 | 0x001 == 0x001) by (bit_vector);
    assert(alliance_mask_upto(0) == 0x000u32);
    assert(alliance_mask_upto(1) == 0x001u32);
    assert(alliance_mask_upto(2) == 0x003u32);
    assert(alliance_mask_upto(3) == 0x007u32);
    assert(alliance_mask_upto(4) == 0x00Fu32);
    assert(alliance_mask_upto(5) == 0x01Fu32);
    assert(alliance_mask_upto(6) == 0x03Fu32);
    assert(alliance_mask_upto(7) == 0x07Fu32);
    assert(alliance_mask_upto(8) == 0x0FFu32);
    assert(alliance_mask_upto(9) == 0x1FFu32);
    assert(alliance_mask_upto(10) == 0x3FFu32);
    assert(alliance_mask_upto(11) == 0x7FFu32);
    assert(ALLIANCE_FLAG_MASK == 0x7FFu32);
}

proof fn lemma_flags_set_upto16(w: u16, k: int)
    requires
        0 <= k <= 7,
    ensures
        forall|i: int| 0 <= i < order_flags_upto(w, k).len() ==> w & order_type_bit(
            #[trigger] order_flags_upto(w, k)[i],
        ) != 0,
    decreases k,
{
    if k == 0 {
    } else {
        lemma_flags_set_upto16(w, k - 1);
        let prev = order_flags_upto(w, k - 1);
        let cur = order_flags_upto(w, k);
        let b = order_type_bit(order_member(k - 1));
        assert forall|i: int| 0 <= i < cur.len() implies w & order_type_bit(
            #[trigger] cur[i],
        ) != 0 by {
            if w & b != 0 {
                if i < prev.len() {
                    assert(cur[i] == prev[i]);
                } else {
                    assert(cur[i] == order_member(k - 1));
                }
            } else {
                assert(cur =~= prev);
                assert(cur[i] == prev[i]);
            }
        }
    }
}

proof fn lemma_flags_set_upto32(w: u32, k: int)
    requires
        0 <= k <= 11,
    ensures
        forall|i: int| 0 <= i < alliance_flags_upto(w, k).len() ==> w & alliance_type_bit(
            #[trigger] alliance_flags_upto(w, k)[i],
        ) != 0,
    decreases k,
{
    if k == 0 {
    } else {
        lemma_flags_set_upto32(w, k - 1);
        let prev = alliance_flags_upto(w, k - 1);
        let cur = alliance_flags_upto(w, k);
        let b = alliance_type_bit(alliance_member(k - 1));
        assert forall|i: int| 0 <= i < cur.len() implies w & alliance_type_bit(
            #[trigger] cur[i],
        ) != 0 by {
            if w & b != 0 {
                if i < prev.len() {
                    assert(cur[i] == prev[i]);
                } else {
                    assert(cur[i] == alliance_member(k - 1));
                }
            } else {
                assert(cur =~= prev);
                assert(cur[i] == prev[i]);
            }
        }
    }
}

/// Every decoded order flag has its bit set in the input word: the
/// decoder's output is a subset of the word's recognised bits.
pub proof fn lemma_order_flags_subset(w: u16)
    ensures
        forall|i: int| 0 <= i < order_flags_of(w).len() ==> w & order_type_bit(
            #[trigger] order_flags_of(w)[i],
        ) != 0,
{
    lemma_flags_set_upto16(w, 7);
}

/// Every decoded alliance flag has its bit set in the input word: the
/// decoder's output is a subset of the word's recognised bits.
pub proof fn lemma_alliance_flags_subset(w: u32)
    ensures
        forall|i: int| 0 <= i < alliance_flags_of(w).len() ==> w & alliance_type_bit(
            #[trigger] alliance_flags_of(w)[i],
        ) != 0,
{
    lemma_flags_set_upto32(w, 11);
}

} // verus!
