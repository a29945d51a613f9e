//! The mathematical definition of the replay wire format.
//!
//! Every function here is a total specification-level parser over a byte
//! sequence `s` and a position `p`: it returns the parsed value together
//! with the position just past it, or the exact error the decoder owes on
//! that input. The executable decoder in [`crate::parser`] is proved to
//! return precisely what these functions say, error for error.

use vstd::prelude::*;
use vstd::bytes::{spec_u16_from_le_bytes, spec_u32_from_le_bytes, spec_u64_from_le_bytes};
use vstd::utf8::valid_utf8;
use crate::errors::DecodeError;
use crate::model::{
    ActionV, AllianceType, ArrowKeyEvent, CommandV, Float32, GameHeaderV, GameObject, GameRecordV,
    GameSpeed, OrderType, PlayerRecordV, ReplayBlockV, ReplayHeaderV, ReplayV, SelectionOperation,
    SlotRecord, UnitAbility, UnitInventory,
};

verus! {

/// The 16-bit little-endian value at `p`.
pub open spec fn le16(s: Seq<u8>, p: int) -> u16 {
    spec_u16_from_le_bytes(s.subrange(p, p + 2))
}

/// The 32-bit little-endian value at `p`.
pub open spec fn le32(s: Seq<u8>, p: int) -> u32 {
    spec_u32_from_le_bytes(s.subrange(p, p + 4))
}

/// The 64-bit little-endian value at `p`.
pub open spec fn le64(s: Seq<u8>, p: int) -> u64 {
    spec_u64_from_le_bytes(s.subrange(p, p + 8))
}

/// The 32-bit little-endian value at `p`, reinterpreted as signed.
pub open spec fn lei32(s: Seq<u8>, p: int) -> i32 {
    le32(s, p) as i32
}

/// The 32-bit little-endian value at `p`, kept as a float bit pattern.
pub open spec fn lef32(s: Seq<u8>, p: int) -> Float32 {
    Float32 { bits: le32(s, p) }
}

/// The eight-byte game object starting at `p`.
pub open spec fn gobj(s: Seq<u8>, p: int) -> GameObject {
    GameObject { allocated_id: le32(s, p), counter_id: le32(s, p + 4) }
}

/// `n` consecutive game objects starting at `p`.
pub open spec fn gobjs(s: Seq<u8>, p: int, n: int) -> Seq<GameObject> {
    Seq::new(n as nat, |i: int| gobj(s, p + 8 * i))
}

/// The index of the first zero byte at or after `p`, if any.
pub open spec fn find_nul(s: Seq<u8>, p: int) -> Option<int>
    decreases s.len() - p when 0 <= p
{
    if p >= s.len() {
        None
    } else if s[p] == 0 {
        Some(p)
    } else {
        find_nul(s, p + 1)
    }
}

/// A zero-terminated UTF-8 text field: the bytes before the terminator.
pub open spec fn sp_zstr(s: Seq<u8>, p: int) -> Result<(Seq<u8>, int), DecodeError> {
    if p < 0 {
        Err(DecodeError::ShortRead)
    } else {
        match find_nul(s, p) {
            None => Err(DecodeError::ShortRead),
            Some(q) => {
                let b = s.subrange(p, q);
                if valid_utf8(b) {
                    Ok((b, q + 1))
                } else {
                    Err(DecodeError::InvalidUtf8)
                }
            },
        }
    }
}

/// A zero-terminated byte run, kept raw and including its terminator.
pub open spec fn sp_estr(s: Seq<u8>, p: int) -> Result<(Seq<u8>, int), DecodeError> {
    if p < 0 {
        Err(DecodeError::ShortRead)
    } else {
        match find_nul(s, p) {
            None => Err(DecodeError::ShortRead),
            Some(q) => Ok((s.subrange(p, q + 1), q + 1)),
        }
    }
}

/// The file/group/key triple that prefixes every trigger-sync action.
pub open spec fn sp_fgk(s: Seq<u8>, p: int) -> Result<((Seq<u8>, Seq<u8>, Seq<u8>), int), DecodeError> {
    match sp_zstr(s, p) {
        Err(e) => Err(e),
        Ok((file, p1)) => match sp_zstr(s, p1) {
            Err(e) => Err(e),
            Ok((group, p2)) => match sp_zstr(s, p2) {
                Err(e) => Err(e),
                Ok((key, p3)) => Ok(((file, group, key), p3)),
            },
        },
    }
}

/// The game speed a byte names, if any.
pub open spec fn game_speed_of(b: u8) -> Option<GameSpeed> {
    if b == 0 {
        Some(GameSpeed::Slow)
    } else if b == 1 {
        Some(GameSpeed::Normal)
    } else if b == 2 {
        Some(GameSpeed::Fast)
    } else {
        None
    }
}

/// The selection operation a byte names, if any.
pub open spec fn selection_operation_of(b: u8) -> Option<SelectionOperation> {
    if b == 1 {
        Some(SelectionOperation::Add)
    } else if b == 2 {
        Some(SelectionOperation::Remove)
    } else {
        None
    }
}

/// The arrow key event a byte names, if any.
pub open spec fn arrow_key_event_of(b: u8) -> Option<ArrowKeyEvent> {
    if b == 0 {
        Some(ArrowKeyEvent::PressedLeftArrow)
    } else if b == 1 {
        Some(ArrowKeyEvent::ReleasedLeftArrow)
    } else if b == 2 {
        Some(ArrowKeyEvent::PressedRightArrow)
    } else if b == 3 {
        Some(ArrowKeyEvent::ReleasedRightArrow)
    } else if b == 4 {
        Some(ArrowKeyEvent::PressedDownArrow)
    } else if b == 5 {
        Some(ArrowKeyEvent::ReleasedDownArrow)
    } else if b == 6 {
        Some(ArrowKeyEvent::PressedUpArrow)
    } else if b == 7 {
        Some(ArrowKeyEvent::ReleasedUpArrow)
    } else {
        None
    }
}

/// The wire bit of one order modifier.
pub open spec fn order_type_bit(t: OrderType) -> u16 {
    match t {
        OrderType::Queue => 0x01,
        OrderType::Train => 0x02,
        OrderType::Construct => 0x04,
        OrderType::Group => 0x08,
        OrderType::NoFormation => 0x10,
        OrderType::Summon => 0x20,
        OrderType::AutoCastOn => 0x80,
    }
}

/// The order modifiers in ascending bit order.
pub open spec fn order_member(k: int) -> OrderType {
    if k == 0 {
        OrderType::Queue
    } else if k == 1 {
        OrderType::Train
    } else if k == 2 {
        OrderType::Construct
    } else if k == 3 {
        OrderType::Group
    } else if k == 4 {
        OrderType::NoFormation
    } else if k == 5 {
        OrderType::Summon
    } else {
        OrderType::AutoCastOn
    }
}

/// The set bits of an order word among the first `k` members, listed in
/// ascending bit order.
pub open spec fn order_flags_upto(w: u16, k: int) -> Seq<OrderType>
    decreases k,
{
    if k <= 0 {
        Seq::empty()
    } else {
        order_flags_upto(w, k - 1) + (if w & order_type_bit(order_member(k - 1)) != 0 {
            seq![order_member(k - 1)]
        } else {
            Seq::empty()
        })
    }
}

/// The set bits of an order word, listed in ascending bit order.
pub open spec fn order_flags_of(w: u16) -> Seq<OrderType> {
    order_flags_upto(w, 7)
}

/// The wire bit of one alliance setting.
pub open spec fn alliance_type_bit(t: AllianceType) -> u32 {
    match t {
        AllianceType::Passive => 0x001,
        AllianceType::HelpRequest => 0x002,
        AllianceType::HelpResponse => 0x004,
        AllianceType::SharedXP => 0x008,
        AllianceType::SharedSpells => 0x010,
        AllianceType::SharedVision => 0x020,
        AllianceType::SharedControl => 0x040,
        AllianceType::FullSharedControl => 0x080,
        AllianceType::Rescuable => 0x100,
        AllianceType::SharedVisionForced => 0x200,
        AllianceType::AlliedVictory => 0x400,
    }
}

/// The alliance settings in ascending bit order.
pub open spec fn alliance_member(k: int) -> AllianceType {
    if k == 0 {
        AllianceType::Passive
    } else if k == 1 {
        AllianceType::HelpRequest
    } else if k == 2 {
        AllianceType::HelpResponse
    } else if k == 3 {
        AllianceType::SharedXP
    } else if k == 4 {
        AllianceType::SharedSpells
    } else if k == 5 {
        AllianceType::SharedVision
    } else if k == 6 {
        AllianceType::SharedControl
    } else if k == 7 {
        AllianceType::FullSharedControl
    } else if k == 8 {
        AllianceType::Rescuable
    } else if k == 9 {
        AllianceType::SharedVisionForced
    } else {
        AllianceType::AlliedVictory
    }
}

/// The set bits of an alliance word among the first `k` members, listed
/// in ascending bit order.
pub open spec fn alliance_flags_upto(w: u32, k: int) -> Seq<AllianceType>
    decreases k,
{
    if k <= 0 {
        Seq::empty()
    } else {
        alliance_flags_upto(w, k - 1) + (if w & alliance_type_bit(alliance_member(k - 1)) != 0 {
            seq![alliance_member(k - 1)]
        } else {
            Seq::empty()
        })
    }
}

/// The set bits of an alliance word, listed in ascending bit order.
pub open spec fn alliance_flags_of(w: u32) -> Seq<AllianceType> {
    alliance_flags_upto(w, 11)
}

/// One action, starting at its tag byte.
pub open spec fn sp_action(s: Seq<u8>, p: int) -> Result<(ActionV, int), DecodeError> {
    if !(0 <= p && p < s.len()) {
        Err(DecodeError::ShortRead)
    } else {
        let t = s[p];
        let q = p + 1;
        if t == 0x01 {
            Ok((ActionV::PauseGame {}, q))
        } else if t == 0x02 {
            Ok((ActionV::ResumeGame {}, q))
        } else if t == 0x03 {
            if q + 1 <= s.len() {
                match game_speed_of(s[q]) {
                    Some(speed) => Ok((ActionV::SetGameSpeed { speed }, q + 1)),
                    None => Err(DecodeError::InvalidEnumValue),
                }
            } else {
                Err(DecodeError::ShortRead)
            }
        } else if t == 0x04 {
            Ok((ActionV::IncreaseGameSpeed {}, q))
        } else if t == 0x05 {
            Ok((ActionV::DecreaseGameSpeed {}, q))
        } else if t == 0x06 {
            match sp_zstr(s, q) {
                Err(e) => Err(e),
                Ok((game_name, r)) => Ok((ActionV::SaveGame { game_name }, r)),
            }
        } else if t == 0x07 {
            if q + 4 <= s.len() {
                Ok((ActionV::SaveGameFinish { unknown: le32(s, q) }, q + 4))
            } else {
                Err(DecodeError::ShortRead)
            }
        } else if t == 0x10 {
            if q + 14 <= s.len() {
                Ok((ActionV::SelfOrder {
                    flags: order_flags_of(le16(s, q)),
                    order_id: le32(s, q + 2),
                    unknown: gobj(s, q + 6),
                }, q + 14))
            } else {
                Err(DecodeError::ShortRead)
            }
        } else if t == 0x11 {
            if q + 22 <= s.len() {
                Ok((ActionV::PointOrder {
                    flags: order_flags_of(le16(s, q)),
                    order_id: le32(s, q + 2),
                    unknown: gobj(s, q + 6),
                    x: lef32(s, q + 14),
                    y: lef32(s, q + 18),
                }, q + 22))
            } else {
                Err(DecodeError::ShortRead)
            }
        } else if t == 0x12 {
            if q + 30 <= s.len() {
                Ok((ActionV::ObjectOrder {
                    flags: order_flags_of(le16(s, q)),
                    order_id: le32(s, q + 2),
                    unknown: gobj(s, q + 6),
                    x: lef32(s, q + 14),
                    y: lef32(s, q + 18),
                    target: gobj(s, q + 22),
                }, q + 30))
            } else {
                Err(DecodeError::ShortRead)
            }
        } else if t == 0x13 {
            if q + 38 <= s.len() {
                Ok((ActionV::DropOrGiveItem {
                    flags: order_flags_of(le16(s, q)),
                    order_id: le32(s, q + 2),
                    unknown: gobj(s, q + 6),
                    x: lef32(s, q + 14),
                    y: lef32(s, q + 18),
                    receiver: gobj(s, q + 22),
                    item: gobj(s, q + 30),
                }, q + 38))
            } else {
                Err(DecodeError::ShortRead)
            }
        } else if t == 0x14 {
            if q + 43 <= s.len() {
                Ok((ActionV::FogObjectOrder {
                    flags: order_flags_of(le16(s, q)),
                    order_id: le32(s, q + 2),
                    unknown: gobj(s, q + 6),
                    x: lef32(s, q + 14),
                    y: lef32(s, q + 18),
                    target_type: le32(s, q + 22),
                    target_flags: le64(s, q + 26),
                    target_owner: s[q + 34],
                    target_x: lef32(s, q + 35),
                    target_y: lef32(s, q + 39),
                }, q + 43))
            } else {
                Err(DecodeError::ShortRead)
            }
        } else if t == 0x16 {
            if q + 1 <= s.len() {
                match selection_operation_of(s[q]) {
                    None => Err(DecodeError::InvalidEnumValue),
                    Some(select_mode) => {
                        if q + 3 <= s.len() {
                            let n = le16(s, q + 1) as int;
                            if q + 3 + 8 * n <= s.len() {
                                Ok((ActionV::ChangeSelection {
                                    select_mode,
                                    targets: gobjs(s, q + 3, n),
                                }, q + 3 + 8 * n))
                            } else {
                                Err(DecodeError::ShortRead)
                            }
                        } else {
                            Err(DecodeError::ShortRead)
                        }
                    },
                }
            } else {
                Err(DecodeError::ShortRead)
            }
        } else if t == 0x17 {
            if q + 3 <= s.len() {
                let n = le16(s, q + 1) as int;
                if q + 3 + 8 * n <= s.len() {
                    Ok((ActionV::AssignGroup {
                        group_number: s[q],
                        targets: gobjs(s, q + 3, n),
                    }, q + 3 + 8 * n))
                } else {
                    Err(DecodeError::ShortRead)
                }
            } else {
                Err(DecodeError::ShortRead)
            }
        } else if t == 0x18 {
            if q + 2 <= s.len() {
                Ok((ActionV::SelectGroup { group_number: s[q], unknown: s[q + 1] }, q + 2))
            } else {
                Err(DecodeError::ShortRead)
            }
        } else if t == 0x19 {
            if q + 12 <= s.len() {
                Ok((ActionV::SelectSubGroup { item_id: le32(s, q), target: gobj(s, q + 4) }, q + 12))
            } else {
                Err(DecodeError::ShortRead)
            }
        } else if t == 0x1A {
            Ok((ActionV::PreSubSelection {}, q))
        } else if t == 0x1B {
            if q + 1 <= s.len() {
                match selection_operation_of(s[q]) {
                    None => Err(DecodeError::InvalidEnumValue),
                    Some(operation) => {
                        if q + 9 <= s.len() {
                            Ok((ActionV::TriggerSelectionEvent {
                                operation,
                                target: gobj(s, q + 1),
                            }, q + 9))
                        } else {
                            Err(DecodeError::ShortRead)
                        }
                    },
                }
            } else {
                Err(DecodeError::ShortRead)
            }
        } else if t == 0x1C {
            if q + 9 <= s.len() {
                Ok((ActionV::SelectGroundItem { flags: s[q], target: gobj(s, q + 1) }, q + 9))
            } else {
                Err(DecodeError::ShortRead)
            }
        } else if t == 0x1D {
            if q + 8 <= s.len() {
                Ok((ActionV::CancelHeroRevival { target: gobj(s, q) }, q + 8))
            } else {
                Err(DecodeError::ShortRead)
            }
        } else if t == 0x1E {
            if q + 5 <= s.len() {
                Ok((ActionV::CancelUnitInQueue { slot_index: s[q], unit_id: le32(s, q + 1) }, q + 5))
            } else {
                Err(DecodeError::ShortRead)
            }
        } else if t == 0x20 {
            Ok((ActionV::CheatTheDudeAbides {}, q))
        } else if t == 0x21 {
            if q + 8 <= s.len() {
                Ok((ActionV::Unknown21 { unknown_a: le32(s, q), unknown_b: le32(s, q + 4) }, q + 8))
            } else {
                Err(DecodeError::ShortRead)
            }
        } else if t == 0x22 {
            Ok((ActionV::CheatSomebodySetUpUsTheBomb {}, q))
        } else if t == 0x23 {
            Ok((ActionV::CheatWarpTen {}, q))
        } else if t == 0x24 {
            Ok((ActionV::CheatIocainePowder {}, q))
        } else if t == 0x25 {
            Ok((ActionV::CheatPointBreak {}, q))
        } else if t == 0x26 {
            Ok((ActionV::CheatWhosYourDaddy {}, q))
        } else if t == 0x27 {
            if q + 5 <= s.len() {
                Ok((ActionV::CheatKeyserSoze { unknown: s[q], gold: lei32(s, q + 1) }, q + 5))
            } else {
                Err(DecodeError::ShortRead)
            }
        } else if t == 0x28 {
            if q + 5 <= s.len() {
                Ok((ActionV::CheatLeafItToMe { unknown: s[q], lumber: lei32(s, q + 1) }, q + 5))
            } else {
                Err(DecodeError::ShortRead)
            }
        } else if t == 0x29 {
            Ok((ActionV::CheatThereIsNoSpoon {}, q))
        } else if t == 0x2A {
            Ok((ActionV::CheatStrengthAndHonor {}, q))
        } else if t == 0x2B {
            Ok((ActionV::CheatItVexesMe {}, q))
        } else if t == 0x2C {
            Ok((ActionV::CheatWhoIsJohnGalt {}, q))
        } else if t == 0x2D {
            if q + 5 <= s.len() {
                Ok((ActionV::CheatGreedIsGood { unknown: s[q], resources: lei32(s, q + 1) }, q + 5))
            } else {
                Err(DecodeError::ShortRead)
            }
        } else if t == 0x2E {
            if q + 4 <= s.len() {
                Ok((ActionV::CheatDaylightSavings { time: lef32(s, q) }, q + 4))
            } else {
                Err(DecodeError::ShortRead)
            }
        } else if t == 0x2F {
            Ok((ActionV::CheatISeeDeadPeople {}, q))
        } else if t == 0x30 {
            Ok((ActionV::CheatSynergy {}, q))
        } else if t == 0x31 {
            Ok((ActionV::CheatSharpAndShiny {}, q))
        } else if t == 0x32 {
            Ok((ActionV::CheatAllYourBaseAreBelongToUs {}, q))
        } else if t == 0x50 {
            if q + 5 <= s.len() {
                Ok((ActionV::ChangeAlly {
                    player_id: s[q],
                    flags: alliance_flags_of(le32(s, q + 1)),
                }, q + 5))
            } else {
                Err(DecodeError::ShortRead)
            }
        } else if t == 0x51 {
            if q + 9 <= s.len() {
                Ok((ActionV::TransferResources {
                    player_id: s[q],
                    gold_transfered: lei32(s, q + 1),
                    lumber_transfered: lei32(s, q + 5),
                }, q + 9))
            } else {
                Err(DecodeError::ShortRead)
            }
        } else if t == 0x60 {
            if q + 8 <= s.len() {
                match sp_zstr(s, q + 8) {
                    Err(e) => Err(e),
                    Ok((message, r)) => Ok((ActionV::MapTriggerChat {
                        event: gobj(s, q),
                        message,
                    }, r)),
                }
            } else {
                Err(DecodeError::ShortRead)
            }
        } else if t == 0x61 {
            Ok((ActionV::Esc {}, q))
        } else if t == 0x62 {
            if q + 12 <= s.len() {
                Ok((ActionV::TriggerSleepOrSyncFinished {
                    thread: gobj(s, q),
                    wait_count: le32(s, q + 8),
                }, q + 12))
            } else {
                Err(DecodeError::ShortRead)
            }
        } else if t == 0x63 {
            if q + 8 <= s.len() {
                Ok((ActionV::TriggerSyncReady { thread: gobj(s, q) }, q + 8))
            } else {
                Err(DecodeError::ShortRead)
            }
        } else if t == 0x64 {
            if q + 8 <= s.len() {
                Ok((ActionV::TriggerMouseClickedTrackable { trackable: gobj(s, q) }, q + 8))
            } else {
                Err(DecodeError::ShortRead)
            }
        } else if t == 0x65 {
            if q + 8 <= s.len() {
                Ok((ActionV::TriggerMouseTouchedTrackable { trackable: gobj(s, q) }, q + 8))
            } else {
                Err(DecodeError::ShortRead)
            }
        } else if t == 0x66 {
            Ok((ActionV::EnterHeroSkillSubMenu {}, q))
        } else if t == 0x67 {
            Ok((ActionV::EnterBuildingSubMenu {}, q))
        } else if t == 0x68 {
            if q + 12 <= s.len() {
                Ok((ActionV::MiniMapSignal {
                    location_x: lef32(s, q),
                    location_y: lef32(s, q + 4),
                    duration: lef32(s, q + 8),
                }, q + 12))
            } else {
                Err(DecodeError::ShortRead)
            }
        } else if t == 0x69 {
            if q + 16 <= s.len() {
                Ok((ActionV::DialogButtonClicked {
                    dialog: gobj(s, q),
                    button: gobj(s, q + 8),
                }, q + 16))
            } else {
                Err(DecodeError::ShortRead)
            }
        } else if t == 0x6A {
            if q + 16 <= s.len() {
                Ok((ActionV::DialogAnyButtonClicked {
                    button: gobj(s, q),
                    dialog: gobj(s, q + 8),
                }, q + 16))
            } else {
                Err(DecodeError::ShortRead)
            }
        } else if t == 0x6B {
            match sp_fgk(s, q) {
                Err(e) => Err(e),
                Ok(((file, group, key), p3)) => {
                    if p3 + 4 <= s.len() {
                        Ok((ActionV::SyncStoredInteger {
                            file,
                            group,
                            key,
                            value: lei32(s, p3),
                        }, p3 + 4))
                    } else {
                        Err(DecodeError::ShortRead)
                    }
                },
            }
        } else if t == 0x6C {
            match sp_fgk(s, q) {
                Err(e) => Err(e),
                Ok(((file, group, key), p3)) => {
                    if p3 + 4 <= s.len() {
                        Ok((ActionV::SyncStoredFloat {
                            file,
                            group,
                            key,
                            value: lef32(s, p3),
                        }, p3 + 4))
                    } else {
                        Err(DecodeError::ShortRead)
                    }
                },
            }
        } else if t == 0x6D {
            match sp_fgk(s, q) {
                Err(e) => Err(e),
                Ok(((file, group, key), p3)) => {
                    if p3 + 4 <= s.len() {
                        Ok((ActionV::SyncStoredBoolean {
                            file,
                            group,
                            key,
                            value: le32(s, p3),
                        }, p3 + 4))
                    } else {
                        Err(DecodeError::ShortRead)
                    }
                },
            }
        } else if t == 0x6E {
            sp_sync_stored_unit(s, q)
        } else if t == 0x6F {
            match sp_fgk(s, q) {
                Err(e) => Err(e),
                Ok(((file, group, key), p3)) => match sp_zstr(s, p3) {
                    Err(e) => Err(e),
                    Ok((value, r)) => Ok((ActionV::SyncStoredString {
                        file,
                        group,
                        key,
                        value,
                    }, r)),
                },
            }
        } else if t == 0x70 {
            match sp_fgk(s, q) {
                Err(e) => Err(e),
                Ok(((file, group, key), p3)) =>
                    Ok((ActionV::SyncEmptyInteger { file, group, key }, p3)),
            }
        } else if t == 0x71 {
            match sp_fgk(s, q) {
                Err(e) => Err(e),
                Ok(((file, group, key), p3)) =>
                    Ok((ActionV::SyncEmptyString { file, group, key }, p3)),
            }
        } else if t == 0x72 {
            match sp_fgk(s, q) {
                Err(e) => Err(e),
                Ok(((file, group, key), p3)) =>
                    Ok((ActionV::SyncEmptyBoolean { file, group, key }, p3)),
            }
        } else if t == 0x73 {
            match sp_fgk(s, q) {
                Err(e) => Err(e),
                Ok(((file, group, key), p3)) =>
                    Ok((ActionV::SyncEmptyUnit { file, group, key }, p3)),
            }
        } else if t == 0x74 {
            match sp_fgk(s, q) {
                Err(e) => Err(e),
                Ok(((file, group, key), p3)) =>
                    Ok((ActionV::SyncEmptyFloat { file, group, key }, p3)),
            }
        } else if t == 0x75 {
            if q + 1 <= s.len() {
                match arrow_key_event_of(s[q]) {
                    None => Err(DecodeError::InvalidEnumValue),
                    Some(key) => Ok((ActionV::TriggerArrow { key }, q + 1)),
                }
            } else {
                Err(DecodeError::ShortRead)
            }
        } else {
            Err(DecodeError::UnknownActionTag)
        }
    }
}

/// The synchronised-unit payload that follows the `0x6E` tag.
pub open spec fn sp_sync_stored_unit(s: Seq<u8>, q: int) -> Result<(ActionV, int), DecodeError> {
    match sp_fgk(s, q) {
        Err(e) => Err(e),
        Ok(((file, group, key), p3)) => {
            if p3 + 8 <= s.len() {
                let icount = le32(s, p3 + 4) as int;
                let p5 = p3 + 8;
                if p5 + 12 * icount + 48 + 4 <= s.len() {
                    let p6 = p5 + 12 * icount;
                    let acount = le32(s, p6 + 48) as int;
                    let p8 = p6 + 52;
                    if p8 + 8 * acount + 30 <= s.len() {
                        let p9 = p8 + 8 * acount;
                        Ok((ActionV::SyncStoredUnit {
                            file,
                            group,
                            key,
                            unit_type: le32(s, p3),
                            inventory: Seq::new(icount as nat, |i: int| UnitInventory {
                                item: le32(s, p5 + 12 * i),
                                charges: le32(s, p5 + 12 * i + 4),
                                unknown: le32(s, p5 + 12 * i + 8),
                            }),
                            experience: le32(s, p6),
                            level_ups: le32(s, p6 + 4),
                            skill_points: le32(s, p6 + 8),
                            proper_name_index: le16(s, p6 + 12),
                            unknown1: le16(s, p6 + 14),
                            base_strength: le32(s, p6 + 16),
                            bonus_strength_per_level: lef32(s, p6 + 20),
                            base_agility: le32(s, p6 + 24),
                            bonus_move_speed: lef32(s, p6 + 28),
                            bonus_attack_speed: lef32(s, p6 + 32),
                            bonus_agility_per_level: lef32(s, p6 + 36),
                            base_intelligence: le32(s, p6 + 40),
                            bonus_intelligence_per_level: lef32(s, p6 + 44),
                            abilities: Seq::new(acount as nat, |i: int| UnitAbility {
                                ability: le32(s, p8 + 8 * i),
                                level: le32(s, p8 + 8 * i + 4),
                            }),
                            bonus_health: lef32(s, p9),
                            bonus_mana: lef32(s, p9 + 4),
                            sight_radius_day: lef32(s, p9 + 8),
                            unknown2: le32(s, p9 + 12),
                            unknown3: le32(s, p9 + 16),
                            unknown4: le32(s, p9 + 20),
                            unknown5: le32(s, p9 + 24),
                            hotkey_flags: le16(s, p9 + 28),
                        }, p9 + 30))
                    } else {
                        Err(DecodeError::ShortRead)
                    }
                } else {
                    Err(DecodeError::ShortRead)
                }
            } else {
                Err(DecodeError::ShortRead)
            }
        },
    }
}

/// The actions of one command: `budget` wire bytes, landing exactly.
pub open spec fn sp_actions(s: Seq<u8>, p: int, budget: int) -> Result<(Seq<ActionV>, int), DecodeError>
    decreases budget
{
    if budget <= 0 {
        if budget == 0 {
            Ok((Seq::empty(), p))
        } else {
            Err(DecodeError::LengthMismatch)
        }
    } else {
        match sp_action(s, p) {
            Err(e) => Err(e),
            Ok((a, q)) => {
                if q <= p || q - p > budget {
                    Err(DecodeError::LengthMismatch)
                } else {
                    match sp_actions(s, q, budget - (q - p)) {
                        Err(e) => Err(e),
                        Ok((rest, r)) => Ok((seq![a] + rest, r)),
                    }
                }
            },
        }
    }
}

/// The commands of one tick: `budget` wire bytes, landing exactly.
pub open spec fn sp_commands(s: Seq<u8>, p: int, budget: int) -> Result<(Seq<CommandV>, int), DecodeError>
    decreases budget
{
    if budget <= 0 {
        if budget == 0 {
            Ok((Seq::empty(), p))
        } else {
            Err(DecodeError::LengthMismatch)
        }
    } else if !(0 <= p && p + 3 <= s.len()) {
        Err(DecodeError::ShortRead)
    } else {
        let player_id = s[p];
        let num_bytes = le16(s, p + 1);
        match sp_actions(s, p + 3, num_bytes as int) {
            Err(e) => Err(e),
            Ok((actions, r)) => {
                if r <= p || r - p > budget {
                    Err(DecodeError::LengthMismatch)
                } else {
                    match sp_commands(s, r, budget - (r - p)) {
                        Err(e) => Err(e),
                        Ok((rest, end)) => Ok((
                            seq![CommandV { player_id, num_bytes, actions }] + rest,
                            end,
                        )),
                    }
                }
            },
        }
    }
}

/// One replay block, starting at its tag byte; the tag is not zero here.
pub open spec fn sp_block(s: Seq<u8>, p: int) -> Result<(ReplayBlockV, int), DecodeError> {
    if !(0 <= p && p < s.len()) {
        Err(DecodeError::ShortRead)
    } else {
        let t = s[p];
        let q = p + 1;
        if t == 0x17 {
            if q + 13 <= s.len() {
                Ok((ReplayBlockV::LeaveGame {
                    reason: le32(s, q),
                    player_id: s[q + 4],
                    result: le32(s, q + 5),
                    session_leave_count: le32(s, q + 9),
                }, q + 13))
            } else {
                Err(DecodeError::ShortRead)
            }
        } else if t == 0x1A {
            if q + 4 <= s.len() {
                Ok((ReplayBlockV::LoadStarted1 { unknown: le32(s, q) }, q + 4))
            } else {
                Err(DecodeError::ShortRead)
            }
        } else if t == 0x1B {
            if q + 4 <= s.len() {
                Ok((ReplayBlockV::LoadStarted2 { unknown: le32(s, q) }, q + 4))
            } else {
                Err(DecodeError::ShortRead)
            }
        } else if t == 0x1C {
            if q + 4 <= s.len() {
                Ok((ReplayBlockV::GameStarted { unknown: le32(s, q) }, q + 4))
            } else {
                Err(DecodeError::ShortRead)
            }
        } else if t == 0x1E || t == 0x1F {
            if q + 4 <= s.len() {
                let num_bytes = le16(s, q);
                let time_increment = le16(s, q + 2);
                if num_bytes < 2 {
                    Err(DecodeError::LengthMismatch)
                } else {
                    match sp_commands(s, q + 4, num_bytes - 2) {
                        Err(e) => Err(e),
                        Ok((commands, r)) => {
                            if t == 0x1E {
                                Ok((ReplayBlockV::TickPreOverflow {
                                    num_bytes,
                                    time_increment,
                                    commands,
                                }, r))
                            } else {
                                Ok((ReplayBlockV::Tick { num_bytes, time_increment, commands }, r))
                            }
                        },
                    }
                }
            } else {
                Err(DecodeError::ShortRead)
            }
        } else if t == 0x20 {
            if q + 8 <= s.len() {
                let player_id = s[q];
                let num_bytes = le16(s, q + 1);
                let flags = s[q + 3];
                let chat_mode = le32(s, q + 4);
                if num_bytes < 6 {
                    Err(DecodeError::LengthMismatch)
                } else if q + 8 + (num_bytes - 6) > s.len() {
                    Err(DecodeError::ShortRead)
                } else {
                    let message = s.subrange(q + 8, q + 8 + (num_bytes - 6));
                    if !valid_utf8(message) {
                        Err(DecodeError::InvalidUtf8)
                    } else if q + 8 + (num_bytes - 6) + 1 > s.len() {
                        Err(DecodeError::ShortRead)
                    } else if s[q + 8 + (num_bytes - 6)] != 0 {
                        Err(DecodeError::MissingTerminator)
                    } else {
                        Ok((ReplayBlockV::PlayerChat {
                            player_id,
                            num_bytes,
                            flags,
                            chat_mode,
                            message,
                        }, q + 8 + (num_bytes - 6) + 1))
                    }
                }
            } else {
                Err(DecodeError::ShortRead)
            }
        } else if t == 0x22 {
            if q + 5 <= s.len() {
                Ok((ReplayBlockV::RandomSeed { num_bytes: s[q], unknown: le32(s, q + 1) }, q + 5))
            } else {
                Err(DecodeError::ShortRead)
            }
        } else if t == 0x23 {
            if q + 9 <= s.len() {
                Ok((ReplayBlockV::Desync {
                    tick_count: le32(s, q),
                    checksum: le32(s, q + 4),
                    remaining_players: s[q + 8],
                }, q + 9))
            } else {
                Err(DecodeError::ShortRead)
            }
        } else if t == 0x2F {
            if q + 8 <= s.len() {
                Ok((ReplayBlockV::ForceGameEndCountdown {
                    mode: le32(s, q),
                    time: le32(s, q + 4),
                }, q + 8))
            } else {
                Err(DecodeError::ShortRead)
            }
        } else {
            Err(DecodeError::UnknownBlockTag)
        }
    }
}

/// The replay block list, ended by a zero tag byte.
pub open spec fn sp_blocks(s: Seq<u8>, p: int) -> Result<(Seq<ReplayBlockV>, int), DecodeError>
    decreases s.len() - p when 0 <= p
{
    if p >= s.len() {
        Err(DecodeError::ShortRead)
    } else if s[p] == 0 {
        Ok((Seq::empty(), p + 1))
    } else {
        match sp_block(s, p) {
            Err(e) => Err(e),
            Ok((b, q)) => {
                if !(p < q && q <= s.len()) {
                    Err(DecodeError::LengthMismatch)
                } else {
                    match sp_blocks(s, q) {
                        Err(e) => Err(e),
                        Ok((rest, r)) => Ok((seq![b] + rest, r)),
                    }
                }
            },
        }
    }
}

/// The nine-byte slot record starting at `p`.
pub open spec fn slot_of(s: Seq<u8>, p: int) -> SlotRecord {
    SlotRecord {
        player_id: s[p],
        download_percent: s[p + 1],
        slot_status: s[p + 2],
        player_flag: s[p + 3],
        team_number: s[p + 4],
        color: s[p + 5],
        race: s[p + 6],
        ai_strength: s[p + 7],
        handicap: s[p + 8],
    }
}

/// A player record whose leading tag byte was already consumed.
pub open spec fn sp_player_record_body(s: Seq<u8>, p: int, record_id: u8) -> Result<(PlayerRecordV, int), DecodeError> {
    if !(0 <= p && p + 1 <= s.len()) {
        Err(DecodeError::ShortRead)
    } else {
        let player_id = s[p];
        match sp_zstr(s, p + 1) {
            Err(e) => Err(e),
            Ok((player_name, q)) => {
                if q + 1 > s.len() {
                    Err(DecodeError::ShortRead)
                } else {
                    let size = s[q];
                    if q + 1 + size > s.len() {
                        Err(DecodeError::ShortRead)
                    } else {
                        Ok((PlayerRecordV {
                            record_id,
                            player_id,
                            player_name,
                            additional_data_size: size,
                            additional_data: s.subrange(q + 1, q + 1 + size),
                        }, q + 1 + size))
                    }
                }
            },
        }
    }
}

/// A player record including its leading record-id byte.
pub open spec fn sp_player_record(s: Seq<u8>, p: int) -> Result<(PlayerRecordV, int), DecodeError> {
    if !(0 <= p && p < s.len()) {
        Err(DecodeError::ShortRead)
    } else {
        sp_player_record_body(s, p + 1, s[p])
    }
}

/// The run of `0x16`-framed player records; each is followed by a
/// discarded 32-bit value. Returns the records, the tag byte that ended
/// the run, and the position just past that tag.
pub open spec fn sp_player_list(s: Seq<u8>, p: int) -> Result<(Seq<PlayerRecordV>, u8, int), DecodeError>
    decreases s.len() - p when 0 <= p
{
    if p >= s.len() {
        Err(DecodeError::ShortRead)
    } else if s[p] != 0x16 {
        Ok((Seq::empty(), s[p], p + 1))
    } else {
        match sp_player_record_body(s, p + 1, 0x16) {
            Err(e) => Err(e),
            Ok((pr, q)) => {
                if !(p < q && q + 4 <= s.len()) {
                    Err(DecodeError::ShortRead)
                } else {
                    match sp_player_list(s, q + 4) {
                        Err(e) => Err(e),
                        Ok((rest, tag, r)) => Ok((seq![pr] + rest, tag, r)),
                    }
                }
            },
        }
    }
}

/// The game record that ends the player list; its record id is the tag
/// byte that ended the run of player records.
pub open spec fn sp_game_record(s: Seq<u8>, p: int, record_id: u8) -> Result<(GameRecordV, int), DecodeError> {
    if !(0 <= p && p + 3 <= s.len()) {
        Err(DecodeError::ShortRead)
    } else {
        let num_data_bytes = le16(s, p);
        let num_slot_records = s[p + 2];
        let n = num_slot_records as int;
        if p + 3 + 9 * n + 6 <= s.len() {
            Ok((GameRecordV {
                record_id,
                num_data_bytes,
                num_slot_records,
                slot_records: Seq::new(n as nat, |i: int| slot_of(s, p + 3 + 9 * i)),
                random_seed: le32(s, p + 3 + 9 * n),
                select_mode: s[p + 3 + 9 * n + 4],
                start_spot_count: s[p + 3 + 9 * n + 5],
            }, p + 3 + 9 * n + 6))
        } else {
            Err(DecodeError::ShortRead)
        }
    }
}

/// The game header at the start of the decompressed stream.
pub open spec fn sp_game_header(s: Seq<u8>, p: int) -> Result<(GameHeaderV, int), DecodeError> {
    if !(0 <= p && p + 4 <= s.len()) {
        Err(DecodeError::ShortRead)
    } else {
        let unknown = le32(s, p);
        match sp_player_record(s, p + 4) {
            Err(e) => Err(e),
            Ok((replay_saver, p1)) => match sp_zstr(s, p1) {
                Err(e) => Err(e),
                Ok((game_name, p2)) => {
                    if p2 + 1 > s.len() {
                        Err(DecodeError::ShortRead)
                    } else {
                        match sp_estr(s, p2 + 1) {
                            Err(e) => Err(e),
                            Ok((encoded_string, p3)) => {
                                if p3 + 12 > s.len() {
                                    Err(DecodeError::ShortRead)
                                } else {
                                    let number_of_players = le32(s, p3);
                                    let game_type = le32(s, p3 + 4);
                                    let language_id = le32(s, p3 + 8);
                                    match sp_player_list(s, p3 + 12) {
                                        Err(e) => Err(e),
                                        Ok((players, tag, p4)) => {
                                            match sp_game_record(s, p4, tag) {
                                                Err(e) => Err(e),
                                                Ok((game_record, p5)) => Ok((GameHeaderV {
                                                    unknown,
                                                    replay_saver,
                                                    game_name,
                                                    encoded_string,
                                                    number_of_players,
                                                    game_type,
                                                    language_id,
                                                    players,
                                                    game_record,
                                                }, p5)),
                                            }
                                        },
                                    }
                                }
                            },
                        }
                    }
                },
            },
        }
    }
}

/// The whole logical content of the decompressed stream: game header,
/// then replay blocks up to the zero terminator tag. Bytes after the
/// terminator are padding and carry no content.
pub open spec fn sp_game_data(s: Seq<u8>) -> Result<(GameHeaderV, Seq<ReplayBlockV>), DecodeError> {
    match sp_game_header(s, 0) {
        Err(e) => Err(e),
        Ok((gh, p)) => match sp_blocks(s, p) {
            Err(e) => Err(e),
            Ok((blocks, _end)) => Ok((gh, blocks)),
        },
    }
}

} // verus!

verus! {

/// What the zlib decoder returns for a compressed payload: the
/// decompressed bytes, or `None` where the payload is not a well-formed
/// zlib stream. Both the acceptance and the result are pure functions
/// of the bytes; the name is given meaning by the trusted wrapper in
/// [`crate::flate`].
pub uninterp spec fn inflate_of(b: Seq<u8>) -> Option<Seq<u8>>;

/// The logical decompressed stream of the compressed blocks that start
/// at `p`: each block is a compressed size, a decompressed size, a
/// checksum, and a deflate payload; the decompressed payloads are
/// concatenated.
pub open spec fn sp_stream(s: Seq<u8>, p: int) -> Result<Seq<u8>, DecodeError>
    decreases s.len() - p when 0 <= p
{
    if p >= s.len() {
        Ok(Seq::empty())
    } else if p + 8 > s.len() {
        Err(DecodeError::ShortRead)
    } else {
        let csize = le16(s, p) as int;
        if p + 8 + csize > s.len() {
            Err(DecodeError::ShortRead)
        } else {
            match inflate_of(s.subrange(p + 8, p + 8 + csize)) {
                None => Err(DecodeError::Decompress),
                Some(chunk) => match sp_stream(s, p + 8 + csize) {
                    Err(e) => Err(e),
                    Ok(rest) => Ok(chunk + rest),
                },
            }
        }
    }
}

/// The whole replay file: magic header, replay header, and the logical
/// content of the decompressed stream.
pub open spec fn sp_replay(raw: Seq<u8>) -> Result<ReplayV, DecodeError> {
    if raw.len() < 28 {
        Err(DecodeError::ShortRead)
    } else if !valid_utf8(raw.subrange(0, 28)) {
        Err(DecodeError::InvalidUtf8)
    } else if raw.len() < 48 {
        Err(DecodeError::ShortRead)
    } else if raw.len() < 52 {
        Err(DecodeError::ShortRead)
    } else if !valid_utf8(raw.subrange(48, 52)) {
        Err(DecodeError::InvalidUtf8)
    } else if raw.len() < 68 {
        Err(DecodeError::ShortRead)
    } else {
        match sp_stream(raw, 68) {
            Err(e) => Err(e),
            Ok(stream) => match sp_game_data(stream) {
                Err(e) => Err(e),
                Ok((game_header, replay_blocks)) => Ok(ReplayV {
                    magic_string: raw.subrange(0, 28),
                    file_offset: le32(raw, 28),
                    compressed_size: le32(raw, 32),
                    header_version: le32(raw, 36),
                    decompressed_size: le32(raw, 40),
                    number_of_compressed_blocks: le32(raw, 44),
                    replay_header: ReplayHeaderV {
                        version_string: raw.subrange(48, 52),
                        version_number: le32(raw, 52),
                        build_number: le16(raw, 56),
                        flags: le16(raw, 58),
                        duration: le32(raw, 60),
                        crc32: le32(raw, 64),
                    },
                    game_header,
                    replay_blocks,
                }),
            },
        }
    }
}

} // verus!
