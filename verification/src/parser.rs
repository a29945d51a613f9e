//! The executable replay decoder. Every function is proved to return
//! exactly what the corresponding specification parser in
//! [`crate::spec_parse`] assigns to its input, error for error.

use vstd::prelude::*;
use crate::errors::DecodeError;
use crate::model::{
    Action, ActionV, AllianceType, ArrowKeyEvent, Command, CommandV, GameObject, GameHeader,
    GameHeaderV, GameRecord, GameRecordV, GameSpeed, OrderType, PlayerRecord, PlayerRecordV,
    Replay, ReplayBlock, ReplayBlockV, ReplayHeader, ReplayV, SelectionOperation, SlotRecord,
    UnitAbility, UnitInventory,
};
use crate::reader::{
    check_utf8, read_bytes, read_estr, read_f32, read_i32, read_u16, read_u32, read_u64, read_u8,
    read_zstr,
};
use crate::spec_parse::{
    alliance_flags_of, alliance_flags_upto, arrow_key_event_of, game_speed_of, gobj, gobjs, le32,
    order_flags_of, order_flags_upto, selection_operation_of, sp_action, sp_actions, sp_block,
    sp_blocks, sp_commands, sp_fgk, sp_game_data, sp_game_header, sp_game_record, sp_player_list,
    sp_player_record, sp_player_record_body, sp_replay, sp_stream, sp_sync_stored_unit, slot_of,
};

verus! {

impl GameSpeed {
    /// Decodes the wire byte of a game speed.
    pub fn from_u8(byte: u8) -> (r: Result<GameSpeed, DecodeError>)
        ensures
            match r {
                Ok(v) => game_speed_of(byte) == Some(v),
                Err(e) => game_speed_of(byte) is None && e == DecodeError::InvalidEnumValue,
            },
    {
        match byte {
            0x0 => Ok(GameSpeed::Slow),
            0x1 => Ok(GameSpeed::Normal),
            0x2 => Ok(GameSpeed::Fast),
            _ => Err(DecodeError::InvalidEnumValue),
        }
    }
}

impl SelectionOperation {
    /// Decodes the wire byte of a selection operation.
    pub fn from_u8(byte: u8) -> (r: Result<SelectionOperation, DecodeError>)
        ensures
            match r {
                Ok(v) => selection_operation_of(byte) == Some(v),
                Err(e) => selection_operation_of(byte) is None && e
                    == DecodeError::InvalidEnumValue,
            },
    {
        match byte {
            1 => Ok(SelectionOperation::Add),
            2 => Ok(SelectionOperation::Remove),
            _ => Err(DecodeError::InvalidEnumValue),
        }
    }
}

impl ArrowKeyEvent {
    /// Decodes the wire byte of an arrow key event.
    pub fn from_u8(byte: u8) -> (r: Result<ArrowKeyEvent, DecodeError>)
        ensures
            match r {
                Ok(v) => arrow_key_event_of(byte) == Some(v),
                Err(e) => arrow_key_event_of(byte) is None && e == DecodeError::InvalidEnumValue,
            },
    {
        match byte {
            0 => Ok(ArrowKeyEvent::PressedLeftArrow),
            1 => Ok(ArrowKeyEvent::ReleasedLeftArrow),
            2 => Ok(ArrowKeyEvent::PressedRightArrow),
            3 => Ok(ArrowKeyEvent::ReleasedRightArrow),
            4 => Ok(ArrowKeyEvent::PressedDownArrow),
            5 => Ok(ArrowKeyEvent::ReleasedDownArrow),
            6 => Ok(ArrowKeyEvent::PressedUpArrow),
            7 => Ok(ArrowKeyEvent::ReleasedUpArrow),
            _ => Err(DecodeError::InvalidEnumValue),
        }
    }
}

impl OrderType {
    /// Decodes an order word into its set bits, in ascending bit order.
    /// Unrecognised bits carry no flag; see the bit-set laws in
    /// [`crate::laws`].
    #[verifier::spinoff_prover]
    pub fn from_u16(word: u16) -> (flags: Vec<OrderType>)
        ensures
            flags@ == order_flags_of(word),
    {
        let mut flags: Vec<OrderType> = Vec::new();
        proof {
            assert(order_flags_upto(word, 0) =~= Seq::<OrderType>::empty());
        }
        if word & 0x01 != 0 {
            flags.push(OrderType::Queue);
        }
        proof {
            assert(flags@ =~= order_flags_upto(word, 1));
        }
        if word & 0x02 != 0 {
            flags.push(OrderType::Train);
        }
        proof {
            assert(flags@ =~= order_flags_upto(word, 2));
        }
        if word & 0x04 != 0 {
            flags.push(OrderType::Construct);
        }
        proof {
            assert(flags@ =~= order_flags_upto(word, 3));
        }
        if word & 0x08 != 0 {
            flags.push(OrderType::Group);
        }
        proof {
            assert(flags@ =~= order_flags_upto(word, 4));
        }
        if word & 0x10 != 0 {
            flags.push(OrderType::NoFormation);
        }
        proof {
            assert(flags@ =~= order_flags_upto(word, 5));
        }
        if word & 0x20 != 0 {
            flags.push(OrderType::Summon);
        }
        proof {
            assert(flags@ =~= order_flags_upto(word, 6));
        }
        if word & 0x80 != 0 {
            flags.push(OrderType::AutoCastOn);
        }
        proof {
            assert(flags@ =~= order_flags_upto(word, 7));
        }
        flags
    }
}

impl AllianceType {
    /// Decodes an alliance word into its set bits, in ascending bit order.
    /// Unrecognised bits carry no flag; see the bit-set laws in
    /// [`crate::laws`].
    #[verifier::spinoff_prover]
    #[verifier::rlimit(100)]
    pub fn from_u32(word: u32) -> (flags: Vec<AllianceType>)
        ensures
            flags@ == alliance_flags_of(word),
    {
        let mut flags: Vec<AllianceType> = Vec::new();
        proof {
            assert(alliance_flags_upto(word, 0) =~= Seq::<AllianceType>::empty());
        }
        if word & 0x001 != 0 {
            flags.push(AllianceType::Passive);
        }
        proof {
            assert(flags@ =~= alliance_flags_upto(word, 1));
        }
        if word & 0x002 != 0 {
            flags.push(AllianceType::HelpRequest);
        }
        proof {
            assert(flags@ =~= alliance_flags_upto(word, 2));
        }
        if word & 0x004 != 0 {
            flags.push(AllianceType::HelpResponse);
        }
        proof {
            assert(flags@ =~= alliance_flags_upto(word, 3));
        }
        if word & 0x008 != 0 {
            flags.push(AllianceType::SharedXP);
        }
        proof {
            assert(flags@ =~= alliance_flags_upto(word, 4));
        }
        if word & 0x010 != 0 {
            flags.push(AllianceType::SharedSpells);
        }
        proof {
            assert(flags@ =~= alliance_flags_upto(word, 5));
        }
        if word & 0x020 != 0 {
            flags.push(AllianceType::SharedVision);
        }
        proof {
            assert(flags@ =~= alliance_flags_upto(word, 6));
        }
        if word & 0x040 != 0 {
            flags.push(AllianceType::SharedControl);
        }
        proof {
            assert(flags@ =~= alliance_flags_upto(word, 7));
        }
        if word & 0x080 != 0 {
            flags.push(AllianceType::FullSharedControl);
        }
        proof {
            assert(flags@ =~= alliance_flags_upto(word, 8));
        }
        if word & 0x100 != 0 {
            flags.push(AllianceType::Rescuable);
        }
        proof {
            assert(flags@ =~= alliance_flags_upto(word, 9));
        }
        if word & 0x200 != 0 {
            flags.push(AllianceType::SharedVisionForced);
        }
        proof {
            assert(flags@ =~= alliance_flags_upto(word, 10));
        }
        if word & 0x400 != 0 {
            flags.push(AllianceType::AlliedVictory);
        }
        proof {
            assert(flags@ =~= alliance_flags_upto(word, 11));
        }
        flags
    }
}

/// Reads the eight-byte pair of ids of a game object.
pub fn parse_game_object(s: &Vec<u8>, pos: &mut usize) -> (r: Result<GameObject, DecodeError>)
    requires
        *old(pos) <= s@.len(),
    ensures
        *old(pos) <= *final(pos) <= s@.len(),
        match r {
            Ok(g) => *old(pos) + 8 <= s@.len() && g == gobj(s@, *old(pos) as int) && *final(pos)
                == *old(pos) + 8,
            Err(e) => e == DecodeError::ShortRead && *old(pos) + 8 > s@.len() && *final(pos)
                == *old(pos),
        },
{
    if s.len() - *pos < 8 {
        return Err(DecodeError::ShortRead);
    }
    let allocated_id = match read_u32(s, pos) {
        Ok(v) => v,
        Err(e) => {
            return Err(e);
        },
    };
    let counter_id = match read_u32(s, pos) {
        Ok(v) => v,
        Err(e) => {
            return Err(e);
        },
    };
    Ok(GameObject::new(allocated_id, counter_id))
}

/// Reads `n` consecutive game objects.
pub fn parse_game_objects(s: &Vec<u8>, pos: &mut usize, n: u16) -> (r: Result<
    Vec<GameObject>,
    DecodeError,
>)
    requires
        *old(pos) <= s@.len(),
    ensures
        *old(pos) <= *final(pos) <= s@.len(),
        match r {
            Ok(v) => *old(pos) + 8 * (n as int) <= s@.len() && v@ == gobjs(
                s@,
                *old(pos) as int,
                n as int,
            ) && *final(pos) == *old(pos) + 8 * (n as int),
            Err(e) => e == DecodeError::ShortRead && *old(pos) + 8 * (n as int) > s@.len(),
        },
{
    if s.len() - *pos < 8 * (n as usize) {
        return Err(DecodeError::ShortRead);
    }
    let ghost p0 = *old(pos) as int;
    let mut targets: Vec<GameObject> = Vec::new();
    let mut i: usize = 0;
    while i < n as usize
        invariant
            0 <= i <= n as usize,
            *pos == p0 + 8 * i,
            p0 + 8 * (n as int) <= s@.len(),
            targets@ =~= gobjs(s@, p0, i as int),
        decreases n as usize - i,
    {
        let g = match parse_game_object(s, pos) {
            Ok(g) => g,
            Err(e) => {
                proof {
                    assert(false);
                }
                return Err(e);
            },
        };
        targets.push(g);
        i = i + 1;
        proof {
            assert(targets@ =~= gobjs(s@, p0, i as int));
        }
    }
    proof {
        assert(targets@ =~= gobjs(s@, p0, n as int));
    }
    Ok(targets)
}

/// Reads the file/group/key triple of a trigger-sync action.
pub fn parse_fgk(s: &Vec<u8>, pos: &mut usize) -> (r: Result<
    (Vec<u8>, Vec<u8>, Vec<u8>),
    DecodeError,
>)
    requires
        *old(pos) <= s@.len(),
    ensures
        *old(pos) <= *final(pos) <= s@.len(),
        match r {
            Ok(v) => sp_fgk(s@, *old(pos) as int) == Ok::<((Seq<u8>, Seq<u8>, Seq<u8>), int), DecodeError>(
                ((v.0@, v.1@, v.2@), *final(pos) as int),
            ),
            Err(e) => sp_fgk(s@, *old(pos) as int) == Err::<((Seq<u8>, Seq<u8>, Seq<u8>), int), DecodeError>(
                e,
            ),
        },
{
    let file = match read_zstr(s, pos) {
        Ok(v) => v,
        Err(e) => {
            return Err(e);
        },
    };
    let group = match read_zstr(s, pos) {
        Ok(v) => v,
        Err(e) => {
            return Err(e);
        },
    };
    let key = match read_zstr(s, pos) {
        Ok(v) => v,
        Err(e) => {
            return Err(e);
        },
    };
    Ok((file, group, key))
}

} // verus!

verus! {

/// Reads the synchronised-unit payload that follows its action tag.
#[verifier::spinoff_prover]
#[verifier::rlimit(100)]
pub fn parse_sync_stored_unit(s: &Vec<u8>, pos: &mut usize) -> (r: Result<Action, DecodeError>)
    requires
        *old(pos) <= s@.len(),
    ensures
        *old(pos) <= *final(pos) <= s@.len(),
        match r {
            Ok(a) => sp_sync_stored_unit(s@, *old(pos) as int) == Ok::<(ActionV, int), DecodeError>(
                (a@, *final(pos) as int),
            ),
            Err(e) => sp_sync_stored_unit(s@, *old(pos) as int) == Err::<(ActionV, int), DecodeError>(
                e,
            ),
        },
{
    broadcast use vstd::std_specs::control_flow::group_control_flow_axioms;

    let (file, group, key) = parse_fgk(s, pos)?;
    let ghost p3 = *pos as int;
    let unit_type = read_u32(s, pos)?;
    let icount = read_u32(s, pos)?;
    let ghost p5 = *pos as int;
    if ((s.len() - *pos) as u64) < (icount as u64) * 12 + 52 {
        return Err(DecodeError::ShortRead);
    }
    let mut inventory: Vec<UnitInventory> = Vec::new();
    let mut i: usize = 0;
    while i < icount as usize
        invariant
            0 <= i <= icount as usize,
            *pos == p5 + 12 * i,
            p5 + 12 * (icount as int) + 52 <= s@.len(),
            inventory@ =~= Seq::new(
                i as nat,
                |j: int| UnitInventory {
                    item: le32(s@, p5 + 12 * j),
                    charges: le32(s@, p5 + 12 * j + 4),
                    unknown: le32(s@, p5 + 12 * j + 8),
                },
            ),
        decreases icount as usize - i,
    {
        let item = read_u32(s, pos)?;
        let charges = read_u32(s, pos)?;
        let unknown = read_u32(s, pos)?;
        inventory.push(UnitInventory::new(item, charges, unknown));
        i = i + 1;
        proof {
            assert(inventory@ =~= Seq::new(
                i as nat,
                |j: int| UnitInventory {
                    item: le32(s@, p5 + 12 * j),
                    charges: le32(s@, p5 + 12 * j + 4),
                    unknown: le32(s@, p5 + 12 * j + 8),
                },
            ));
        }
    }
    let ghost p6 = *pos as int;
    let experience = read_u32(s, pos)?;
    let level_ups = read_u32(s, pos)?;
    let skill_points = read_u32(s, pos)?;
    let proper_name_index = read_u16(s, pos)?;
    let unknown1 = read_u16(s, pos)?;
    let base_strength = read_u32(s, pos)?;
    let bonus_strength_per_level = read_f32(s, pos)?;
    let base_agility = read_u32(s, pos)?;
    let bonus_move_speed = read_f32(s, pos)?;
    let bonus_attack_speed = read_f32(s, pos)?;
    let bonus_agility_per_level = read_f32(s, pos)?;
    let base_intelligence = read_u32(s, pos)?;
    let bonus_intelligence_per_level = read_f32(s, pos)?;
    let acount = read_u32(s, pos)?;
    let ghost p8 = *pos as int;
    if ((s.len() - *pos) as u64) < (acount as u64) * 8 + 30 {
        return Err(DecodeError::ShortRead);
    }
    let mut abilities: Vec<UnitAbility> = Vec::new();
    let mut k: usize = 0;
    while k < acount as usize
        invariant
            0 <= k <= acount as usize,
            *pos == p8 + 8 * k,
            p8 + 8 * (acount as int) + 30 <= s@.len(),
            abilities@ =~= Seq::new(
                k as nat,
                |j: int| UnitAbility {
                    ability: le32(s@, p8 + 8 * j),
                    level: le32(s@, p8 + 8 * j + 4),
                },
            ),
        decreases acount as usize - k,
    {
        let ability = read_u32(s, pos)?;
        let level = read_u32(s, pos)?;
        abilities.push(UnitAbility::new(ability, level));
        k = k + 1;
        proof {
            assert(abilities@ =~= Seq::new(
                k as nat,
                |j: int| UnitAbility {
                    ability: le32(s@, p8 + 8 * j),
                    level: le32(s@, p8 + 8 * j + 4),
                },
            ));
        }
    }
    let bonus_health = read_f32(s, pos)?;
    let bonus_mana = read_f32(s, pos)?;
    let sight_radius_day = read_f32(s, pos)?;
    let unknown2 = read_u32(s, pos)?;
    let unknown3 = read_u32(s, pos)?;
    let unknown4 = read_u32(s, pos)?;
    let unknown5 = read_u32(s, pos)?;
    let hotkey_flags = read_u16(s, pos)?;
    Ok(Action::SyncStoredUnit {
        file,
        group,
        key,
        unit_type,
        inventory,
        experience,
        level_ups,
        skill_points,
        proper_name_index,
        unknown1,
        base_strength,
        bonus_strength_per_level,
        base_agility,
        bonus_move_speed,
        bonus_attack_speed,
        bonus_agility_per_level,
        base_intelligence,
        bonus_intelligence_per_level,
        abilities,
        bonus_health,
        bonus_mana,
        sight_radius_day,
        unknown2,
        unknown3,
        unknown4,
        unknown5,
        hotkey_flags,
    })
}

} // verus!

verus! {

/// Reads one action, starting at its tag byte.
#[verifier::spinoff_prover]
#[verifier::rlimit(100)]
pub fn parse_action(s: &Vec<u8>, pos: &mut usize) -> (r: Result<Action, DecodeError>)
    requires
        *old(pos) <= s@.len(),
    ensures
        *old(pos) <= *final(pos) <= s@.len(),
        match r {
            Ok(a) => sp_action(s@, *old(pos) as int) == Ok::<(ActionV, int), DecodeError>(
                (a@, *final(pos) as int),
            ) && *final(pos) > *old(pos),
            Err(e) => sp_action(s@, *old(pos) as int) == Err::<(ActionV, int), DecodeError>(e),
        },
{
    broadcast use vstd::std_specs::control_flow::group_control_flow_axioms;

    let tag = read_u8(s, pos)?;
    match tag {
        0x01 => Ok(Action::PauseGame {}),
        0x02 => Ok(Action::ResumeGame {}),
        0x03 => {
            let b = read_u8(s, pos)?;
            let speed = GameSpeed::from_u8(b)?;
            Ok(Action::SetGameSpeed { speed })
        },
        0x04 => Ok(Action::IncreaseGameSpeed {}),
        0x05 => Ok(Action::DecreaseGameSpeed {}),
        0x06 => {
            let game_name = read_zstr(s, pos)?;
            Ok(Action::SaveGame { game_name })
        },
        0x07 => {
            let unknown = read_u32(s, pos)?;
            Ok(Action::SaveGameFinish { unknown })
        },
        0x10 => {
            let w = read_u16(s, pos)?;
            let order_id = read_u32(s, pos)?;
            let unknown = parse_game_object(s, pos)?;
            Ok(Action::SelfOrder { flags: OrderType::from_u16(w), order_id, unknown })
        },
        0x11 => {
            let w = read_u16(s, pos)?;
            let order_id = read_u32(s, pos)?;
            let unknown = parse_game_object(s, pos)?;
            let x = read_f32(s, pos)?;
            let y = read_f32(s, pos)?;
            Ok(Action::PointOrder { flags: OrderType::from_u16(w), order_id, unknown, x, y })
        },
        0x12 => {
            let w = read_u16(s, pos)?;
            let order_id = read_u32(s, pos)?;
            let unknown = parse_game_object(s, pos)?;
            let x = read_f32(s, pos)?;
            let y = read_f32(s, pos)?;
            let target = parse_game_object(s, pos)?;
            Ok(Action::ObjectOrder {
                flags: OrderType::from_u16(w),
                order_id,
                unknown,
                x,
                y,
                target,
            })
        },
        0x13 => {
            let w = read_u16(s, pos)?;
            let order_id = read_u32(s, pos)?;
            let unknown = parse_game_object(s, pos)?;
            let x = read_f32(s, pos)?;
            let y = read_f32(s, pos)?;
            let receiver = parse_game_object(s, pos)?;
            let item = parse_game_object(s, pos)?;
            Ok(Action::DropOrGiveItem {
                flags: OrderType::from_u16(w),
                order_id,
                unknown,
                x,
                y,
                receiver,
                item,
            })
        },
        0x14 => {
            let w = read_u16(s, pos)?;
            let order_id = read_u32(s, pos)?;
            let unknown = parse_game_object(s, pos)?;
            let x = read_f32(s, pos)?;
            let y = read_f32(s, pos)?;
            let target_type = read_u32(s, pos)?;
            let target_flags = read_u64(s, pos)?;
            let target_owner = read_u8(s, pos)?;
            let target_x = read_f32(s, pos)?;
            let target_y = read_f32(s, pos)?;
            Ok(Action::FogObjectOrder {
                flags: OrderType::from_u16(w),
                order_id,
                unknown,
                x,
                y,
                target_type,
                target_flags,
                target_owner,
                target_x,
                target_y,
            })
        },
        0x16 => {
            let mode = read_u8(s, pos)?;
            let select_mode = SelectionOperation::from_u8(mode)?;
            let n = read_u16(s, pos)?;
            let targets = parse_game_objects(s, pos, n)?;
            Ok(Action::ChangeSelection { select_mode, targets })
        },
        0x17 => {
            let group_number = read_u8(s, pos)?;
            let n = read_u16(s, pos)?;
            let targets = parse_game_objects(s, pos, n)?;
            Ok(Action::AssignGroup { group_number, targets })
        },
        0x18 => {
            let group_number = read_u8(s, pos)?;
            let unknown = read_u8(s, pos)?;
            Ok(Action::SelectGroup { group_number, unknown })
        },
        0x19 => {
            let item_id = read_u32(s, pos)?;
            let target = parse_game_object(s, pos)?;
            Ok(Action::SelectSubGroup { item_id, target })
        },
        0x1A => Ok(Action::PreSubSelection {}),
        0x1B => {
            let op = read_u8(s, pos)?;
            let operation = SelectionOperation::from_u8(op)?;
            let target = parse_game_object(s, pos)?;
            Ok(Action::TriggerSelectionEvent { operation, target })
        },
        0x1C => {
            let flags = read_u8(s, pos)?;
            let target = parse_game_object(s, pos)?;
            Ok(Action::SelectGroundItem { flags, target })
        },
        0x1D => {
            let target = parse_game_object(s, pos)?;
            Ok(Action::CancelHeroRevival { target })
        },
        0x1E => {
            let slot_index = read_u8(s, pos)?;
            let unit_id = read_u32(s, pos)?;
            Ok(Action::CancelUnitInQueue { slot_index, unit_id })
        },
        0x20 => Ok(Action::CheatTheDudeAbides {}),
        0x21 => {
            let unknown_a = read_u32(s, pos)?;
            let unknown_b = read_u32(s, pos)?;
            Ok(Action::Unknown21 { unknown_a, unknown_b })
        },
        0x22 => Ok(Action::CheatSomebodySetUpUsTheBomb {}),
        0x23 => Ok(Action::CheatWarpTen {}),
        0x24 => Ok(Action::CheatIocainePowder {}),
        0x25 => Ok(Action::CheatPointBreak {}),
        0x26 => Ok(Action::CheatWhosYourDaddy {}),
        0x27 => {
            let unknown = read_u8(s, pos)?;
            let gold = read_i32(s, pos)?;
            Ok(Action::CheatKeyserSoze { unknown, gold })
        },
        0x28 => {
            let unknown = read_u8(s, pos)?;
            let lumber = read_i32(s, pos)?;
            Ok(Action::CheatLeafItToMe { unknown, lumber })
        },
        0x29 => Ok(Action::CheatThereIsNoSpoon {}),
        0x2A => Ok(Action::CheatStrengthAndHonor {}),
        0x2B => Ok(Action::CheatItVexesMe {}),
        0x2C => Ok(Action::CheatWhoIsJohnGalt {}),
        0x2D => {
            let unknown = read_u8(s, pos)?;
            let resources = read_i32(s, pos)?;
            Ok(Action::CheatGreedIsGood { unknown, resources })
        },
        0x2E => {
            let time = read_f32(s, pos)?;
            Ok(Action::CheatDaylightSavings { time })
        },
        0x2F => Ok(Action::CheatISeeDeadPeople {}),
        0x30 => Ok(Action::CheatSynergy {}),
        0x31 => Ok(Action::CheatSharpAndShiny {}),
        0x32 => Ok(Action::CheatAllYourBaseAreBelongToUs {}),
        0x50 => {
            let player_id = read_u8(s, pos)?;
            let w = read_u32(s, pos)?;
            Ok(Action::ChangeAlly { player_id, flags: AllianceType::from_u32(w) })
        },
        0x51 => {
            let player_id = read_u8(s, pos)?;
            let gold_transfered = read_i32(s, pos)?;
            let lumber_transfered = read_i32(s, pos)?;
            Ok(Action::TransferResources { player_id, gold_transfered, lumber_transfered })
        },
        0x60 => {
            let event = parse_game_object(s, pos)?;
            let message = read_zstr(s, pos)?;
            Ok(Action::MapTriggerChat { event, message })
        },
        0x61 => Ok(Action::Esc {}),
        0x62 => {
            let thread = parse_game_object(s, pos)?;
            let wait_count = read_u32(s, pos)?;
            Ok(Action::TriggerSleepOrSyncFinished { thread, wait_count })
        },
        0x63 => {
            let thread = parse_game_object(s, pos)?;
            Ok(Action::TriggerSyncReady { thread })
        },
        0x64 => {
            let trackable = parse_game_object(s, pos)?;
            Ok(Action::TriggerMouseClickedTrackable { trackable })
        },
        0x65 => {
            let trackable = parse_game_object(s, pos)?;
            Ok(Action::TriggerMouseTouchedTrackable { trackable })
        },
        0x66 => Ok(Action::EnterHeroSkillSubMenu {}),
        0x67 => Ok(Action::EnterBuildingSubMenu {}),
        0x68 => {
            let location_x = read_f32(s, pos)?;
            let location_y = read_f32(s, pos)?;
            let duration = read_f32(s, pos)?;
            Ok(Action::MiniMapSignal { location_x, location_y, duration })
        },
        0x69 => {
            let dialog = parse_game_object(s, pos)?;
            let button = parse_game_object(s, pos)?;
            Ok(Action::DialogButtonClicked { dialog, button })
        },
        0x6A => {
            let button = parse_game_object(s, pos)?;
            let dialog = parse_game_object(s, pos)?;
            Ok(Action::DialogAnyButtonClicked { button, dialog })
        },
        0x6B => {
            let (file, group, key) = parse_fgk(s, pos)?;
            let value = read_i32(s, pos)?;
            Ok(Action::SyncStoredInteger { file, group, key, value })
        },
        0x6C => {
            let (file, group, key) = parse_fgk(s, pos)?;
            let value = read_f32(s, pos)?;
            Ok(Action::SyncStoredFloat { file, group, key, value })
        },
        0x6D => {
            let (file, group, key) = parse_fgk(s, pos)?;
            let value = read_u32(s, pos)?;
            Ok(Action::SyncStoredBoolean { file, group, key, value })
        },
        0x6E => parse_sync_stored_unit(s, pos),
        0x6F => {
            let (file, group, key) = parse_fgk(s, pos)?;
            let value = read_zstr(s, pos)?;
            Ok(Action::SyncStoredString { file, group, key, value })
        },
        0x70 => {
            let (file, group, key) = parse_fgk(s, pos)?;
            Ok(Action::SyncEmptyInteger { file, group, key })
        },
        0x71 => {
            let (file, group, key) = parse_fgk(s, pos)?;
            Ok(Action::SyncEmptyString { file, group, key })
        },
        0x72 => {
            let (file, group, key) = parse_fgk(s, pos)?;
            Ok(Action::SyncEmptyBoolean { file, group, key })
        },
        0x73 => {
            let (file, group, key) = parse_fgk(s, pos)?;
            Ok(Action::SyncEmptyUnit { file, group, key })
        },
        0x74 => {
            let (file, group, key) = parse_fgk(s, pos)?;
            Ok(Action::SyncEmptyFloat { file, group, key })
        },
        0x75 => {
            let b = read_u8(s, pos)?;
            let key = ArrowKeyEvent::from_u8(b)?;
            Ok(Action::TriggerArrow { key })
        },
        _ => Err(DecodeError::UnknownActionTag),
    }
}

} // verus!

verus! {

/// Reads the actions of one command: exactly `total` wire bytes.
#[verifier::spinoff_prover]
pub fn extract_actions(s: &Vec<u8>, pos: &mut usize, total: usize) -> (r: Result<
    Vec<Action>,
    DecodeError,
>)
    requires
        *old(pos) <= s@.len(),
    ensures
        *old(pos) <= *final(pos) <= s@.len(),
        match r {
            Ok(v) => sp_actions(s@, *old(pos) as int, total as int) == Ok::<(Seq<ActionV>, int), DecodeError>(
                (v@.map_values(|a: Action| a@), *final(pos) as int),
            ) && *final(pos) == *old(pos) + total,
            Err(e) => sp_actions(s@, *old(pos) as int, total as int) == Err::<(Seq<ActionV>, int), DecodeError>(
                e,
            ),
        },
{
    let start: usize = *pos;
    let mut actions: Vec<Action> = Vec::new();
    while *pos - start < total
        invariant
            start == *old(pos),
            start <= *pos <= s@.len(),
            *pos - start <= total,
            sp_actions(s@, start as int, total as int) == (match sp_actions(
                s@,
                *pos as int,
                total - (*pos - start),
            ) {
                Ok((rest, r)) => Ok::<(Seq<ActionV>, int), DecodeError>(
                    (actions@.map_values(|a: Action| a@) + rest, r),
                ),
                Err(e) => Err::<(Seq<ActionV>, int), DecodeError>(e),
            }),
        decreases total - (*pos - start),
    {
        let ghost pos_before = *pos as int;
        let ghost rem_before = total - (*pos - start) as int;
        let a = match parse_action(s, pos) {
            Ok(a) => a,
            Err(e) => {
                return Err(e);
            },
        };
        if *pos - start > total {
            return Err(DecodeError::LengthMismatch);
        }
        proof {
            let f = |x: Action| x@;
            let prev = actions@.map_values(f);
            let next = sp_actions(s@, *pos as int, total - (*pos - start));
            if next is Ok {
                let (rest, r) = next->Ok_0;
                assert(prev + (seq![a@] + rest) =~= (prev.push(a@)) + rest);
                assert((actions@.push(a)).map_values(f) =~= prev.push(a@));
            }
        }
        actions.push(a);
    }
    proof {
        let f = |x: Action| x@;
        assert(actions@.map_values(f) + Seq::<ActionV>::empty() =~= actions@.map_values(f));
    }
    Ok(actions)
}

/// Reads the commands of one tick: exactly `total` wire bytes.
#[verifier::spinoff_prover]
pub fn extract_commands(s: &Vec<u8>, pos: &mut usize, total: usize) -> (r: Result<
    Vec<Command>,
    DecodeError,
>)
    requires
        *old(pos) <= s@.len(),
    ensures
        *old(pos) <= *final(pos) <= s@.len(),
        match r {
            Ok(v) => sp_commands(s@, *old(pos) as int, total as int) == Ok::<(Seq<CommandV>, int), DecodeError>(
                (v@.map_values(|c: Command| c@), *final(pos) as int),
            ) && *final(pos) == *old(pos) + total,
            Err(e) => sp_commands(s@, *old(pos) as int, total as int) == Err::<(Seq<CommandV>, int), DecodeError>(
                e,
            ),
        },
{
    broadcast use vstd::std_specs::control_flow::group_control_flow_axioms;

    let start: usize = *pos;
    let mut commands: Vec<Command> = Vec::new();
    while *pos - start < total
        invariant
            start == *old(pos),
            start <= *pos <= s@.len(),
            *pos - start <= total,
            sp_commands(s@, start as int, total as int) == (match sp_commands(
                s@,
                *pos as int,
                total - (*pos - start),
            ) {
                Ok((rest, r)) => Ok::<(Seq<CommandV>, int), DecodeError>(
                    (commands@.map_values(|c: Command| c@) + rest, r),
                ),
                Err(e) => Err::<(Seq<CommandV>, int), DecodeError>(e),
            }),
        decreases total - (*pos - start),
    {
        let player_id = read_u8(s, pos)?;
        let num_bytes = read_u16(s, pos)?;
        let actions = match extract_actions(s, pos, num_bytes as usize) {
            Ok(v) => v,
            Err(e) => {
                return Err(e);
            },
        };
        let c = Command { player_id, num_bytes, actions };
        if *pos - start > total {
            return Err(DecodeError::LengthMismatch);
        }
        proof {
            let f = |x: Command| x@;
            let prev = commands@.map_values(f);
            let next = sp_commands(s@, *pos as int, total - (*pos - start));
            if next is Ok {
                let (rest, r) = next->Ok_0;
                assert(prev + (seq![c@] + rest) =~= (prev.push(c@)) + rest);
                assert((commands@.push(c)).map_values(f) =~= prev.push(c@));
            }
        }
        commands.push(c);
    }
    proof {
        let f = |x: Command| x@;
        assert(commands@.map_values(f) + Seq::<CommandV>::empty() =~= commands@.map_values(f));
    }
    Ok(commands)
}

} // verus!

verus! {

/// Reads one replay block, starting at its tag byte; the caller has seen
/// that the tag is not the zero terminator.
#[verifier::spinoff_prover]
#[verifier::rlimit(100)]
pub fn parse_block(s: &Vec<u8>, pos: &mut usize) -> (r: Result<ReplayBlock, DecodeError>)
    requires
        *old(pos) <= s@.len(),
    ensures
        *old(pos) <= *final(pos) <= s@.len(),
        match r {
            Ok(b) => sp_block(s@, *old(pos) as int) == Ok::<(ReplayBlockV, int), DecodeError>(
                (b@, *final(pos) as int),
            ) && *final(pos) > *old(pos),
            Err(e) => sp_block(s@, *old(pos) as int) == Err::<(ReplayBlockV, int), DecodeError>(e),
        },
{
    broadcast use vstd::std_specs::control_flow::group_control_flow_axioms;

    let tag = read_u8(s, pos)?;
    match tag {
        0x17 => {
            let reason = read_u32(s, pos)?;
            let player_id = read_u8(s, pos)?;
            let result = read_u32(s, pos)?;
            let session_leave_count = read_u32(s, pos)?;
            Ok(ReplayBlock::LeaveGame { reason, player_id, result, session_leave_count })
        },
        0x1A => {
            let unknown = read_u32(s, pos)?;
            Ok(ReplayBlock::LoadStarted1 { unknown })
        },
        0x1B => {
            let unknown = read_u32(s, pos)?;
            Ok(ReplayBlock::LoadStarted2 { unknown })
        },
        0x1C => {
            let unknown = read_u32(s, pos)?;
            Ok(ReplayBlock::GameStarted { unknown })
        },
        0x1E => {
            let num_bytes = read_u16(s, pos)?;
            let time_increment = read_u16(s, pos)?;
            if num_bytes < 2 {
                return Err(DecodeError::LengthMismatch);
            }
            let commands = extract_commands(s, pos, (num_bytes - 2) as usize)?;
            Ok(ReplayBlock::TickPreOverflow { num_bytes, time_increment, commands })
        },
        0x1F => {
            let num_bytes = read_u16(s, pos)?;
            let time_increment = read_u16(s, pos)?;
            if num_bytes < 2 {
                return Err(DecodeError::LengthMismatch);
            }
            let commands = extract_commands(s, pos, (num_bytes - 2) as usize)?;
            Ok(ReplayBlock::Tick { num_bytes, time_increment, commands })
        },
        0x20 => {
            let player_id = read_u8(s, pos)?;
            let num_bytes = read_u16(s, pos)?;
            let flags = read_u8(s, pos)?;
            let chat_mode = read_u32(s, pos)?;
            if num_bytes < 6 {
                return Err(DecodeError::LengthMismatch);
            }
            let message = read_bytes(s, pos, (num_bytes - 6) as usize)?;
            if !check_utf8(&message, 0, message.len()) {
                proof {
                    assert(message@.subrange(0, message@.len() as int) =~= message@);
                }
                return Err(DecodeError::InvalidUtf8);
            }
            proof {
                assert(message@.subrange(0, message@.len() as int) =~= message@);
            }
            let ending_byte = read_u8(s, pos)?;
            if ending_byte != 0 {
                return Err(DecodeError::MissingTerminator);
            }
            Ok(ReplayBlock::PlayerChat { player_id, num_bytes, flags, chat_mode, message })
        },
        0x22 => {
            let num_bytes = read_u8(s, pos)?;
            let unknown = read_u32(s, pos)?;
            Ok(ReplayBlock::RandomSeed { num_bytes, unknown })
        },
        0x23 => {
            let tick_count = read_u32(s, pos)?;
            let checksum = read_u32(s, pos)?;
            let remaining_players = read_u8(s, pos)?;
            Ok(ReplayBlock::Desync { tick_count, checksum, remaining_players })
        },
        0x2F => {
            let mode = read_u32(s, pos)?;
            let time = read_u32(s, pos)?;
            Ok(ReplayBlock::ForceGameEndCountdown { mode, time })
        },
        _ => Err(DecodeError::UnknownBlockTag),
    }
}

/// Reads the replay block list up to and including the zero terminator
/// tag.
#[verifier::spinoff_prover]
pub fn extract_blocks(s: &Vec<u8>, pos: &mut usize) -> (r: Result<Vec<ReplayBlock>, DecodeError>)
    requires
        *old(pos) <= s@.len(),
    ensures
        *old(pos) <= *final(pos) <= s@.len(),
        match r {
            Ok(v) => sp_blocks(s@, *old(pos) as int) == Ok::<(Seq<ReplayBlockV>, int), DecodeError>(
                (v@.map_values(|b: ReplayBlock| b@), *final(pos) as int),
            ),
            Err(e) => sp_blocks(s@, *old(pos) as int) == Err::<(Seq<ReplayBlockV>, int), DecodeError>(
                e,
            ),
        },
{
    let ghost start = *old(pos) as int;
    let mut blocks: Vec<ReplayBlock> = Vec::new();
    loop
        invariant
            start == *old(pos) as int,
            start <= *pos <= s@.len(),
            sp_blocks(s@, start) == (match sp_blocks(s@, *pos as int) {
                Ok((rest, r)) => Ok::<(Seq<ReplayBlockV>, int), DecodeError>(
                    (blocks@.map_values(|b: ReplayBlock| b@) + rest, r),
                ),
                Err(e) => Err::<(Seq<ReplayBlockV>, int), DecodeError>(e),
            }),
        decreases s@.len() - *pos,
    {
        if *pos >= s.len() {
            return Err(DecodeError::ShortRead);
        }
        if s[*pos] == 0 {
            *pos = *pos + 1;
            proof {
                let f = |b: ReplayBlock| b@;
                assert(blocks@.map_values(f) + Seq::<ReplayBlockV>::empty() =~= blocks@.map_values(
                    f,
                ));
            }
            return Ok(blocks);
        }
        let b = match parse_block(s, pos) {
            Ok(b) => b,
            Err(e) => {
                return Err(e);
            },
        };
        proof {
            let f = |x: ReplayBlock| x@;
            let prev = blocks@.map_values(f);
            let next = sp_blocks(s@, *pos as int);
            if next is Ok {
                let (rest, r) = next->Ok_0;
                assert(prev + (seq![b@] + rest) =~= (prev.push(b@)) + rest);
                assert((blocks@.push(b)).map_values(f) =~= prev.push(b@));
            }
        }
        blocks.push(b);
    }
}

/// Reads one player record. When the leading record-id byte was already
/// consumed by the caller, it is handed in; otherwise it is read here.
pub fn extract_player_record(s: &Vec<u8>, pos: &mut usize, record_id: Option<u8>) -> (r: Result<
    PlayerRecord,
    DecodeError,
>)
    requires
        *old(pos) <= s@.len(),
    ensures
        *old(pos) <= *final(pos) <= s@.len(),
        ({
            let sp = match record_id {
                Some(rid) => sp_player_record_body(s@, *old(pos) as int, rid),
                None => sp_player_record(s@, *old(pos) as int),
            };
            match r {
                Ok(pr) => sp == Ok::<(PlayerRecordV, int), DecodeError>(
                    (pr@, *final(pos) as int),
                ),
                Err(e) => sp == Err::<(PlayerRecordV, int), DecodeError>(e),
            }
        }),
{
    broadcast use vstd::std_specs::control_flow::group_control_flow_axioms;

    let record_id = match record_id {
        Some(id) => id,
        None => read_u8(s, pos)?,
    };
    let player_id = read_u8(s, pos)?;
    let player_name = read_zstr(s, pos)?;
    let additional_data_size = read_u8(s, pos)?;
    let additional_data = read_bytes(s, pos, additional_data_size as usize)?;
    Ok(PlayerRecord { record_id, player_id, player_name, additional_data_size, additional_data })
}

/// Reads one nine-byte slot record.
pub fn extract_slot_record(s: &Vec<u8>, pos: &mut usize) -> (r: Result<SlotRecord, DecodeError>)
    requires
        *old(pos) <= s@.len(),
    ensures
        *old(pos) <= *final(pos) <= s@.len(),
        match r {
            Ok(sr) => *old(pos) + 9 <= s@.len() && sr == slot_of(s@, *old(pos) as int)
                && *final(pos) == *old(pos) + 9,
            Err(e) => e == DecodeError::ShortRead && *old(pos) + 9 > s@.len(),
        },
{
    broadcast use vstd::std_specs::control_flow::group_control_flow_axioms;

    let player_id = read_u8(s, pos)?;
    let download_percent = read_u8(s, pos)?;
    let slot_status = read_u8(s, pos)?;
    let player_flag = read_u8(s, pos)?;
    let team_number = read_u8(s, pos)?;
    let color = read_u8(s, pos)?;
    let race = read_u8(s, pos)?;
    let ai_strength = read_u8(s, pos)?;
    let handicap = read_u8(s, pos)?;
    Ok(SlotRecord {
        player_id,
        download_percent,
        slot_status,
        player_flag,
        team_number,
        color,
        race,
        ai_strength,
        handicap,
    })
}

/// Reads the game record; its record id is the tag byte that ended the
/// run of player records.
#[verifier::spinoff_prover]
pub fn extract_game_record(s: &Vec<u8>, pos: &mut usize, record_id: u8) -> (r: Result<
    GameRecord,
    DecodeError,
>)
    requires
        *old(pos) <= s@.len(),
    ensures
        *old(pos) <= *final(pos) <= s@.len(),
        match r {
            Ok(gr) => sp_game_record(s@, *old(pos) as int, record_id) == Ok::<(GameRecordV, int), DecodeError>(
                (gr@, *final(pos) as int),
            ),
            Err(e) => sp_game_record(s@, *old(pos) as int, record_id) == Err::<(GameRecordV, int), DecodeError>(
                e,
            ),
        },
{
    broadcast use vstd::std_specs::control_flow::group_control_flow_axioms;

    let num_data_bytes = read_u16(s, pos)?;
    let num_slot_records = read_u8(s, pos)?;
    let ghost base = *pos as int;
    if ((s.len() - *pos) as u64) < (num_slot_records as u64) * 9 + 6 {
        return Err(DecodeError::ShortRead);
    }
    let mut slot_records: Vec<SlotRecord> = Vec::new();
    let mut i: usize = 0;
    while i < num_slot_records as usize
        invariant
            0 <= i <= num_slot_records as usize,
            *pos == base + 9 * i,
            base + 9 * (num_slot_records as int) + 6 <= s@.len(),
            slot_records@ =~= Seq::new(i as nat, |j: int| slot_of(s@, base + 9 * j)),
        decreases num_slot_records as usize - i,
    {
        let sr = match extract_slot_record(s, pos) {
            Ok(sr) => sr,
            Err(e) => {
                proof {
                    assert(false);
                }
                return Err(e);
            },
        };
        slot_records.push(sr);
        i = i + 1;
        proof {
            assert(slot_records@ =~= Seq::new(i as nat, |j: int| slot_of(s@, base + 9 * j)));
        }
    }
    let random_seed = read_u32(s, pos)?;
    let select_mode = read_u8(s, pos)?;
    let start_spot_count = read_u8(s, pos)?;
    Ok(GameRecord {
        record_id,
        num_data_bytes,
        num_slot_records,
        slot_records,
        random_seed,
        select_mode,
        start_spot_count,
    })
}

/// Reads the run of `0x16`-framed player records, each followed by a
/// discarded 32-bit value. Returns the records and the tag byte that
/// ended the run.
#[verifier::spinoff_prover]
pub fn extract_player_list(s: &Vec<u8>, pos: &mut usize) -> (r: Result<
    (Vec<PlayerRecord>, u8),
    DecodeError,
>)
    requires
        *old(pos) <= s@.len(),
    ensures
        *old(pos) <= *final(pos) <= s@.len(),
        match r {
            Ok(v) => sp_player_list(s@, *old(pos) as int) == Ok::<(Seq<PlayerRecordV>, u8, int), DecodeError>(
                (v.0@.map_values(|p: PlayerRecord| p@), v.1, *final(pos) as int),
            ),
            Err(e) => sp_player_list(s@, *old(pos) as int) == Err::<(Seq<PlayerRecordV>, u8, int), DecodeError>(
                e,
            ),
        },
{
    let ghost start = *old(pos) as int;
    let mut players: Vec<PlayerRecord> = Vec::new();
    loop
        invariant
            start == *old(pos) as int,
            start <= *pos <= s@.len(),
            sp_player_list(s@, start) == (match sp_player_list(s@, *pos as int) {
                Ok((rest, tag, r)) => Ok::<(Seq<PlayerRecordV>, u8, int), DecodeError>(
                    (players@.map_values(|p: PlayerRecord| p@) + rest, tag, r),
                ),
                Err(e) => Err::<(Seq<PlayerRecordV>, u8, int), DecodeError>(e),
            }),
        decreases s@.len() - *pos,
    {
        if *pos >= s.len() {
            return Err(DecodeError::ShortRead);
        }
        let tag = s[*pos];
        if tag != 0x16 {
            *pos = *pos + 1;
            proof {
                let f = |x: PlayerRecord| x@;
                assert(players@.map_values(f) + Seq::<PlayerRecordV>::empty() =~= players@
                    .map_values(f));
            }
            return Ok((players, tag));
        }
        *pos = *pos + 1;
        let pr = match extract_player_record(s, pos, Some(0x16)) {
            Ok(pr) => pr,
            Err(e) => {
                return Err(e);
            },
        };
        let _ = match read_u32(s, pos) {
            Ok(v) => v,
            Err(e) => {
                return Err(e);
            },
        };
        proof {
            let f = |x: PlayerRecord| x@;
            let prev = players@.map_values(f);
            let next = sp_player_list(s@, *pos as int);
            if next is Ok {
                let (rest, tag2, r2) = next->Ok_0;
                assert(prev + (seq![pr@] + rest) =~= (prev.push(pr@)) + rest);
                assert((players@.push(pr)).map_values(f) =~= prev.push(pr@));
            }
        }
        players.push(pr);
    }
}

/// Reads the game header at the start of the decompressed stream.
#[verifier::spinoff_prover]
#[verifier::rlimit(100)]
pub fn extract_game_header(s: &Vec<u8>, pos: &mut usize) -> (r: Result<GameHeader, DecodeError>)
    requires
        *old(pos) <= s@.len(),
    ensures
        *old(pos) <= *final(pos) <= s@.len(),
        match r {
            Ok(gh) => sp_game_header(s@, *old(pos) as int) == Ok::<(GameHeaderV, int), DecodeError>(
                (gh@, *final(pos) as int),
            ),
            Err(e) => sp_game_header(s@, *old(pos) as int) == Err::<(GameHeaderV, int), DecodeError>(
                e,
            ),
        },
{
    broadcast use vstd::std_specs::control_flow::group_control_flow_axioms;

    let unknown = read_u32(s, pos)?;
    let replay_saver = extract_player_record(s, pos, None)?;
    let game_name = read_zstr(s, pos)?;
    let _null_byte = read_u8(s, pos)?;
    let encoded_string = read_estr(s, pos)?;
    let number_of_players = read_u32(s, pos)?;
    let game_type = read_u32(s, pos)?;
    let language_id = read_u32(s, pos)?;
    let (players, record_id) = extract_player_list(s, pos)?;
    let game_record = extract_game_record(s, pos, record_id)?;
    Ok(GameHeader {
        unknown,
        replay_saver,
        game_name,
        encoded_string,
        number_of_players,
        game_type,
        language_id,
        players,
        game_record,
    })
}

} // verus!

verus! {

/// Decompresses every compressed block from `start` to the end of the
/// file and concatenates the results.
#[verifier::spinoff_prover]
pub fn decompress_stream(s: &Vec<u8>, start: usize) -> (r: Result<Vec<u8>, DecodeError>)
    requires
        start <= s@.len(),
    ensures
        match r {
            Ok(v) => sp_stream(s@, start as int) == Ok::<Seq<u8>, DecodeError>(v@),
            Err(e) => sp_stream(s@, start as int) == Err::<Seq<u8>, DecodeError>(e),
        },
{
    broadcast use vstd::std_specs::control_flow::group_control_flow_axioms;

    let mut out: Vec<u8> = Vec::new();
    let mut p: usize = start;
    while p < s.len()
        invariant
            start <= p <= s@.len(),
            sp_stream(s@, start as int) == (match sp_stream(s@, p as int) {
                Ok(rest) => Ok::<Seq<u8>, DecodeError>(out@ + rest),
                Err(e) => Err::<Seq<u8>, DecodeError>(e),
            }),
        decreases s@.len() - p,
    {
        let csize = read_u16(s, &mut p)?;
        let _dsize = read_u16(s, &mut p)?;
        let _crc = read_u32(s, &mut p)?;
        let payload = read_bytes(s, &mut p, csize as usize)?;
        let mut chunk = match crate::flate::zlib_inflate(&payload) {
            Some(v) => v,
            None => {
                return Err(DecodeError::Decompress);
            },
        };
        proof {
            let next = sp_stream(s@, p as int);
            if next is Ok {
                let rest = next->Ok_0;
                assert(out@ + (chunk@ + rest) =~= (out@ + chunk@) + rest);
            }
        }
        out.append(&mut chunk);
    }
    proof {
        assert(out@ + Seq::<u8>::empty() =~= out@);
    }
    Ok(out)
}

/// Reads the whole logical content of the decompressed stream: the game
/// header, then the replay blocks up to the zero terminator tag. Bytes
/// after the terminator are padding and carry no content.
pub fn parse_replay_data(stream: &Vec<u8>) -> (r: Result<
    (GameHeader, Vec<ReplayBlock>),
    DecodeError,
>)
    ensures
        match r {
            Ok(v) => sp_game_data(stream@) == Ok::<(GameHeaderV, Seq<ReplayBlockV>), DecodeError>(
                (v.0@, v.1@.map_values(|b: ReplayBlock| b@)),
            ),
            Err(e) => sp_game_data(stream@) == Err::<(GameHeaderV, Seq<ReplayBlockV>), DecodeError>(
                e,
            ),
        },
{
    broadcast use vstd::std_specs::control_flow::group_control_flow_axioms;

    let mut pos: usize = 0;
    let game_header = extract_game_header(stream, &mut pos)?;
    let replay_blocks = extract_blocks(stream, &mut pos)?;
    Ok((game_header, replay_blocks))
}

/// Decodes a whole replay file.
///
/// The result is exactly what [`sp_replay`] assigns to the bytes:
/// success if and only if the specification parses, the same replay on
/// success, and the same error — structural, UTF-8, or decompression —
/// on failure.
#[verifier::spinoff_prover]
pub fn parse_replay(raw: &Vec<u8>) -> (r: Result<Replay, DecodeError>)
    ensures
        match r {
            Ok(rep) => sp_replay(raw@) == Ok::<ReplayV, DecodeError>(rep@),
            Err(e) => sp_replay(raw@) == Err::<ReplayV, DecodeError>(e),
        },
{
    broadcast use vstd::std_specs::control_flow::group_control_flow_axioms;

    let mut pos: usize = 0;
    let magic_string = read_bytes(raw, &mut pos, 28)?;
    if !check_utf8(&magic_string, 0, magic_string.len()) {
        proof {
            assert(magic_string@.subrange(0, magic_string@.len() as int) =~= magic_string@);
        }
        return Err(DecodeError::InvalidUtf8);
    }
    proof {
        assert(magic_string@.subrange(0, magic_string@.len() as int) =~= magic_string@);
    }
    let file_offset = read_u32(raw, &mut pos)?;
    let compressed_size = read_u32(raw, &mut pos)?;
    let header_version = read_u32(raw, &mut pos)?;
    let decompressed_size = read_u32(raw, &mut pos)?;
    let number_of_compressed_blocks = read_u32(raw, &mut pos)?;
    let version_string = read_bytes(raw, &mut pos, 4)?;
    if !check_utf8(&version_string, 0, version_string.len()) {
        proof {
            assert(version_string@.subrange(0, version_string@.len() as int) =~= version_string@);
        }
        return Err(DecodeError::InvalidUtf8);
    }
    proof {
        assert(version_string@.subrange(0, version_string@.len() as int) =~= version_string@);
    }
    let version_number = read_u32(raw, &mut pos)?;
    let build_number = read_u16(raw, &mut pos)?;
    let flags = read_u16(raw, &mut pos)?;
    let duration = read_u32(raw, &mut pos)?;
    let crc32 = read_u32(raw, &mut pos)?;
    let stream = decompress_stream(raw, pos)?;
    let (game_header, replay_blocks) = parse_replay_data(&stream)?;
    Ok(Replay {
        magic_string,
        file_offset,
        compressed_size,
        header_version,
        decompressed_size,
        number_of_compressed_blocks,
        replay_header: ReplayHeader {
            version_string,
            version_number,
            build_number,
            flags,
            duration,
            crc32,
        },
        game_header,
        replay_blocks,
    })
}

} // verus!
