//! The replay abstract syntax tree: file header, replay header, game header,
//! player and slot records, replay blocks, commands and actions.
//!
//! Text fields hold the raw bytes from the wire (without the terminating
//! zero byte); the decoder checks that they are valid UTF-8. Floating-point
//! fields hold the untouched IEEE-754 bit pattern in a [`Float32`], so that
//! the tree is a pure value and byte-exact round trips are possible.
//!
//! Each type whose fields contain vectors has a mathematical view (`@`) in
//! which every vector is a sequence; scalar-only types stand for themselves
//! in specifications.

use vstd::prelude::*;

verus! {

/// A 32-bit IEEE-754 value, kept as its raw bit pattern.
#[derive(Debug, Clone, Copy, PartialEq, Eq, Structural)]
pub struct Float32 {
    pub bits: u32,
}

/// A pair of ids under which the game engine tracks an object.
#[derive(Debug, Clone, Copy, PartialEq, Eq, Structural)]
pub struct GameObject {
    pub allocated_id: u32,
    pub counter_id: u32,
}

impl GameObject {
    pub fn new(allocated_id: u32, counter_id: u32) -> (r: GameObject)
        ensures
            r == (GameObject { allocated_id, counter_id }),
    {
        GameObject { allocated_id, counter_id }
    }
}

/// One inventory slot of a synchronised unit.
#[derive(Debug, Clone, Copy, PartialEq, Eq, Structural)]
pub struct UnitInventory {
    pub item: u32,
    pub charges: u32,
    pub unknown: u32,
}

impl UnitInventory {
    pub fn new(item: u32, charges: u32, unknown: u32) -> (r: UnitInventory)
        ensures
            r == (UnitInventory { item, charges, unknown }),
    {
        UnitInventory { item, charges, unknown }
    }
}

/// One ability of a synchronised unit.
#[derive(Debug, Clone, Copy, PartialEq, Eq, Structural)]
pub struct UnitAbility {
    pub ability: u32,
    pub level: u32,
}

impl UnitAbility {
    pub fn new(ability: u32, level: u32) -> (r: UnitAbility)
        ensures
            r == (UnitAbility { ability, level }),
    {
        UnitAbility { ability, level }
    }
}

/// The speed setting a player selected.
#[derive(Debug, Clone, Copy, PartialEq, Eq, Structural)]
pub enum GameSpeed {
    Slow,
    Normal,
    Fast,
}

/// One modifier bit of an order. The wire carries these as a 16-bit set.
#[derive(Debug, Clone, Copy, PartialEq, Eq, Structural)]
pub enum OrderType {
    Queue,
    Train,
    Construct,
    Group,
    NoFormation,
    Summon,
    AutoCastOn,
}

/// Whether a selection event adds to or removes from the selection.
#[derive(Debug, Clone, Copy, PartialEq, Eq, Structural)]
pub enum SelectionOperation {
    Add,
    Remove,
}

/// One alliance setting. The wire carries these as a 32-bit set.
#[derive(Debug, Clone, Copy, PartialEq, Eq, Structural)]
pub enum AllianceType {
    Passive,
    HelpRequest,
    HelpResponse,
    SharedXP,
    SharedSpells,
    SharedVision,
    SharedControl,
    FullSharedControl,
    Rescuable,
    SharedVisionForced,
    AlliedVictory,
}

/// An arrow key going down or up.
#[derive(Debug, Clone, Copy, PartialEq, Eq, Structural)]
pub enum ArrowKeyEvent {
    PressedLeftArrow,
    ReleasedLeftArrow,
    PressedRightArrow,
    ReleasedRightArrow,
    PressedDownArrow,
    ReleasedDownArrow,
    PressedUpArrow,
    ReleasedUpArrow,
}

/// One slot of the game lobby: nine consecutive bytes on the wire.
#[derive(Debug, Clone, Copy, PartialEq, Eq, Structural)]
pub struct SlotRecord {
    pub player_id: u8,
    pub download_percent: u8,
    pub slot_status: u8,
    pub player_flag: u8,
    pub team_number: u8,
    pub color: u8,
    pub race: u8,
    pub ai_strength: u8,
    pub handicap: u8,
}

/// One player of the game: id, name and opaque additional data.
#[derive(Debug, Clone, PartialEq)]
pub struct PlayerRecord {
    pub record_id: u8,
    pub player_id: u8,
    pub player_name: Vec<u8>,
    pub additional_data_size: u8,
    pub additional_data: Vec<u8>,
}

/// Mathematical view of a [`PlayerRecord`].
pub struct PlayerRecordV {
    pub record_id: u8,
    pub player_id: u8,
    pub player_name: Seq<u8>,
    pub additional_data_size: u8,
    pub additional_data: Seq<u8>,
}

impl View for PlayerRecord {
    type V = PlayerRecordV;

    open spec fn view(&self) -> PlayerRecordV {
        PlayerRecordV {
            record_id: self.record_id,
            player_id: self.player_id,
            player_name: self.player_name@,
            additional_data_size: self.additional_data_size,
            additional_data: self.additional_data@,
        }
    }
}

/// The record that closes the player list: slots, seed and start spots.
#[derive(Debug, Clone, PartialEq)]
pub struct GameRecord {
    pub record_id: u8,
    pub num_data_bytes: u16,
    pub num_slot_records: u8,
    pub slot_records: Vec<SlotRecord>,
    pub random_seed: u32,
    pub select_mode: u8,
    pub start_spot_count: u8,
}

/// Mathematical view of a [`GameRecord`].
pub struct GameRecordV {
    pub record_id: u8,
    pub num_data_bytes: u16,
    pub num_slot_records: u8,
    pub slot_records: Seq<SlotRecord>,
    pub random_seed: u32,
    pub select_mode: u8,
    pub start_spot_count: u8,
}

impl View for GameRecord {
    type V = GameRecordV;

    open spec fn view(&self) -> GameRecordV {
        GameRecordV {
            record_id: self.record_id,
            num_data_bytes: self.num_data_bytes,
            num_slot_records: self.num_slot_records,
            slot_records: self.slot_records@,
            random_seed: self.random_seed,
            select_mode: self.select_mode,
            start_spot_count: self.start_spot_count,
        }
    }
}

/// The replay's game header: saver, game name, players and game record.
#[derive(Debug, Clone, PartialEq)]
pub struct GameHeader {
    pub unknown: u32,
    pub replay_saver: PlayerRecord,
    pub game_name: Vec<u8>,
    pub encoded_string: Vec<u8>,
    pub number_of_players: u32,
    pub game_type: u32,
    pub language_id: u32,
    pub players: Vec<PlayerRecord>,
    pub game_record: GameRecord,
}

/// Mathematical view of a [`GameHeader`].
pub struct GameHeaderV {
    pub unknown: u32,
    pub replay_saver: PlayerRecordV,
    pub game_name: Seq<u8>,
    pub encoded_string: Seq<u8>,
    pub number_of_players: u32,
    pub game_type: u32,
    pub language_id: u32,
    pub players: Seq<PlayerRecordV>,
    pub game_record: GameRecordV,
}

impl View for GameHeader {
    type V = GameHeaderV;

    open spec fn view(&self) -> GameHeaderV {
        GameHeaderV {
            unknown: self.unknown,
            replay_saver: self.replay_saver@,
            game_name: self.game_name@,
            encoded_string: self.encoded_string@,
            number_of_players: self.number_of_players,
            game_type: self.game_type,
            language_id: self.language_id,
            players: self.players@.map_values(|p: PlayerRecord| p@),
            game_record: self.game_record@,
        }
    }
}

/// The fixed-size header that follows the magic header: version and timing.
#[derive(Debug, Clone, PartialEq)]
pub struct ReplayHeader {
    pub version_string: Vec<u8>,
    pub version_number: u32,
    pub build_number: u16,
    pub flags: u16,
    /// Length of the match in milliseconds.
    pub duration: u32,
    pub crc32: u32,
}

/// Mathematical view of a [`ReplayHeader`].
pub struct ReplayHeaderV {
    pub version_string: Seq<u8>,
    pub version_number: u32,
    pub build_number: u16,
    pub flags: u16,
    pub duration: u32,
    pub crc32: u32,
}

impl View for ReplayHeader {
    type V = ReplayHeaderV;

    open spec fn view(&self) -> ReplayHeaderV {
        ReplayHeaderV {
            version_string: self.version_string@,
            version_number: self.version_number,
            build_number: self.build_number,
            flags: self.flags,
            duration: self.duration,
            crc32: self.crc32,
        }
    }
}

/// One player's actions within one tick.
#[derive(Debug, Clone, PartialEq)]
pub struct Command {
    pub player_id: u8,
    pub num_bytes: u16,
    pub actions: Vec<Action>,
}

/// Mathematical view of a [`Command`].
pub struct CommandV {
    pub player_id: u8,
    pub num_bytes: u16,
    pub actions: Seq<ActionV>,
}

impl View for Command {
    type V = CommandV;

    open spec fn view(&self) -> CommandV {
        CommandV {
            player_id: self.player_id,
            num_bytes: self.num_bytes,
            actions: self.actions@.map_values(|a: Action| a@),
        }
    }
}

/// One top-level block of the replay body.
#[derive(Debug, Clone, PartialEq)]
pub enum ReplayBlock {
    LeaveGame { reason: u32, player_id: u8, result: u32, session_leave_count: u32 },
    LoadStarted1 { unknown: u32 },
    LoadStarted2 { unknown: u32 },
    GameStarted { unknown: u32 },
    TickPreOverflow { num_bytes: u16, time_increment: u16, commands: Vec<Command> },
    Tick { num_bytes: u16, time_increment: u16, commands: Vec<Command> },
    PlayerChat { player_id: u8, num_bytes: u16, flags: u8, chat_mode: u32, message: Vec<u8> },
    RandomSeed { num_bytes: u8, unknown: u32 },
    Desync { tick_count: u32, checksum: u32, remaining_players: u8 },
    ForceGameEndCountdown { mode: u32, time: u32 },
}

/// Mathematical view of a [`ReplayBlock`].
pub enum ReplayBlockV {
    LeaveGame { reason: u32, player_id: u8, result: u32, session_leave_count: u32 },
    LoadStarted1 { unknown: u32 },
    LoadStarted2 { unknown: u32 },
    GameStarted { unknown: u32 },
    TickPreOverflow { num_bytes: u16, time_increment: u16, commands: Seq<CommandV> },
    Tick { num_bytes: u16, time_increment: u16, commands: Seq<CommandV> },
    PlayerChat { player_id: u8, num_bytes: u16, flags: u8, chat_mode: u32, message: Seq<u8> },
    RandomSeed { num_bytes: u8, unknown: u32 },
    Desync { tick_count: u32, checksum: u32, remaining_players: u8 },
    ForceGameEndCountdown { mode: u32, time: u32 },
}

impl View for ReplayBlock {
    type V = ReplayBlockV;

    open spec fn view(&self) -> ReplayBlockV {
        match self {
            ReplayBlock::LeaveGame { reason, player_id, result, session_leave_count } =>
                ReplayBlockV::LeaveGame {
                    reason: *reason,
                    player_id: *player_id,
                    result: *result,
                    session_leave_count: *session_leave_count,
                },
            ReplayBlock::LoadStarted1 { unknown } => ReplayBlockV::LoadStarted1 { unknown: *unknown },
            ReplayBlock::LoadStarted2 { unknown } => ReplayBlockV::LoadStarted2 { unknown: *unknown },
            ReplayBlock::GameStarted { unknown } => ReplayBlockV::GameStarted { unknown: *unknown },
            ReplayBlock::TickPreOverflow { num_bytes, time_increment, commands } =>
                ReplayBlockV::TickPreOverflow {
                    num_bytes: *num_bytes,
                    time_increment: *time_increment,
                    commands: commands@.map_values(|c: Command| c@),
                },
            ReplayBlock::Tick { num_bytes, time_increment, commands } =>
                ReplayBlockV::Tick {
                    num_bytes: *num_bytes,
                    time_increment: *time_increment,
                    commands: commands@.map_values(|c: Command| c@),
                },
            ReplayBlock::PlayerChat { player_id, num_bytes, flags, chat_mode, message } =>
                ReplayBlockV::PlayerChat {
                    player_id: *player_id,
                    num_bytes: *num_bytes,
                    flags: *flags,
                    chat_mode: *chat_mode,
                    message: message@,
                },
            ReplayBlock::RandomSeed { num_bytes, unknown } =>
                ReplayBlockV::RandomSeed { num_bytes: *num_bytes, unknown: *unknown },
            ReplayBlock::Desync { tick_count, checksum, remaining_players } =>
                ReplayBlockV::Desync {
                    tick_count: *tick_count,
                    checksum: *checksum,
                    remaining_players: *remaining_players,
                },
            ReplayBlock::ForceGameEndCountdown { mode, time } =>
                ReplayBlockV::ForceGameEndCountdown { mode: *mode, time: *time },
        }
    }
}

/// A fully decoded replay file.
#[derive(Debug, Clone, PartialEq)]
pub struct Replay {
    pub magic_string: Vec<u8>,
    pub file_offset: u32,
    pub compressed_size: u32,
    pub header_version: u32,
    pub decompressed_size: u32,
    pub number_of_compressed_blocks: u32,
    pub replay_header: ReplayHeader,
    pub game_header: GameHeader,
    pub replay_blocks: Vec<ReplayBlock>,
}

/// Mathematical view of a [`Replay`].
pub struct ReplayV {
    pub magic_string: Seq<u8>,
    pub file_offset: u32,
    pub compressed_size: u32,
    pub header_version: u32,
    pub decompressed_size: u32,
    pub number_of_compressed_blocks: u32,
    pub replay_header: ReplayHeaderV,
    pub game_header: GameHeaderV,
    pub replay_blocks: Seq<ReplayBlockV>,
}

impl View for Replay {
    type V = ReplayV;

    open spec fn view(&self) -> ReplayV {
        ReplayV {
            magic_string: self.magic_string@,
            file_offset: self.file_offset,
            compressed_size: self.compressed_size,
            header_version: self.header_version,
            decompressed_size: self.decompressed_size,
            number_of_compressed_blocks: self.number_of_compressed_blocks,
            replay_header: self.replay_header@,
            game_header: self.game_header@,
            replay_blocks: self.replay_blocks@.map_values(|b: ReplayBlock| b@),
        }
    }
}

/// One in-game event of one player.
#[derive(Debug, Clone, PartialEq)]
pub enum Action {
    PauseGame {},
    ResumeGame {},
    SetGameSpeed { speed: GameSpeed },
    IncreaseGameSpeed {},
    DecreaseGameSpeed {},
    SaveGame { game_name: Vec<u8> },
    SaveGameFinish { unknown: u32 },
    SelfOrder { flags: Vec<OrderType>, order_id: u32, unknown: GameObject },
    PointOrder { flags: Vec<OrderType>, order_id: u32, unknown: GameObject, x: Float32, y: Float32 },
    ObjectOrder {
        flags: Vec<OrderType>,
        order_id: u32,
        unknown: GameObject,
        x: Float32,
        y: Float32,
        target: GameObject,
    },
    DropOrGiveItem {
        flags: Vec<OrderType>,
        order_id: u32,
        unknown: GameObject,
        x: Float32,
        y: Float32,
        receiver: GameObject,
        item: GameObject,
    },
    FogObjectOrder {
        flags: Vec<OrderType>,
        order_id: u32,
        unknown: GameObject,
        x: Float32,
        y: Float32,
        target_type: u32,
        target_flags: u64,
        target_owner: u8,
        target_x: Float32,
        target_y: Float32,
    },
    ChangeSelection { select_mode: SelectionOperation, targets: Vec<GameObject> },
    AssignGroup { group_number: u8, targets: Vec<GameObject> },
    SelectGroup { group_number: u8, unknown: u8 },
    SelectSubGroup { item_id: u32, target: GameObject },
    PreSubSelection {},
    TriggerSelectionEvent { operation: SelectionOperation, target: GameObject },
    SelectGroundItem { flags: u8, target: GameObject },
    CancelHeroRevival { target: GameObject },
    CancelUnitInQueue { slot_index: u8, unit_id: u32 },
    Unknown21 { unknown_a: u32, unknown_b: u32 },
    CheatTheDudeAbides {},
    CheatSomebodySetUpUsTheBomb {},
    CheatWarpTen {},
    CheatIocainePowder {},
    CheatPointBreak {},
    CheatWhosYourDaddy {},
    CheatKeyserSoze { unknown: u8, gold: i32 },
    CheatLeafItToMe { unknown: u8, lumber: i32 },
    CheatThereIsNoSpoon {},
    CheatStrengthAndHonor {},
    CheatItVexesMe {},
    CheatWhoIsJohnGalt {},
    CheatGreedIsGood { unknown: u8, resources: i32 },
    CheatDaylightSavings { time: Float32 },
    CheatISeeDeadPeople {},
    CheatSynergy {},
    CheatSharpAndShiny {},
    CheatAllYourBaseAreBelongToUs {},
    ChangeAlly { player_id: u8, flags: Vec<AllianceType> },
    TransferResources { player_id: u8, gold_transfered: i32, lumber_transfered: i32 },
    MapTriggerChat { event: GameObject, message: Vec<u8> },
    Esc {},
    TriggerSleepOrSyncFinished { thread: GameObject, wait_count: u32 },
    TriggerSyncReady { thread: GameObject },
    TriggerMouseClickedTrackable { trackable: GameObject },
    TriggerMouseTouchedTrackable { trackable: GameObject },
    EnterHeroSkillSubMenu {},
    EnterBuildingSubMenu {},
    MiniMapSignal { location_x: Float32, location_y: Float32, duration: Float32 },
    DialogButtonClicked { dialog: GameObject, button: GameObject },
    DialogAnyButtonClicked { button: GameObject, dialog: GameObject },
    SyncStoredInteger { file: Vec<u8>, group: Vec<u8>, key: Vec<u8>, value: i32 },
    SyncStoredFloat { file: Vec<u8>, group: Vec<u8>, key: Vec<u8>, value: Float32 },
    SyncStoredBoolean { file: Vec<u8>, group: Vec<u8>, key: Vec<u8>, value: u32 },
    SyncStoredUnit {
        file: Vec<u8>,
        group: Vec<u8>,
        key: Vec<u8>,
        unit_type: u32,
        inventory: Vec<UnitInventory>,
        experience: u32,
        level_ups: u32,
        skill_points: u32,
        proper_name_index: u16,
        unknown1: u16,
        base_strength: u32,
        bonus_strength_per_level: Float32,
        base_agility: u32,
        bonus_move_speed: Float32,
        bonus_attack_speed: Float32,
        bonus_agility_per_level: Float32,
        base_intelligence: u32,
        bonus_intelligence_per_level: Float32,
        abilities: Vec<UnitAbility>,
        bonus_health: Float32,
        bonus_mana: Float32,
        sight_radius_day: Float32,
        unknown2: u32,
        unknown3: u32,
        unknown4: u32,
        unknown5: u32,
        hotkey_flags: u16,
    },
    SyncStoredString { file: Vec<u8>, group: Vec<u8>, key: Vec<u8>, value: Vec<u8> },
    SyncEmptyInteger { file: Vec<u8>, group: Vec<u8>, key: Vec<u8> },
    SyncEmptyString { file: Vec<u8>, group: Vec<u8>, key: Vec<u8> },
    SyncEmptyBoolean { file: Vec<u8>, group: Vec<u8>, key: Vec<u8> },
    SyncEmptyUnit { file: Vec<u8>, group: Vec<u8>, key: Vec<u8> },
    SyncEmptyFloat { file: Vec<u8>, group: Vec<u8>, key: Vec<u8> },
    TriggerArrow { key: ArrowKeyEvent },
}

/// Mathematical view of an [`Action`].
pub enum ActionV {
    PauseGame {},
    ResumeGame {},
    SetGameSpeed { speed: GameSpeed },
    IncreaseGameSpeed {},
    DecreaseGameSpeed {},
    SaveGame { game_name: Seq<u8> },
    SaveGameFinish { unknown: u32 },
    SelfOrder { flags: Seq<OrderType>, order_id: u32, unknown: GameObject },
    PointOrder { flags: Seq<OrderType>, order_id: u32, unknown: GameObject, x: Float32, y: Float32 },
    ObjectOrder {
        flags: Seq<OrderType>,
        order_id: u32,
        unknown: GameObject,
        x: Float32,
        y: Float32,
        target: GameObject,
    },
    DropOrGiveItem {
        flags: Seq<OrderType>,
        order_id: u32,
        unknown: GameObject,
        x: Float32,
        y: Float32,
        receiver: GameObject,
        item: GameObject,
    },
    FogObjectOrder {
        flags: Seq<OrderType>,
        order_id: u32,
        unknown: GameObject,
        x: Float32,
        y: Float32,
        target_type: u32,
        target_flags: u64,
        target_owner: u8,
        target_x: Float32,
        target_y: Float32,
    },
    ChangeSelection { select_mode: SelectionOperation, targets: Seq<GameObject> },
    AssignGroup { group_number: u8, targets: Seq<GameObject> },
    SelectGroup { group_number: u8, unknown: u8 },
    SelectSubGroup { item_id: u32, target: GameObject },
    PreSubSelection {},
    TriggerSelectionEvent { operation: SelectionOperation, target: GameObject },
    SelectGroundItem { flags: u8, target: GameObject },
    CancelHeroRevival { target: GameObject },
    CancelUnitInQueue { slot_index: u8, unit_id: u32 },
    Unknown21 { unknown_a: u32, unknown_b: u32 },
    CheatTheDudeAbides {},
    CheatSomebodySetUpUsTheBomb {},
    CheatWarpTen {},
    CheatIocainePowder {},
    CheatPointBreak {},
    CheatWhosYourDaddy {},
    CheatKeyserSoze { unknown: u8, gold: i32 },
    CheatLeafItToMe { unknown: u8, lumber: i32 },
    CheatThereIsNoSpoon {},
    CheatStrengthAndHonor {},
    CheatItVexesMe {},
    CheatWhoIsJohnGalt {},
    CheatGreedIsGood { unknown: u8, resources: i32 },
    CheatDaylightSavings { time: Float32 },
    CheatISeeDeadPeople {},
    CheatSynergy {},
    CheatSharpAndShiny {},
    CheatAllYourBaseAreBelongToUs {},
    ChangeAlly { player_id: u8, flags: Seq<AllianceType> },
    TransferResources { player_id: u8, gold_transfered: i32, lumber_transfered: i32 },
    MapTriggerChat { event: GameObject, message: Seq<u8> },
    Esc {},
    TriggerSleepOrSyncFinished { thread: GameObject, wait_count: u32 },
    TriggerSyncReady { thread: GameObject },
    TriggerMouseClickedTrackable { trackable: GameObject },
    TriggerMouseTouchedTrackable { trackable: GameObject },
    EnterHeroSkillSubMenu {},
    EnterBuildingSubMenu {},
    MiniMapSignal { location_x: Float32, location_y: Float32, duration: Float32 },
    DialogButtonClicked { dialog: GameObject, button: GameObject },
    DialogAnyButtonClicked { button: GameObject, dialog: GameObject },
    SyncStoredInteger { file: Seq<u8>, group: Seq<u8>, key: Seq<u8>, value: i32 },
    SyncStoredFloat { file: Seq<u8>, group: Seq<u8>, key: Seq<u8>, value: Float32 },
    SyncStoredBoolean { file: Seq<u8>, group: Seq<u8>, key: Seq<u8>, value: u32 },
    SyncStoredUnit {
        file: Seq<u8>,
        group: Seq<u8>,
        key: Seq<u8>,
        unit_type: u32,
        inventory: Seq<UnitInventory>,
        experience: u32,
        level_ups: u32,
        skill_points: u32,
        proper_name_index: u16,
        unknown1: u16,
        base_strength: u32,
        bonus_strength_per_level: Float32,
        base_agility: u32,
        bonus_move_speed: Float32,
        bonus_attack_speed: Float32,
        bonus_agility_per_level: Float32,
        base_intelligence: u32,
        bonus_intelligence_per_level: Float32,
        abilities: Seq<UnitAbility>,
        bonus_health: Float32,
        bonus_mana: Float32,
        sight_radius_day: Float32,
        unknown2: u32,
        unknown3: u32,
        unknown4: u32,
        unknown5: u32,
        hotkey_flags: u16,
    },
    SyncStoredString { file: Seq<u8>, group: Seq<u8>, key: Seq<u8>, value: Seq<u8> },
    SyncEmptyInteger { file: Seq<u8>, group: Seq<u8>, key: Seq<u8> },
    SyncEmptyString { file: Seq<u8>, group: Seq<u8>, key: Seq<u8> },
    SyncEmptyBoolean { file: Seq<u8>, group: Seq<u8>, key: Seq<u8> },
    SyncEmptyUnit { file: Seq<u8>, group: Seq<u8>, key: Seq<u8> },
    SyncEmptyFloat { file: Seq<u8>, group: Seq<u8>, key: Seq<u8> },
    TriggerArrow { key: ArrowKeyEvent },
}

impl View for Action {
    type V = ActionV;

    open spec fn view(&self) -> ActionV {
        match self {
            Action::PauseGame {} => ActionV::PauseGame {},
            Action::ResumeGame {} => ActionV::ResumeGame {},
            Action::SetGameSpeed { speed } => ActionV::SetGameSpeed { speed: *speed },
            Action::IncreaseGameSpeed {} => ActionV::IncreaseGameSpeed {},
            Action::DecreaseGameSpeed {} => ActionV::DecreaseGameSpeed {},
            Action::SaveGame { game_name } => ActionV::SaveGame { game_name: game_name@ },
            Action::SaveGameFinish { unknown } => ActionV::SaveGameFinish { unknown: *unknown },
            Action::SelfOrder { flags, order_id, unknown } => ActionV::SelfOrder {
                flags: flags@,
                order_id: *order_id,
                unknown: *unknown,
            },
            Action::PointOrder { flags, order_id, unknown, x, y } => ActionV::PointOrder {
                flags: flags@,
                order_id: *order_id,
                unknown: *unknown,
                x: *x,
                y: *y,
            },
            Action::ObjectOrder { flags, order_id, unknown, x, y, target } => ActionV::ObjectOrder {
                flags: flags@,
                order_id: *order_id,
                unknown: *unknown,
                x: *x,
                y: *y,
                target: *target,
            },
            Action::DropOrGiveItem { flags, order_id, unknown, x, y, receiver, item } =>
                ActionV::DropOrGiveItem {
                    flags: flags@,
                    order_id: *order_id,
                    unknown: *unknown,
                    x: *x,
                    y: *y,
                    receiver: *receiver,
                    item: *item,
                },
            Action::FogObjectOrder {
                flags,
                order_id,
                unknown,
                x,
                y,
                target_type,
                target_flags,
                target_owner,
                target_x,
                target_y,
            } => ActionV::FogObjectOrder {
                flags: flags@,
                order_id: *order_id,
                unknown: *unknown,
                x: *x,
                y: *y,
                target_type: *target_type,
                target_flags: *target_flags,
                target_owner: *target_owner,
                target_x: *target_x,
                target_y: *target_y,
            },
            Action::ChangeSelection { select_mode, targets } => ActionV::ChangeSelection {
                select_mode: *select_mode,
                targets: targets@,
            },
            Action::AssignGroup { group_number, targets } => ActionV::AssignGroup {
                group_number: *group_number,
                targets: targets@,
            },
            Action::SelectGroup { group_number, unknown } => ActionV::SelectGroup {
                group_number: *group_number,
                unknown: *unknown,
            },
            Action::SelectSubGroup { item_id, target } => ActionV::SelectSubGroup {
                item_id: *item_id,
                target: *target,
            },
            Action::PreSubSelection {} => ActionV::PreSubSelection {},
            Action::TriggerSelectionEvent { operation, target } => ActionV::TriggerSelectionEvent {
                operation: *operation,
                target: *target,
            },
            Action::SelectGroundItem { flags, target } => ActionV::SelectGroundItem {
                flags: *flags,
                target: *target,
            },
            Action::CancelHeroRevival { target } => ActionV::CancelHeroRevival { target: *target },
            Action::CancelUnitInQueue { slot_index, unit_id } => ActionV::CancelUnitInQueue {
                slot_index: *slot_index,
                unit_id: *unit_id,
            },
            Action::Unknown21 { unknown_a, unknown_b } => ActionV::Unknown21 {
                unknown_a: *unknown_a,
                unknown_b: *unknown_b,
            },
            Action::CheatTheDudeAbides {} => ActionV::CheatTheDudeAbides {},
            Action::CheatSomebodySetUpUsTheBomb {} => ActionV::CheatSomebodySetUpUsTheBomb {},
            Action::CheatWarpTen {} => ActionV::CheatWarpTen {},
            Action::CheatIocainePowder {} => ActionV::CheatIocainePowder {},
            Action::CheatPointBreak {} => ActionV::CheatPointBreak {},
            Action::CheatWhosYourDaddy {} => ActionV::CheatWhosYourDaddy {},
            Action::CheatKeyserSoze { unknown, gold } => ActionV::CheatKeyserSoze {
                unknown: *unknown,
                gold: *gold,
            },
            Action::CheatLeafItToMe { unknown, lumber } => ActionV::CheatLeafItToMe {
                unknown: *unknown,
                lumber: *lumber,
            },
            Action::CheatThereIsNoSpoon {} => ActionV::CheatThereIsNoSpoon {},
            Action::CheatStrengthAndHonor {} => ActionV::CheatStrengthAndHonor {},
            Action::CheatItVexesMe {} => ActionV::CheatItVexesMe {},
            Action::CheatWhoIsJohnGalt {} => ActionV::CheatWhoIsJohnGalt {},
            Action::CheatGreedIsGood { unknown, resources } => ActionV::CheatGreedIsGood {
                unknown: *unknown,
                resources: *resources,
            },
            Action::CheatDaylightSavings { time } => ActionV::CheatDaylightSavings { time: *time },
            Action::CheatISeeDeadPeople {} => ActionV::CheatISeeDeadPeople {},
            Action::CheatSynergy {} => ActionV::CheatSynergy {},
            Action::CheatSharpAndShiny {} => ActionV::CheatSharpAndShiny {},
            Action::CheatAllYourBaseAreBelongToUs {} => ActionV::CheatAllYourBaseAreBelongToUs {},
            Action::ChangeAlly { player_id, flags } => ActionV::ChangeAlly {
                player_id: *player_id,
                flags: flags@,
            },
            Action::TransferResources { player_id, gold_transfered, lumber_transfered } =>
                ActionV::TransferResources {
                    player_id: *player_id,
                    gold_transfered: *gold_transfered,
                    lumber_transfered: *lumber_transfered,
                },
            Action::MapTriggerChat { event, message } => ActionV::MapTriggerChat {
                event: *event,
                message: message@,
            },
            Action::Esc {} => ActionV::Esc {},
            Action::TriggerSleepOrSyncFinished { thread, wait_count } =>
                ActionV::TriggerSleepOrSyncFinished {
                    thread: *thread,
                    wait_count: *wait_count,
                },
            Action::TriggerSyncReady { thread } => ActionV::TriggerSyncReady { thread: *thread },
            Action::TriggerMouseClickedTrackable { trackable } =>
                ActionV::TriggerMouseClickedTrackable { trackable: *trackable },
            Action::TriggerMouseTouchedTrackable { trackable } =>
                ActionV::TriggerMouseTouchedTrackable { trackable: *trackable },
            Action::EnterHeroSkillSubMenu {} => ActionV::EnterHeroSkillSubMenu {},
            Action::EnterBuildingSubMenu {} => ActionV::EnterBuildingSubMenu {},
            Action::MiniMapSignal { location_x, location_y, duration } => ActionV::MiniMapSignal {
                location_x: *location_x,
                location_y: *location_y,
                duration: *duration,
            },
            Action::DialogButtonClicked { dialog, button } => ActionV::DialogButtonClicked {
                dialog: *dialog,
                button: *button,
            },
            Action::DialogAnyButtonClicked { button, dialog } => ActionV::DialogAnyButtonClicked {
                button: *button,
                dialog: *dialog,
            },
            Action::SyncStoredInteger { file, group, key, value } => ActionV::SyncStoredInteger {
                file: file@,
                group: group@,
                key: key@,
                value: *value,
            },
            Action::SyncStoredFloat { file, group, key, value } => ActionV::SyncStoredFloat {
                file: file@,
                group: group@,
                key: key@,
                value: *value,
            },
            Action::SyncStoredBoolean { file, group, key, value } => ActionV::SyncStoredBoolean {
                file: file@,
                group: group@,
                key: key@,
                value: *value,
            },
            Action::SyncStoredUnit {
                file,
                group,
                key,
                unit_type,
                inventory,
                experience,
                level_ups,
                skill_points,
                proper_name_index,
                unknown1,
                base_strength,
                bonus_strength_per_level,
                base_agility,
                bonus_move_speed,
                bonus_attack_speed,
                bonus_agility_per_level,
                base_intelligence,
                bonus_intelligence_per_level,
                abilities,
                bonus_health,
                bonus_mana,
                sight_radius_day,
                unknown2,
                unknown3,
                unknown4,
                unknown5,
                hotkey_flags,
            } => ActionV::SyncStoredUnit {
                file: file@,
                group: group@,
                key: key@,
                unit_type: *unit_type,
                inventory: inventory@,
                experience: *experience,
                level_ups: *level_ups,
                skill_points: *skill_points,
                proper_name_index: *proper_name_index,
                unknown1: *unknown1,
                base_strength: *base_strength,
                bonus_strength_per_level: *bonus_strength_per_level,
                base_agility: *base_agility,
                bonus_move_speed: *bonus_move_speed,
                bonus_attack_speed: *bonus_attack_speed,
                bonus_agility_per_level: *bonus_agility_per_level,
                base_intelligence: *base_intelligence,
                bonus_intelligence_per_level: *bonus_intelligence_per_level,
                abilities: abilities@,
                bonus_health: *bonus_health,
                bonus_mana: *bonus_mana,
                sight_radius_day: *sight_radius_day,
                unknown2: *unknown2,
                unknown3: *unknown3,
                unknown4: *unknown4,
                unknown5: *unknown5,
                hotkey_flags: *hotkey_flags,
            },
            Action::SyncStoredString { file, group, key, value } => ActionV::SyncStoredString {
                file: file@,
                group: group@,
                key: key@,
                value: value@,
            },
            Action::SyncEmptyInteger { file, group, key } => ActionV::SyncEmptyInteger {
                file: file@,
                group: group@,
                key: key@,
            },
            Action::SyncEmptyString { file, group, key } => ActionV::SyncEmptyString {
                file: file@,
                group: group@,
                key: key@,
            },
            Action::SyncEmptyBoolean { file, group, key } => ActionV::SyncEmptyBoolean {
                file: file@,
                group: group@,
                key: key@,
            },
            Action::SyncEmptyUnit { file, group, key } => ActionV::SyncEmptyUnit {
                file: file@,
                group: group@,
                key: key@,
            },
            Action::SyncEmptyFloat { file, group, key } => ActionV::SyncEmptyFloat {
                file: file@,
                group: group@,
                key: key@,
            },
            Action::TriggerArrow { key } => ActionV::TriggerArrow { key: *key },
        }
    }
}

} // verus!
