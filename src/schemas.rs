//! The configuration document of a server: network bindings, the query and
//! remote-console endpoints, the game settings with their mod list, and
//! operational tuning. Each part has the defaults a new server starts from.

use std::collections::HashMap;
use vstd::prelude::*;
use vstd::string::StringExecFns;

verus! {

/// The query (A2S) endpoint.
#[derive(Clone, Debug, PartialEq, Eq)]
pub struct A2SConfig {
    pub address: String,
    pub port: u16,
}

impl A2SConfig {
    pub open spec fn is_default(&self) -> bool {
        &&& self.address@ == "0.0.0.0"@
        &&& self.port == 17777
    }
}

impl Default for A2SConfig {
    fn default() -> (r: Self)
        ensures
            r.is_default(),
    {
        A2SConfig { address: String::from_str("0.0.0.0"), port: 17777 }
    }
}

/// What a remote-console client may do.
#[derive(Clone, Copy, Debug, PartialEq, Eq, Structural)]
pub enum RconPermission {
    /// The admin can perform any command.
    Admin,
    /// The monitor can only perform commands which do not change the server's
    /// state.
    Monitor,
}

impl Default for RconPermission {
    fn default() -> (r: Self)
        ensures
            r == RconPermission::Monitor,
    {
        RconPermission::Monitor
    }
}

/// The remote-console endpoint.
#[derive(Clone, Debug, PartialEq, Eq)]
pub struct RconConfig {
    pub address: String,
    pub port: u16,
    pub password: String,
    pub max_clients: u16,
    pub permission: RconPermission,
    pub blacklist: Vec<String>,
    pub whitelist: Vec<String>,
}

impl RconConfig {
    pub open spec fn is_default(&self) -> bool {
        &&& self.address@ == "0.0.0.0"@
        &&& self.port == 19999
        &&& self.password@ == "changeme_withoutspaces"@
        &&& self.max_clients == 16
        &&& self.permission == RconPermission::Monitor
        &&& self.blacklist@.len() == 0
        &&& self.whitelist@.len() == 0
    }
}

impl Default for RconConfig {
    fn default() -> (r: Self)
        ensures
            r.is_default(),
    {
        RconConfig {
            address: String::from_str("0.0.0.0"),
            port: 19999,
            password: String::from_str("changeme_withoutspaces"),
            max_clients: 16,
            permission: RconPermission::Monitor,
            blacklist: Vec::new(),
            whitelist: Vec::new(),
        }
    }
}

/// A platform players may join from.
#[derive(Clone, Copy, Debug, PartialEq, Eq, Structural)]
pub enum GamePlatform {
    /// PC
    PC,
    /// Xbox Console
    XBL,
    /// PlayStation Console
    PSN,
}

impl Default for GamePlatform {
    fn default() -> (r: Self)
        ensures
            r == GamePlatform::PC,
    {
        GamePlatform::PC
    }
}

/// Settings of the game itself.
#[derive(Clone, Debug, PartialEq, Eq)]
pub struct GameProperties {
    pub server_max_view_distance: u16,
    pub server_min_grass_distance: u16,
    pub fast_validation: bool,
    pub network_view_distance: u16,
    pub battleye: bool,
    pub disable_third_person: bool,
    pub von_disable_ui: bool,
    pub von_disable_direct_speech_ui: bool,
    pub von_can_transmit_cross_faction: bool,
    pub mission_header: Option<HashMap<String, String>>,
}

impl GameProperties {
    pub open spec fn is_default(&self) -> bool {
        &&& self.server_max_view_distance == 1600
        &&& self.server_min_grass_distance == 50
        &&& self.network_view_distance == 1500
        &&& !self.disable_third_person
        &&& self.fast_validation
        &&& self.battleye
        &&& !self.von_disable_ui
        &&& !self.von_disable_direct_speech_ui
        &&& !self.von_can_transmit_cross_faction
        &&& self.mission_header is None
    }
}

impl Default for GameProperties {
    fn default() -> (r: Self)
        ensures
            r.is_default(),
    {
        GameProperties {
            server_max_view_distance: 1600,
            server_min_grass_distance: 50,
            network_view_distance: 1500,
            disable_third_person: false,
            fast_validation: true,
            battleye: true,
            von_disable_ui: false,
            von_disable_direct_speech_ui: false,
            von_can_transmit_cross_faction: false,
            mission_header: None,
        }
    }
}

/// One mod of a server's mod list.
#[derive(Clone, Debug, PartialEq, Eq)]
pub struct ModConfig {
    pub mod_id: String,
    pub name: String,
    pub required: bool,
}

impl ModConfig {
    pub open spec fn is_default(&self) -> bool {
        &&& self.mod_id@.len() == 0
        &&& self.name@.len() == 0
        &&& !self.required
    }
}

impl Default for ModConfig {
    fn default() -> (r: Self)
        ensures
            r.is_default(),
    {
        ModConfig { mod_id: String::new(), name: String::new(), required: false }
    }
}

/// The game section: the server's name and access, scenario, platforms,
/// game properties and mods.
#[derive(Clone, Debug, PartialEq, Eq)]
pub struct GameConfig {
    pub name: String,
    pub password: Option<String>,
    pub password_admin: String,
    pub admins: Vec<String>,
    pub scenario_id: String,
    pub max_players: u16,
    pub visible: bool,
    pub cross_platform: bool,
    pub supported_platforms: Vec<GamePlatform>,
    pub game_properties: GameProperties,
    pub mods_required_by_default: bool,
    pub mods: Vec<ModConfig>,
}

/// Why a change of a mod list was refused.
#[derive(Clone, Copy, Debug, PartialEq, Eq, Structural)]
pub enum ModError {
    /// A mod with that identifier is already in the list.
    AlreadyAdded,
    /// No mod with that identifier is in the list.
    NotAdded,
}

/// Whether a mod with identifier `mod_id` is in `mods`.
pub open spec fn has_mod(mods: Seq<ModConfig>, mod_id: Seq<char>) -> bool {
    exists|i: int| 0 <= i < mods.len() && (#[trigger] mods[i]).mod_id@ == mod_id
}

/// Whether `i` is the first position of a mod with identifier `mod_id` in
/// `mods`.
pub open spec fn is_first_mod(mods: Seq<ModConfig>, mod_id: Seq<char>, i: int) -> bool {
    &&& 0 <= i < mods.len()
    &&& mods[i].mod_id@ == mod_id
    &&& forall|j: int| 0 <= j < i ==> (#[trigger] mods[j]).mod_id@ != mod_id
}

/// The position of the first mod with identifier `mod_id` in `mods`, if any.
pub fn find_mod(mods: &Vec<ModConfig>, mod_id: &String) -> (r: Option<usize>)
    ensures
        match r {
            Some(i) => is_first_mod(mods@, mod_id@, i as int),
            None => !has_mod(mods@, mod_id@),
        },
{
    let mut i: usize = 0;
    while i < mods.len()
        invariant
            0 <= i <= mods@.len(),
            forall|j: int| 0 <= j < i ==> (#[trigger] mods@[j]).mod_id@ != mod_id@,
        decreases mods@.len() - i,
    {
        if mods[i].mod_id == *mod_id {
            return Some(i);
        }
        i = i + 1;
    }
    None
}

impl GameConfig {
    /// Adds the mod `mod_id` to the mod list, required, named `name` or with
    /// an empty name. Refused when a mod with that identifier is listed.
    pub fn add_mod(&mut self, mod_id: String, name: Option<String>) -> (r: Result<(), ModError>)
        ensures
            has_mod(old(self).mods@, mod_id@) ==> {
                &&& r == Err::<(), ModError>(ModError::AlreadyAdded)
                &&& *final(self) == *old(self)
            },
            !has_mod(old(self).mods@, mod_id@) ==> {
                &&& r is Ok
                &&& final(self).mods@.len() == old(self).mods@.len() + 1
                &&& final(self).mods@.drop_last() == old(self).mods@
                &&& final(self).mods@.last().mod_id == mod_id
                &&& final(self).mods@.last().name@ == match name {
                    Some(n) => n@,
                    None => Seq::<char>::empty(),
                }
                &&& final(self).mods@.last().required
                &&& *final(self) == (GameConfig { mods: final(self).mods, ..*old(self) })
            },
    {
        match find_mod(&self.mods, &mod_id) {
            Some(_) => Err(ModError::AlreadyAdded),
            None => {
                let name = match name {
                    Some(n) => n,
                    None => String::new(),
                };
                self.mods.push(ModConfig { mod_id, name, required: true });
                assert(self.mods@.drop_last() =~= old(self).mods@);
                Ok(())
            },
        }
    }

    /// Removes the first mod with identifier `mod_id` from the mod list.
    /// Refused when no such mod is listed.
    pub fn remove_mod(&mut self, mod_id: &String) -> (r: Result<(), ModError>)
        ensures
            !has_mod(old(self).mods@, mod_id@) ==> {
                &&& r == Err::<(), ModError>(ModError::NotAdded)
                &&& *final(self) == *old(self)
            },
            has_mod(old(self).mods@, mod_id@) ==> {
                &&& r is Ok
                &&& exists|i: int|
                    is_first_mod(old(self).mods@, mod_id@, i) && final(self).mods@ == old(
                        self,
                    ).mods@.remove(i)
                &&& *final(self) == (GameConfig { mods: final(self).mods, ..*old(self) })
            },
    {
        match find_mod(&self.mods, mod_id) {
            Some(i) => {
                self.mods.remove(i);
                assert(is_first_mod(old(self).mods@, mod_id@, i as int));
                Ok(())
            },
            None => Err(ModError::NotAdded),
        }
    }

    /// All settings but the name have their defaults.
    pub open spec fn is_default_but_name(&self) -> bool {
        &&& self.password is None
        &&& self.password_admin@.len() == 0
        &&& self.admins@.len() == 0
        &&& self.scenario_id@ == "{59AD59368755F41A}Missions/21_GM_Eden.conf"@
        &&& self.max_players == 64
        &&& self.visible
        &&& !self.cross_platform
        &&& self.supported_platforms@ == seq![GamePlatform::PC]
        &&& self.game_properties.is_default()
        &&& self.mods_required_by_default
        &&& self.mods@.len() == 0
    }

    pub open spec fn is_default(&self) -> bool {
        &&& self.name@.len() == 0
        &&& self.is_default_but_name()
    }
}

impl Default for GameConfig {
    fn default() -> (r: Self)
        ensures
            r.is_default(),
    {
        let mut supported_platforms: Vec<GamePlatform> = Vec::new();
        supported_platforms.push(GamePlatform::PC);
        GameConfig {
            name: String::new(),
            password: None,
            password_admin: String::new(),
            admins: Vec::new(),
            scenario_id: String::from_str("{59AD59368755F41A}Missions/21_GM_Eden.conf"),
            max_players: 64,
            visible: true,
            cross_platform: false,
            supported_platforms,
            game_properties: GameProperties::default(),
            mods_required_by_default: true,
            mods: Vec::new(),
        }
    }
}

/// The queue of players waiting to join.
#[derive(Clone, Debug, PartialEq, Eq)]
pub struct JoinQueueConfig {
    pub max_size: i16,
}

impl Default for JoinQueueConfig {
    fn default() -> (r: Self)
        ensures
            r.max_size == 50,
    {
        JoinQueueConfig { max_size: 50 }
    }
}

/// Operational tuning.
#[derive(Clone, Debug, PartialEq, Eq)]
pub struct OperatingConfig {
    pub lobby_player_synchronise: bool,
    pub disable_crash_reporter: bool,
    pub disable_navmesh_streaming: Option<Vec<String>>,
    pub disable_server_shutdown: bool,
    pub disable_ai: bool,
    pub player_save_time: i16,
    pub ai_limit: i16,
    pub slot_reservation_timeout: i16,
    pub join_queue: JoinQueueConfig,
}

impl OperatingConfig {
    pub open spec fn is_default(&self) -> bool {
        &&& self.lobby_player_synchronise
        &&& !self.disable_crash_reporter
        &&& self.disable_navmesh_streaming is None
        &&& !self.disable_server_shutdown
        &&& !self.disable_ai
        &&& self.player_save_time == 120
        &&& self.ai_limit == -1
        &&& self.slot_reservation_timeout == 60
        &&& self.join_queue.max_size == 50
    }
}

impl Default for OperatingConfig {
    fn default() -> (r: Self)
        ensures
            r.is_default(),
    {
        OperatingConfig {
            lobby_player_synchronise: true,
            disable_crash_reporter: false,
            disable_navmesh_streaming: None,
            disable_server_shutdown: false,
            disable_ai: false,
            player_save_time: 120,
            ai_limit: -1,
            slot_reservation_timeout: 60,
            join_queue: JoinQueueConfig::default(),
        }
    }
}

/// The whole configuration document of a server.
#[derive(Clone, Debug, PartialEq, Eq)]
pub struct ServerConfig {
    pub bind_address: String,
    pub bind_port: Option<u16>,
    pub public_address: Option<String>,
    pub public_port: u16,
    pub a2s: A2SConfig,
    pub rcon: RconConfig,
    pub game: GameConfig,
    pub operating: OperatingConfig,
}

impl ServerConfig {
    /// All settings but the game's name have their defaults.
    pub open spec fn is_default_but_name(&self) -> bool {
        &&& self.bind_address@ == "0.0.0.0"@
        &&& self.bind_port is None
        &&& self.public_address is None
        &&& self.public_port == 2001
        &&& self.a2s.is_default()
        &&& self.rcon.is_default()
        &&& self.game.is_default_but_name()
        &&& self.operating.is_default()
    }

    pub open spec fn is_default(&self) -> bool {
        &&& self.is_default_but_name()
        &&& self.game.name@.len() == 0
    }

    /// The configuration of a new server called `title`: the defaults, with
    /// the game named after the server.
    pub fn titled(title: String) -> (r: Self)
        ensures
            r.is_default_but_name(),
            r.game.name == title,
    {
        let mut config = ServerConfig::default();
        config.game.name = title;
        config
    }
}

impl Default for ServerConfig {
    fn default() -> (r: Self)
        ensures
            r.is_default(),
    {
        ServerConfig {
            bind_address: String::from_str("0.0.0.0"),
            bind_port: None,
            public_address: None,
            public_port: 2001,
            a2s: A2SConfig::default(),
            rcon: RconConfig::default(),
            game: GameConfig::default(),
            operating: OperatingConfig::default(),
        }
    }
}

} // verus!
