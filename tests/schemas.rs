use harm::schemas::{
    A2SConfig, GameConfig, GamePlatform, GameProperties, JoinQueueConfig, ModConfig, ModError,
    OperatingConfig, RconConfig, RconPermission, ServerConfig,
};
use harm::settings::AppConfig;

#[test]
fn server_config_defaults() {
    let c = ServerConfig::default();
    assert_eq!(c.bind_address, "0.0.0.0");
    assert_eq!(c.bind_port, None);
    assert_eq!(c.public_address, None);
    assert_eq!(c.public_port, 2001);
    assert_eq!(c.a2s, A2SConfig { address: "0.0.0.0".to_string(), port: 17777 });
    assert_eq!(c.rcon.port, 19999);
    assert_eq!(c.rcon.password, "changeme_withoutspaces");
    assert_eq!(c.rcon.max_clients, 16);
    assert_eq!(c.rcon.permission, RconPermission::Monitor);
    assert!(c.rcon.blacklist.is_empty() && c.rcon.whitelist.is_empty());
    assert_eq!(c.game, GameConfig::default());
    assert_eq!(c.operating, OperatingConfig::default());
    assert_eq!(RconConfig::default(), c.rcon);
}

#[test]
fn game_config_defaults() {
    let g = GameConfig::default();
    assert_eq!(g.name, "");
    assert_eq!(g.password, None);
    assert_eq!(g.scenario_id, "{59AD59368755F41A}Missions/21_GM_Eden.conf");
    assert_eq!(g.max_players, 64);
    assert!(g.visible);
    assert!(!g.cross_platform);
    assert_eq!(g.supported_platforms, vec![GamePlatform::PC]);
    assert!(g.mods_required_by_default);
    assert!(g.mods.is_empty());
    let p = GameProperties::default();
    assert_eq!(p.server_max_view_distance, 1600);
    assert_eq!(p.server_min_grass_distance, 50);
    assert_eq!(p.network_view_distance, 1500);
    assert!(p.fast_validation && p.battleye);
    assert!(!p.disable_third_person && !p.von_disable_ui);
    assert_eq!(p.mission_header, None);
    assert_eq!(g.game_properties, p);
    assert_eq!(GamePlatform::default(), GamePlatform::PC);
}

#[test]
fn operating_defaults() {
    let o = OperatingConfig::default();
    assert!(o.lobby_player_synchronise);
    assert_eq!(o.disable_navmesh_streaming, None);
    assert_eq!(o.player_save_time, 120);
    assert_eq!(o.ai_limit, -1);
    assert_eq!(o.slot_reservation_timeout, 60);
    assert_eq!(o.join_queue, JoinQueueConfig { max_size: 50 });
    assert_eq!(JoinQueueConfig::default().max_size, 50);
}

#[test]
fn app_config_and_mod_defaults() {
    let a = AppConfig::default();
    assert_eq!(a.reforger_path, None);
    assert_eq!(a.api_port, 10625);
    let m = ModConfig::default();
    assert_eq!(m.mod_id, "");
    assert!(!m.required);
}

#[test]
fn titled_config_names_the_game() {
    let c = ServerConfig::titled("My server".to_string());
    assert_eq!(c.game.name, "My server");
    let mut expected = ServerConfig::default();
    expected.game.name = "My server".to_string();
    assert_eq!(c, expected);
}

#[test]
fn add_mod_appends_required_mod() {
    let mut g = GameConfig::default();
    assert_eq!(g.add_mod("5965550F24A0C152".to_string(), Some("Where Am I".to_string())), Ok(()));
    assert_eq!(g.add_mod("ABC".to_string(), None), Ok(()));
    assert_eq!(
        g.mods,
        vec![
            ModConfig { mod_id: "5965550F24A0C152".to_string(), name: "Where Am I".to_string(), required: true },
            ModConfig { mod_id: "ABC".to_string(), name: String::new(), required: true },
        ]
    );
}

#[test]
fn add_mod_refuses_duplicate() {
    let mut g = GameConfig::default();
    g.add_mod("ABC".to_string(), None).unwrap();
    let before = g.clone();
    assert_eq!(g.add_mod("ABC".to_string(), Some("again".to_string())), Err(ModError::AlreadyAdded));
    assert_eq!(g, before);
}

#[test]
fn remove_mod_takes_out_the_listed_mod() {
    let mut g = GameConfig::default();
    g.add_mod("A".to_string(), None).unwrap();
    g.add_mod("B".to_string(), None).unwrap();
    g.add_mod("C".to_string(), None).unwrap();
    assert_eq!(g.remove_mod(&"B".to_string()), Ok(()));
    let ids: Vec<&str> = g.mods.iter().map(|m| m.mod_id.as_str()).collect();
    assert_eq!(ids, vec!["A", "C"]);
}

#[test]
fn remove_mod_refuses_unlisted() {
    let mut g = GameConfig::default();
    g.add_mod("A".to_string(), None).unwrap();
    assert_eq!(g.remove_mod(&"Z".to_string()), Err(ModError::NotAdded));
    assert_eq!(g.mods.len(), 1);
}
