use slauncher_backend::properties_format::{line_entry_exec, lookup_exec, text_entries_exec};
use slauncher_backend::routes::apply_properties;
use slauncher_backend::server_properties::ServerProperties;

fn no_settings() -> ServerProperties {
    ServerProperties {
        accepts_transfers: None,
        allow_flight: None,
        allow_nether: None,
        broadcast_console_to_ops: None,
        broadcast_rcon_to_ops: None,
        bug_report_link: None,
        chat_spam_threshold_seconds: None,
        command_spam_threshold_seconds: None,
        difficulty: None,
        enable_command_block: None,
        enable_jmx_monitoring: None,
        enable_query: None,
        enable_rcon: None,
        enable_status: None,
        enforce_secure_profile: None,
        enforce_whitelist: None,
        entity_broadcast_range_percentage: None,
        force_gamemode: None,
        function_permission_level: None,
        gamemode: None,
        generate_structures: None,
        generator_settings: None,
        hardcore: None,
        hide_online_players: None,
        initial_disabled_packs: None,
        initial_enabled_packs: None,
        level_name: None,
        level_seed: None,
        level_type: None,
        log_ips: None,
        management_server_allowed_origins: None,
        management_server_enabled: None,
        management_server_host: None,
        management_server_port: None,
        management_server_secret: None,
        management_server_tls_enabled: None,
        management_server_tls_keystore: None,
        management_server_tls_keystore_password: None,
        max_chained_neighbor_updates: None,
        max_players: None,
        max_tick_time: None,
        max_world_size: None,
        motd: None,
        network_compression_threshold: None,
        online_mode: None,
        op_permission_level: None,
        pause_when_empty_seconds: None,
        player_idle_timeout: None,
        prevent_proxy_connections: None,
        query_port: None,
        rate_limit: None,
        rcon_password: None,
        rcon_port: None,
        region_file_compression: None,
        require_resource_pack: None,
        resource_pack: None,
        resource_pack_id: None,
        resource_pack_prompt: None,
        resource_pack_sha1: None,
        server_ip: None,
        server_port: None,
        simulation_distance: None,
        spawn_monsters: None,
        spawn_protection: None,
        status_heartbeat_interval: None,
        sync_chunk_writes: None,
        text_filtering_config: None,
        text_filtering_version: None,
        use_native_transport: None,
        view_distance: None,
        white_list: None,
        pvp: None,
    }
}

fn cs(s: &str) -> Vec<char> {
    s.chars().collect()
}

const SAMPLE: &str = "#Minecraft server properties\n#Mon Jan 01 00:00:00 UTC 2024\nallow-flight=false\nmotd=A Minecraft Server\nmax-players=20\nserver-port=25565\ndifficulty=easy\npvp=true\nlevel-seed=\nrcon.port=25575\nquery.port=25565\nunknown-key=whatever\n";

#[test]
fn line_entries() {
    assert_eq!(line_entry_exec(&cs("  motd = hi  ")), Some((cs("motd "), cs(" hi"))));
    assert_eq!(line_entry_exec(&cs("# motd=hi")), None);
    assert_eq!(line_entry_exec(&cs("   ")), None);
    assert_eq!(line_entry_exec(&cs("no equals")), None);
    assert_eq!(line_entry_exec(&cs("a=b=c")), Some((cs("a"), cs("b=c"))));
    assert_eq!(line_entry_exec(&cs("=x")), Some((cs(""), cs("x"))));
}

#[test]
fn later_entries_win() {
    let es = text_entries_exec("a=1\nb=2\na=3\n");
    assert_eq!(es.len(), 3);
    assert_eq!(lookup_exec(&es, &cs("a")), Some(cs("3")));
    assert_eq!(lookup_exec(&es, &cs("b")), Some(cs("2")));
    assert_eq!(lookup_exec(&es, &cs("c")), None);
}

#[test]
fn from_str_reads_settings() {
    let p = ServerProperties::from_str(SAMPLE);
    assert_eq!(p.allow_flight, Some(false));
    assert_eq!(p.motd.as_deref(), Some("A Minecraft Server"));
    assert_eq!(p.max_players, Some(20));
    assert_eq!(p.server_port, Some(25565));
    assert_eq!(p.difficulty.as_deref(), Some("easy"));
    assert_eq!(p.pvp, Some(true));
    assert_eq!(p.level_seed.as_deref(), Some(""));
    assert_eq!(p.rcon_port, Some(25575));
    assert_eq!(p.query_port, Some(25565));
    assert_eq!(p.hardcore, None);
    assert_eq!(p.rcon_password, None);
}

#[test]
fn from_str_ignores_malformed_values() {
    let p = ServerProperties::from_str("pvp=yes\nmax-players=lots\nserver-port=70000\nhardcore=TRUE\nview-distance=-3\nrcon.port=-1\n");
    assert_eq!(p.pvp, None);
    assert_eq!(p.max_players, None);
    assert_eq!(p.server_port, None);
    assert_eq!(p.hardcore, None);
    assert_eq!(p.view_distance, Some(-3));
    assert_eq!(p.rcon_port, None);
}

#[test]
fn from_str_trims_lines_and_keeps_last() {
    let p = ServerProperties::from_str("  motd=first  \r\nmotd=second\r\n\tmax-players=5\n# max-players=9\n");
    assert_eq!(p.motd.as_deref(), Some("second"));
    assert_eq!(p.max_players, Some(5));
}

#[test]
fn from_str_of_empty_text_has_no_settings() {
    let p = ServerProperties::from_str("");
    assert!(p.to_updates().is_empty());
}

#[test]
fn unknown_keys_are_ignored() {
    let a = ServerProperties::from_str("motd=x\npvp=false\n");
    let b = ServerProperties::from_str("motd=x\npvp=false\nsomething-else=true\n");
    assert_eq!(a.motd, b.motd);
    assert_eq!(a.pvp, b.pvp);
    assert_eq!(b.to_updates(), a.to_updates());
}

#[test]
fn validate_rejects_zero_ports() {
    let mut p = no_settings();
    assert_eq!(p.validate(), Ok(()));
    p.query_port = Some(0);
    assert_eq!(p.validate(), Err("query.port must be between 1 and 65535".to_string()));
    p.rcon_port = Some(0);
    assert_eq!(p.validate(), Err("rcon.port must be between 1 and 65535".to_string()));
    p.server_port = Some(0);
    assert_eq!(p.validate(), Err("server-port must be between 1 and 65535".to_string()));
    p.server_port = Some(1);
    p.rcon_port = Some(65535);
    p.query_port = None;
    assert_eq!(p.validate(), Ok(()));
}

#[test]
fn to_updates_lists_present_settings_in_order() {
    let mut p = no_settings();
    p.pvp = Some(false);
    p.motd = Some("Hello".to_string());
    p.allow_flight = Some(true);
    p.max_players = Some(-12);
    p.server_port = Some(25565);
    let u = p.to_updates();
    assert_eq!(
        u,
        vec![
            ("allow-flight", "true".to_string()),
            ("max-players", "-12".to_string()),
            ("motd", "Hello".to_string()),
            ("server-port", "25565".to_string()),
            ("pvp", "false".to_string()),
        ]
    );
}

#[test]
fn apply_replaces_and_appends() {
    let content = "# comment\nmotd=old\n\nmax-players=20\nbroken line\n";
    let updates = vec![("motd", "new".to_string()), ("pvp", "true".to_string())];
    assert_eq!(
        apply_properties(content, &updates),
        "# comment\nmotd=new\n\nmax-players=20\nbroken line\npvp=true\n"
    );
}

#[test]
fn apply_with_no_updates_normalises_line_ends() {
    assert_eq!(apply_properties("a=1\r\nb=2", &[]), "a=1\nb=2\n");
    assert_eq!(apply_properties("", &[]), "");
}

#[test]
fn apply_matches_untrimmed_keys_only() {
    let content = "  motd=indented\nmotd =spaced\n";
    let updates = vec![("motd", "x".to_string())];
    assert_eq!(apply_properties(content, &updates), "  motd=indented\nmotd =spaced\nmotd=x\n");
}

#[test]
fn apply_uses_last_duplicate_update() {
    let updates = vec![("motd", "a".to_string()), ("motd", "b".to_string())];
    assert_eq!(apply_properties("motd=old\n", &updates), "motd=b\n");
    assert_eq!(apply_properties("", &updates), "motd=a\nmotd=b\n");
}

#[test]
fn configure_then_read_round_trip() {
    let mut p = no_settings();
    p.motd = Some("Welcome, friends!".to_string());
    p.max_players = Some(-2147483648);
    p.pvp = Some(false);
    p.hardcore = Some(true);
    p.server_port = Some(25566);
    p.rcon_password = Some("s=cr=t".to_string());
    p.level_seed = Some(String::new());
    let new_content = apply_properties(SAMPLE, &p.to_updates());
    let after = ServerProperties::from_str(&new_content);
    let before = ServerProperties::from_str(SAMPLE);
    assert_eq!(after.motd, p.motd);
    assert_eq!(after.max_players, p.max_players);
    assert_eq!(after.pvp, p.pvp);
    assert_eq!(after.hardcore, p.hardcore);
    assert_eq!(after.server_port, p.server_port);
    assert_eq!(after.rcon_password, p.rcon_password);
    assert_eq!(after.level_seed, p.level_seed);
    assert_eq!(after.difficulty, before.difficulty);
    assert_eq!(after.allow_flight, before.allow_flight);
    assert_eq!(after.rcon_port, before.rcon_port);
    assert_eq!(after.query_port, before.query_port);
}

#[test]
fn stale_indented_line_wins_over_rewrite() {
    let mut p = no_settings();
    p.motd = Some("new".to_string());
    let content = "motd=old\n  motd=shadow\n";
    let after = ServerProperties::from_str(&apply_properties(content, &p.to_updates()));
    assert_eq!(after.motd.as_deref(), Some("shadow"));
}

#[test]
fn trailing_whitespace_is_not_read_back() {
    let mut p = no_settings();
    p.motd = Some("padded  ".to_string());
    let after = ServerProperties::from_str(&apply_properties("", &p.to_updates()));
    assert_eq!(after.motd.as_deref(), Some("padded"));
}

#[test]
fn rewriting_twice_is_rewriting_once() {
    let mut p = no_settings();
    p.motd = Some("Hi\r".to_string());
    p.max_players = Some(8);
    p.pvp = Some(true);
    let updates = p.to_updates();
    for content in [SAMPLE, "", "motd=x\n\n# c\n  pvp=false\nbroken\n", "a=1\r\nb=2"] {
        let once = apply_properties(content, &updates);
        assert_eq!(apply_properties(&once, &updates), once, "content {:?}", content);
    }
}

#[test]
fn trailing_carriage_return_is_not_kept_twice() {
    let once = apply_properties("x\r", &[]);
    assert_eq!(once, "x\r\n");
    assert_eq!(apply_properties(&once, &[]), "x\n");
}
