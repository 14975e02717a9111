//! The settings of a Minecraft server (`server.properties`) as the launcher
//! exchanges them with clients: reading them from the file's text, checking
//! them, and turning them into key/value updates.

use vstd::prelude::*;

use crate::properties_format::{lookup, lookup_exec, pairs_view, text_entries, text_entries_exec, updates_view, Entry};
use crate::text::{chars_eq, chars_of, dec_int, fmt_i32, fmt_u16, parse_i32, parse_i32_chars, parse_u16, parse_u16_chars, string_of};

verus! {

/// The settings of a server; a field is `None` when the setting is absent.
#[derive(Debug, Clone)]
pub struct ServerProperties {
    pub accepts_transfers: Option<bool>,
    pub allow_flight: Option<bool>,
    pub allow_nether: Option<bool>,
    pub broadcast_console_to_ops: Option<bool>,
    pub broadcast_rcon_to_ops: Option<bool>,
    pub bug_report_link: Option<String>,
    pub chat_spam_threshold_seconds: Option<i32>,
    pub command_spam_threshold_seconds: Option<i32>,
    pub difficulty: Option<String>,
    pub enable_command_block: Option<bool>,
    pub enable_jmx_monitoring: Option<bool>,
    pub enable_query: Option<bool>,
    pub enable_rcon: Option<bool>,
    pub enable_status: Option<bool>,
    pub enforce_secure_profile: Option<bool>,
    pub enforce_whitelist: Option<bool>,
    pub entity_broadcast_range_percentage: Option<i32>,
    pub force_gamemode: Option<bool>,
    pub function_permission_level: Option<i32>,
    pub gamemode: Option<String>,
    pub generate_structures: Option<bool>,
    pub generator_settings: Option<String>,
    pub hardcore: Option<bool>,
    pub hide_online_players: Option<bool>,
    pub initial_disabled_packs: Option<String>,
    pub initial_enabled_packs: Option<String>,
    pub level_name: Option<String>,
    pub level_seed: Option<String>,
    pub level_type: Option<String>,
    pub log_ips: Option<bool>,
    pub management_server_allowed_origins: Option<String>,
    pub management_server_enabled: Option<bool>,
    pub management_server_host: Option<String>,
    pub management_server_port: Option<i32>,
    pub management_server_secret: Option<String>,
    pub management_server_tls_enabled: Option<bool>,
    pub management_server_tls_keystore: Option<String>,
    pub management_server_tls_keystore_password: Option<String>,
    pub max_chained_neighbor_updates: Option<i32>,
    pub max_players: Option<i32>,
    pub max_tick_time: Option<i32>,
    pub max_world_size: Option<i32>,
    pub motd: Option<String>,
    pub network_compression_threshold: Option<i32>,
    pub online_mode: Option<bool>,
    pub op_permission_level: Option<i32>,
    pub pause_when_empty_seconds: Option<i32>,
    pub player_idle_timeout: Option<i32>,
    pub prevent_proxy_connections: Option<bool>,
    pub query_port: Option<u16>,
    pub rate_limit: Option<i32>,
    pub rcon_password: Option<String>,
    pub rcon_port: Option<u16>,
    pub region_file_compression: Option<String>,
    pub require_resource_pack: Option<bool>,
    pub resource_pack: Option<String>,
    pub resource_pack_id: Option<String>,
    pub resource_pack_prompt: Option<String>,
    pub resource_pack_sha1: Option<String>,
    pub server_ip: Option<String>,
    pub server_port: Option<u16>,
    pub simulation_distance: Option<i32>,
    pub spawn_monsters: Option<bool>,
    pub spawn_protection: Option<i32>,
    pub status_heartbeat_interval: Option<i32>,
    pub sync_chunk_writes: Option<bool>,
    pub text_filtering_config: Option<String>,
    pub text_filtering_version: Option<i32>,
    pub use_native_transport: Option<bool>,
    pub view_distance: Option<i32>,
    pub white_list: Option<bool>,
    pub pvp: Option<bool>,
}

/// A boolean setting as the file spells it: exactly `true` or `false`.
pub open spec fn bool_value(v: Option<Seq<char>>) -> Option<bool> {
    match v {
        Some(s) => if s == "true"@ {
            Some(true)
        } else if s == "false"@ {
            Some(false)
        } else {
            None
        },
        None => None,
    }
}

/// An `i32` setting: the value parsed as `str::parse::<i32>` does.
pub open spec fn i32_value(v: Option<Seq<char>>) -> Option<i32> {
    match v {
        Some(s) => parse_i32(s),
        None => None,
    }
}

/// A `u16` setting: the value parsed as `str::parse::<u16>` does.
pub open spec fn u16_value(v: Option<Seq<char>>) -> Option<u16> {
    match v {
        Some(s) => parse_u16(s),
        None => None,
    }
}

/// The characters of an optional string.
pub open spec fn opt_chars(o: Option<String>) -> Option<Seq<char>> {
    match o {
        Some(s) => Some(s@),
        None => None,
    }
}

/// The text of a boolean setting.
pub open spec fn bool_text(v: Option<bool>) -> Option<Seq<char>> {
    match v {
        Some(b) => Some(if b { "true"@ } else { "false"@ }),
        None => None,
    }
}

/// The text of an `i32` setting (`i32::to_string`).
pub open spec fn i32_text(v: Option<i32>) -> Option<Seq<char>> {
    match v {
        Some(x) => Some(dec_int(x as int)),
        None => None,
    }
}

/// The text of a `u16` setting (`u16::to_string`).
pub open spec fn u16_text(v: Option<u16>) -> Option<Seq<char>> {
    match v {
        Some(x) => Some(dec_int(x as int)),
        None => None,
    }
}

/// `u` followed by the entry `(k, t)` when there is a text `t`.
pub open spec fn push_opt(u: Seq<Entry>, k: Seq<char>, t: Option<Seq<char>>) -> Seq<Entry> {
    match t {
        Some(x) => u.push((k, x)),
        None => u,
    }
}

/// The number of settings.
pub open spec fn num_fields() -> nat {
    72
}

/// The key of the `i`-th setting in the file.
pub open spec fn field_key(i: int) -> Seq<char> {
    if i == 0 {
        "accepts-transfers"@
    } else if i == 1 {
        "allow-flight"@
    } else if i == 2 {
        "allow-nether"@
    } else if i == 3 {
        "broadcast-console-to-ops"@
    } else if i == 4 {
        "broadcast-rcon-to-ops"@
    } else if i == 5 {
        "bug-report-link"@
    } else if i == 6 {
        "chat-spam-threshold-seconds"@
    } else if i == 7 {
        "command-spam-threshold-seconds"@
    } else if i == 8 {
        "difficulty"@
    } else if i == 9 {
        "enable-command-block"@
    } else if i == 10 {
        "enable-jmx-monitoring"@
    } else if i == 11 {
        "enable-query"@
    } else if i == 12 {
        "enable-rcon"@
    } else if i == 13 {
        "enable-status"@
    } else if i == 14 {
        "enforce-secure-profile"@
    } else if i == 15 {
        "enforce-whitelist"@
    } else if i == 16 {
        "entity-broadcast-range-percentage"@
    } else if i == 17 {
        "force-gamemode"@
    } else if i == 18 {
        "function-permission-level"@
    } else if i == 19 {
        "gamemode"@
    } else if i == 20 {
        "generate-structures"@
    } else if i == 21 {
        "generator-settings"@
    } else if i == 22 {
        "hardcore"@
    } else if i == 23 {
        "hide-online-players"@
    } else if i == 24 {
        "initial-disabled-packs"@
    } else if i == 25 {
        "initial-enabled-packs"@
    } else if i == 26 {
        "level-name"@
    } else if i == 27 {
        "level-seed"@
    } else if i == 28 {
        "level-type"@
    } else if i == 29 {
        "log-ips"@
    } else if i == 30 {
        "management-server-allowed-origins"@
    } else if i == 31 {
        "management-server-enabled"@
    } else if i == 32 {
        "management-server-host"@
    } else if i == 33 {
        "management-server-port"@
    } else if i == 34 {
        "management-server-secret"@
    } else if i == 35 {
        "management-server-tls-enabled"@
    } else if i == 36 {
        "management-server-tls-keystore"@
    } else if i == 37 {
        "management-server-tls-keystore-password"@
    } else if i == 38 {
        "max-chained-neighbor-updates"@
    } else if i == 39 {
        "max-players"@
    } else if i == 40 {
        "max-tick-time"@
    } else if i == 41 {
        "max-world-size"@
    } else if i == 42 {
        "motd"@
    } else if i == 43 {
        "network-compression-threshold"@
    } else if i == 44 {
        "online-mode"@
    } else if i == 45 {
        "op-permission-level"@
    } else if i == 46 {
        "pause-when-empty-seconds"@
    } else if i == 47 {
        "player-idle-timeout"@
    } else if i == 48 {
        "prevent-proxy-connections"@
    } else if i == 49 {
        "query.port"@
    } else if i == 50 {
        "rate-limit"@
    } else if i == 51 {
        "rcon.password"@
    } else if i == 52 {
        "rcon.port"@
    } else if i == 53 {
        "region-file-compression"@
    } else if i == 54 {
        "require-resource-pack"@
    } else if i == 55 {
        "resource-pack"@
    } else if i == 56 {
        "resource-pack-id"@
    } else if i == 57 {
        "resource-pack-prompt"@
    } else if i == 58 {
        "resource-pack-sha1"@
    } else if i == 59 {
        "server-ip"@
    } else if i == 60 {
        "server-port"@
    } else if i == 61 {
        "simulation-distance"@
    } else if i == 62 {
        "spawn-monsters"@
    } else if i == 63 {
        "spawn-protection"@
    } else if i == 64 {
        "status-heartbeat-interval"@
    } else if i == 65 {
        "sync-chunk-writes"@
    } else if i == 66 {
        "text-filtering-config"@
    } else if i == 67 {
        "text-filtering-version"@
    } else if i == 68 {
        "use-native-transport"@
    } else if i == 69 {
        "view-distance"@
    } else if i == 70 {
        "white-list"@
    } else {
        "pvp"@
    }
}

/// The message of the first port setting that is zero, in the order
/// server port, RCON port, query port.
pub open spec fn port_error(server_port: Option<u16>, rcon_port: Option<u16>, query_port: Option<u16>) -> Option<Seq<char>> {
    if server_port == Some(0u16) {
        Some("server-port"@ + " must be between 1 and 65535"@)
    } else if rcon_port == Some(0u16) {
        Some("rcon.port"@ + " must be between 1 and 65535"@)
    } else if query_port == Some(0u16) {
        Some("query.port"@ + " must be between 1 and 65535"@)
    } else {
        None
    }
}

/// Only a zero port is refused, and the message names the first zero port
/// (server port, then RCON port, then query port).
pub proof fn law_port_error(server_port: Option<u16>, rcon_port: Option<u16>, query_port: Option<u16>)
    ensures
        port_error(server_port, rcon_port, query_port) is None <==> (server_port != Some(0u16)
            && rcon_port != Some(0u16) && query_port != Some(0u16)),
        server_port == Some(0u16) ==> port_error(server_port, rcon_port, query_port) == Some(
            "server-port must be between 1 and 65535"@,
        ),
        server_port != Some(0u16) && rcon_port == Some(0u16) ==> port_error(
            server_port,
            rcon_port,
            query_port,
        ) == Some("rcon.port must be between 1 and 65535"@),
        server_port != Some(0u16) && rcon_port != Some(0u16) && query_port == Some(0u16)
            ==> port_error(server_port, rcon_port, query_port) == Some(
            "query.port must be between 1 and 65535"@,
        ),
{
    reveal_strlit("server-port");
    reveal_strlit("rcon.port");
    reveal_strlit("query.port");
    reveal_strlit(" must be between 1 and 65535");
    reveal_strlit("server-port must be between 1 and 65535");
    reveal_strlit("rcon.port must be between 1 and 65535");
    reveal_strlit("query.port must be between 1 and 65535");
    assert("server-port"@ + " must be between 1 and 65535"@ =~= "server-port must be between 1 and 65535"@);
    assert("rcon.port"@ + " must be between 1 and 65535"@ =~= "rcon.port must be between 1 and 65535"@);
    assert("query.port"@ + " must be between 1 and 65535"@ =~= "query.port must be between 1 and 65535"@);
}

fn get_bool(es: &Vec<(Vec<char>, Vec<char>)>, key: &str) -> (r: Option<bool>)
    ensures
        r == bool_value(lookup(pairs_view(es@), key@)),
{
    let k = chars_of(key);
    match lookup_exec(es, &k) {
        Some(v) => {
            let t = chars_of("true");
            let f = chars_of("false");
            if chars_eq(&v, &t) {
                Some(true)
            } else if chars_eq(&v, &f) {
                Some(false)
            } else {
                None
            }
        },
        None => None,
    }
}

fn get_i32(es: &Vec<(Vec<char>, Vec<char>)>, key: &str) -> (r: Option<i32>)
    ensures
        r == i32_value(lookup(pairs_view(es@), key@)),
{
    let k = chars_of(key);
    match lookup_exec(es, &k) {
        Some(v) => parse_i32_chars(&v),
        None => None,
    }
}

fn get_u16(es: &Vec<(Vec<char>, Vec<char>)>, key: &str) -> (r: Option<u16>)
    ensures
        r == u16_value(lookup(pairs_view(es@), key@)),
{
    let k = chars_of(key);
    match lookup_exec(es, &k) {
        Some(v) => parse_u16_chars(&v),
        None => None,
    }
}

fn get_str(es: &Vec<(Vec<char>, Vec<char>)>, key: &str) -> (r: Option<String>)
    ensures
        opt_chars(r) == lookup(pairs_view(es@), key@),
{
    let k = chars_of(key);
    match lookup_exec(es, &k) {
        Some(v) => Some(string_of(&v)),
        None => None,
    }
}

fn push_bool(u: &mut Vec<(&'static str, String)>, key: &'static str, v: Option<bool>)
    ensures
        updates_view(final(u)@) == push_opt(updates_view(old(u)@), key@, bool_text(v)),
{
    if let Some(b) = v {
        let s = if b { "true".to_owned() } else { "false".to_owned() };
        let ghost o = u@;
        u.push((key, s));
        assert(updates_view(u@) =~= updates_view(o).push((key@, s@)));
    }
}

fn push_i32(u: &mut Vec<(&'static str, String)>, key: &'static str, v: Option<i32>)
    ensures
        updates_view(final(u)@) == push_opt(updates_view(old(u)@), key@, i32_text(v)),
{
    if let Some(x) = v {
        let s = fmt_i32(x);
        let ghost o = u@;
        u.push((key, s));
        assert(updates_view(u@) =~= updates_view(o).push((key@, s@)));
    }
}

fn push_u16(u: &mut Vec<(&'static str, String)>, key: &'static str, v: Option<u16>)
    ensures
        updates_view(final(u)@) == push_opt(updates_view(old(u)@), key@, u16_text(v)),
{
    if let Some(x) = v {
        let s = fmt_u16(x);
        let ghost o = u@;
        u.push((key, s));
        assert(updates_view(u@) =~= updates_view(o).push((key@, s@)));
    }
}

fn push_str(u: &mut Vec<(&'static str, String)>, key: &'static str, v: &Option<String>)
    ensures
        updates_view(final(u)@) == push_opt(updates_view(old(u)@), key@, opt_chars(*v)),
{
    if let Some(s) = v {
        let c = s.clone();
        let ghost o = u@;
        u.push((key, c));
        assert(updates_view(u@) =~= updates_view(o).push((key@, c@)));
    }
}

impl ServerProperties {
    /// Whether every setting is the one that the entries `es` give its key.
    pub open spec fn reads_from(self, es: Seq<Entry>) -> bool {
        &&& self.accepts_transfers == bool_value(lookup(es, "accepts-transfers"@))
        &&& self.allow_flight == bool_value(lookup(es, "allow-flight"@))
        &&& self.allow_nether == bool_value(lookup(es, "allow-nether"@))
        &&& self.broadcast_console_to_ops == bool_value(lookup(es, "broadcast-console-to-ops"@))
        &&& self.broadcast_rcon_to_ops == bool_value(lookup(es, "broadcast-rcon-to-ops"@))
        &&& opt_chars(self.bug_report_link) == lookup(es, "bug-report-link"@)
        &&& self.chat_spam_threshold_seconds == i32_value(lookup(es, "chat-spam-threshold-seconds"@))
        &&& self.command_spam_threshold_seconds == i32_value(lookup(es, "command-spam-threshold-seconds"@))
        &&& opt_chars(self.difficulty) == lookup(es, "difficulty"@)
        &&& self.enable_command_block == bool_value(lookup(es, "enable-command-block"@))
        &&& self.enable_jmx_monitoring == bool_value(lookup(es, "enable-jmx-monitoring"@))
        &&& self.enable_query == bool_value(lookup(es, "enable-query"@))
        &&& self.enable_rcon == bool_value(lookup(es, "enable-rcon"@))
        &&& self.enable_status == bool_value(lookup(es, "enable-status"@))
        &&& self.enforce_secure_profile == bool_value(lookup(es, "enforce-secure-profile"@))
        &&& self.enforce_whitelist == bool_value(lookup(es, "enforce-whitelist"@))
        &&& self.entity_broadcast_range_percentage == i32_value(lookup(es, "entity-broadcast-range-percentage"@))
        &&& self.force_gamemode == bool_value(lookup(es, "force-gamemode"@))
        &&& self.function_permission_level == i32_value(lookup(es, "function-permission-level"@))
        &&& opt_chars(self.gamemode) == lookup(es, "gamemode"@)
        &&& self.generate_structures == bool_value(lookup(es, "generate-structures"@))
        &&& opt_chars(self.generator_settings) == lookup(es, "generator-settings"@)
        &&& self.hardcore == bool_value(lookup(es, "hardcore"@))
        &&& self.hide_online_players == bool_value(lookup(es, "hide-online-players"@))
        &&& opt_chars(self.initial_disabled_packs) == lookup(es, "initial-disabled-packs"@)
        &&& opt_chars(self.initial_enabled_packs) == lookup(es, "initial-enabled-packs"@)
        &&& opt_chars(self.level_name) == lookup(es, "level-name"@)
        &&& opt_chars(self.level_seed) == lookup(es, "level-seed"@)
        &&& opt_chars(self.level_type) == lookup(es, "level-type"@)
        &&& self.log_ips == bool_value(lookup(es, "log-ips"@))
        &&& opt_chars(self.management_server_allowed_origins) == lookup(es, "management-server-allowed-origins"@)
        &&& self.management_server_enabled == bool_value(lookup(es, "management-server-enabled"@))
        &&& opt_chars(self.management_server_host) == lookup(es, "management-server-host"@)
        &&& self.management_server_port == i32_value(lookup(es, "management-server-port"@))
        &&& opt_chars(self.management_server_secret) == lookup(es, "management-server-secret"@)
        &&& self.management_server_tls_enabled == bool_value(lookup(es, "management-server-tls-enabled"@))
        &&& opt_chars(self.management_server_tls_keystore) == lookup(es, "management-server-tls-keystore"@)
        &&& opt_chars(self.management_server_tls_keystore_password) == lookup(es, "management-server-tls-keystore-password"@)
        &&& self.max_chained_neighbor_updates == i32_value(lookup(es, "max-chained-neighbor-updates"@))
        &&& self.max_players == i32_value(lookup(es, "max-players"@))
        &&& self.max_tick_time == i32_value(lookup(es, "max-tick-time"@))
        &&& self.max_world_size == i32_value(lookup(es, "max-world-size"@))
        &&& opt_chars(self.motd) == lookup(es, "motd"@)
        &&& self.network_compression_threshold == i32_value(lookup(es, "network-compression-threshold"@))
        &&& self.online_mode == bool_value(lookup(es, "online-mode"@))
        &&& self.op_permission_level == i32_value(lookup(es, "op-permission-level"@))
        &&& self.pause_when_empty_seconds == i32_value(lookup(es, "pause-when-empty-seconds"@))
        &&& self.player_idle_timeout == i32_value(lookup(es, "player-idle-timeout"@))
        &&& self.prevent_proxy_connections == bool_value(lookup(es, "prevent-proxy-connections"@))
        &&& self.query_port == u16_value(lookup(es, "query.port"@))
        &&& self.rate_limit == i32_value(lookup(es, "rate-limit"@))
        &&& opt_chars(self.rcon_password) == lookup(es, "rcon.password"@)
        &&& self.rcon_port == u16_value(lookup(es, "rcon.port"@))
        &&& opt_chars(self.region_file_compression) == lookup(es, "region-file-compression"@)
        &&& self.require_resource_pack == bool_value(lookup(es, "require-resource-pack"@))
        &&& opt_chars(self.resource_pack) == lookup(es, "resource-pack"@)
        &&& opt_chars(self.resource_pack_id) == lookup(es, "resource-pack-id"@)
        &&& opt_chars(self.resource_pack_prompt) == lookup(es, "resource-pack-prompt"@)
        &&& opt_chars(self.resource_pack_sha1) == lookup(es, "resource-pack-sha1"@)
        &&& opt_chars(self.server_ip) == lookup(es, "server-ip"@)
        &&& self.server_port == u16_value(lookup(es, "server-port"@))
        &&& self.simulation_distance == i32_value(lookup(es, "simulation-distance"@))
        &&& self.spawn_monsters == bool_value(lookup(es, "spawn-monsters"@))
        &&& self.spawn_protection == i32_value(lookup(es, "spawn-protection"@))
        &&& self.status_heartbeat_interval == i32_value(lookup(es, "status-heartbeat-interval"@))
        &&& self.sync_chunk_writes == bool_value(lookup(es, "sync-chunk-writes"@))
        &&& opt_chars(self.text_filtering_config) == lookup(es, "text-filtering-config"@)
        &&& self.text_filtering_version == i32_value(lookup(es, "text-filtering-version"@))
        &&& self.use_native_transport == bool_value(lookup(es, "use-native-transport"@))
        &&& self.view_distance == i32_value(lookup(es, "view-distance"@))
        &&& self.white_list == bool_value(lookup(es, "white-list"@))
        &&& self.pvp == bool_value(lookup(es, "pvp"@))
    }

    /// The text of the `i`-th setting, when it is present.
    pub open spec fn field_text(self, i: int) -> Option<Seq<char>> {
        if i == 0 {
            bool_text(self.accepts_transfers)
        } else if i == 1 {
            bool_text(self.allow_flight)
        } else if i == 2 {
            bool_text(self.allow_nether)
        } else if i == 3 {
            bool_text(self.broadcast_console_to_ops)
        } else if i == 4 {
            bool_text(self.broadcast_rcon_to_ops)
        } else if i == 5 {
            opt_chars(self.bug_report_link)
        } else if i == 6 {
            i32_text(self.chat_spam_threshold_seconds)
        } else if i == 7 {
            i32_text(self.command_spam_threshold_seconds)
        } else if i == 8 {
            opt_chars(self.difficulty)
        } else if i == 9 {
            bool_text(self.enable_command_block)
        } else if i == 10 {
            bool_text(self.enable_jmx_monitoring)
        } else if i == 11 {
            bool_text(self.enable_query)
        } else if i == 12 {
            bool_text(self.enable_rcon)
        } else if i == 13 {
            bool_text(self.enable_status)
        } else if i == 14 {
            bool_text(self.enforce_secure_profile)
        } else if i == 15 {
            bool_text(self.enforce_whitelist)
        } else if i == 16 {
            i32_text(self.entity_broadcast_range_percentage)
        } else if i == 17 {
            bool_text(self.force_gamemode)
        } else if i == 18 {
            i32_text(self.function_permission_level)
        } else if i == 19 {
            opt_chars(self.gamemode)
        } else if i == 20 {
            bool_text(self.generate_structures)
        } else if i == 21 {
            opt_chars(self.generator_settings)
        } else if i == 22 {
            bool_text(self.hardcore)
        } else if i == 23 {
            bool_text(self.hide_online_players)
        } else if i == 24 {
            opt_chars(self.initial_disabled_packs)
        } else if i == 25 {
            opt_chars(self.initial_enabled_packs)
        } else if i == 26 {
            opt_chars(self.level_name)
        } else if i == 27 {
            opt_chars(self.level_seed)
        } else if i == 28 {
            opt_chars(self.level_type)
        } else if i == 29 {
            bool_text(self.log_ips)
        } else if i == 30 {
            opt_chars(self.management_server_allowed_origins)
        } else if i == 31 {
            bool_text(self.management_server_enabled)
        } else if i == 32 {
            opt_chars(self.management_server_host)
        } else if i == 33 {
            i32_text(self.management_server_port)
        } else if i == 34 {
            opt_chars(self.management_server_secret)
        } else if i == 35 {
            bool_text(self.management_server_tls_enabled)
        } else if i == 36 {
            opt_chars(self.management_server_tls_keystore)
        } else if i == 37 {
            opt_chars(self.management_server_tls_keystore_password)
        } else if i == 38 {
            i32_text(self.max_chained_neighbor_updates)
        } else if i == 39 {
            i32_text(self.max_players)
        } else if i == 40 {
            i32_text(self.max_tick_time)
        } else if i == 41 {
            i32_text(self.max_world_size)
        } else if i == 42 {
            opt_chars(self.motd)
        } else if i == 43 {
            i32_text(self.network_compression_threshold)
        } else if i == 44 {
            bool_text(self.online_mode)
        } else if i == 45 {
            i32_text(self.op_permission_level)
        } else if i == 46 {
            i32_text(self.pause_when_empty_seconds)
        } else if i == 47 {
            i32_text(self.player_idle_timeout)
        } else if i == 48 {
            bool_text(self.prevent_proxy_connections)
        } else if i == 49 {
            u16_text(self.query_port)
        } else if i == 50 {
            i32_text(self.rate_limit)
        } else if i == 51 {
            opt_chars(self.rcon_password)
        } else if i == 52 {
            u16_text(self.rcon_port)
        } else if i == 53 {
            opt_chars(self.region_file_compression)
        } else if i == 54 {
            bool_text(self.require_resource_pack)
        } else if i == 55 {
            opt_chars(self.resource_pack)
        } else if i == 56 {
            opt_chars(self.resource_pack_id)
        } else if i == 57 {
            opt_chars(self.resource_pack_prompt)
        } else if i == 58 {
            opt_chars(self.resource_pack_sha1)
        } else if i == 59 {
            opt_chars(self.server_ip)
        } else if i == 60 {
            u16_text(self.server_port)
        } else if i == 61 {
            i32_text(self.simulation_distance)
        } else if i == 62 {
            bool_text(self.spawn_monsters)
        } else if i == 63 {
            i32_text(self.spawn_protection)
        } else if i == 64 {
            i32_text(self.status_heartbeat_interval)
        } else if i == 65 {
            bool_text(self.sync_chunk_writes)
        } else if i == 66 {
            opt_chars(self.text_filtering_config)
        } else if i == 67 {
            i32_text(self.text_filtering_version)
        } else if i == 68 {
            bool_text(self.use_native_transport)
        } else if i == 69 {
            i32_text(self.view_distance)
        } else if i == 70 {
            bool_text(self.white_list)
        } else {
            bool_text(self.pvp)
        }
    }

    /// The updates of the first `n` settings, those that are present.
    pub open spec fn updates_upto(self, n: nat) -> Seq<Entry>
        decreases n,
    {
        if n == 0 {
            Seq::empty()
        } else {
            push_opt(self.updates_upto((n - 1) as nat), field_key(n - 1), self.field_text(n - 1))
        }
    }

    /// The updates that the present settings stand for, in field order.
    pub open spec fn updates_spec(self) -> Seq<Entry> {
        self.updates_upto(num_fields())
    }

    /// Parse a `.properties` file content into a `ServerProperties` struct.
    /// Unknown keys are silently ignored.
    pub fn from_str(content: &str) -> (r: Self)
        ensures
            r.reads_from(text_entries(content@)),
    {
        let es = text_entries_exec(content);
        ServerProperties {
            accepts_transfers: get_bool(&es, "accepts-transfers"),
            allow_flight: get_bool(&es, "allow-flight"),
            allow_nether: get_bool(&es, "allow-nether"),
            broadcast_console_to_ops: get_bool(&es, "broadcast-console-to-ops"),
            broadcast_rcon_to_ops: get_bool(&es, "broadcast-rcon-to-ops"),
            bug_report_link: get_str(&es, "bug-report-link"),
            chat_spam_threshold_seconds: get_i32(&es, "chat-spam-threshold-seconds"),
            command_spam_threshold_seconds: get_i32(&es, "command-spam-threshold-seconds"),
            difficulty: get_str(&es, "difficulty"),
            enable_command_block: get_bool(&es, "enable-command-block"),
            enable_jmx_monitoring: get_bool(&es, "enable-jmx-monitoring"),
            enable_query: get_bool(&es, "enable-query"),
            enable_rcon: get_bool(&es, "enable-rcon"),
            enable_status: get_bool(&es, "enable-status"),
            enforce_secure_profile: get_bool(&es, "enforce-secure-profile"),
            enforce_whitelist: get_bool(&es, "enforce-whitelist"),
            entity_broadcast_range_percentage: get_i32(&es, "entity-broadcast-range-percentage"),
            force_gamemode: get_bool(&es, "force-gamemode"),
            function_permission_level: get_i32(&es, "function-permission-level"),
            gamemode: get_str(&es, "gamemode"),
            generate_structures: get_bool(&es, "generate-structures"),
            generator_settings: get_str(&es, "generator-settings"),
            hardcore: get_bool(&es, "hardcore"),
            hide_online_players: get_bool(&es, "hide-online-players"),
            initial_disabled_packs: get_str(&es, "initial-disabled-packs"),
            initial_enabled_packs: get_str(&es, "initial-enabled-packs"),
            level_name: get_str(&es, "level-name"),
            level_seed: get_str(&es, "level-seed"),
            level_type: get_str(&es, "level-type"),
            log_ips: get_bool(&es, "log-ips"),
            management_server_allowed_origins: get_str(&es, "management-server-allowed-origins"),
            management_server_enabled: get_bool(&es, "management-server-enabled"),
            management_server_host: get_str(&es, "management-server-host"),
            management_server_port: get_i32(&es, "management-server-port"),
            management_server_secret: get_str(&es, "management-server-secret"),
            management_server_tls_enabled: get_bool(&es, "management-server-tls-enabled"),
            management_server_tls_keystore: get_str(&es, "management-server-tls-keystore"),
            management_server_tls_keystore_password: get_str(&es, "management-server-tls-keystore-password"),
            max_chained_neighbor_updates: get_i32(&es, "max-chained-neighbor-updates"),
            max_players: get_i32(&es, "max-players"),
            max_tick_time: get_i32(&es, "max-tick-time"),
            max_world_size: get_i32(&es, "max-world-size"),
            motd: get_str(&es, "motd"),
            network_compression_threshold: get_i32(&es, "network-compression-threshold"),
            online_mode: get_bool(&es, "online-mode"),
            op_permission_level: get_i32(&es, "op-permission-level"),
            pause_when_empty_seconds: get_i32(&es, "pause-when-empty-seconds"),
            player_idle_timeout: get_i32(&es, "player-idle-timeout"),
            prevent_proxy_connections: get_bool(&es, "prevent-proxy-connections"),
            query_port: get_u16(&es, "query.port"),
            rate_limit: get_i32(&es, "rate-limit"),
            rcon_password: get_str(&es, "rcon.password"),
            rcon_port: get_u16(&es, "rcon.port"),
            region_file_compression: get_str(&es, "region-file-compression"),
            require_resource_pack: get_bool(&es, "require-resource-pack"),
            resource_pack: get_str(&es, "resource-pack"),
            resource_pack_id: get_str(&es, "resource-pack-id"),
            resource_pack_prompt: get_str(&es, "resource-pack-prompt"),
            resource_pack_sha1: get_str(&es, "resource-pack-sha1"),
            server_ip: get_str(&es, "server-ip"),
            server_port: get_u16(&es, "server-port"),
            simulation_distance: get_i32(&es, "simulation-distance"),
            spawn_monsters: get_bool(&es, "spawn-monsters"),
            spawn_protection: get_i32(&es, "spawn-protection"),
            status_heartbeat_interval: get_i32(&es, "status-heartbeat-interval"),
            sync_chunk_writes: get_bool(&es, "sync-chunk-writes"),
            text_filtering_config: get_str(&es, "text-filtering-config"),
            text_filtering_version: get_i32(&es, "text-filtering-version"),
            use_native_transport: get_bool(&es, "use-native-transport"),
            view_distance: get_i32(&es, "view-distance"),
            white_list: get_bool(&es, "white-list"),
            pvp: get_bool(&es, "pvp"),
        }
    }

    /// Checks the port settings: each that is present must be at least 1.
    pub fn validate(&self) -> (r: Result<(), String>)
        ensures
            match port_error(self.server_port, self.rcon_port, self.query_port) {
                Some(m) => r matches Err(e) && e@ == m,
                None => r is Ok,
            },
            r is Ok <==> (self.server_port != Some(0u16) && self.rcon_port != Some(0u16)
                && self.query_port != Some(0u16)),
    {
        proof {
            law_port_error(self.server_port, self.rcon_port, self.query_port);
        }
        let name: &str;
        if self.server_port == Some(0u16) {
            name = "server-port";
        } else if self.rcon_port == Some(0u16) {
            name = "rcon.port";
        } else if self.query_port == Some(0u16) {
            name = "query.port";
        } else {
            return Ok(());
        }
        let mut msg = name.to_owned();
        msg.append(" must be between 1 and 65535");
        Err(msg)
    }

    /// Collect non-None fields into key–value string pairs ready for
    /// serialisation into a `.properties` file.
    pub fn to_updates(&self) -> (r: Vec<(&'static str, String)>)
        ensures
            updates_view(r@) == self.updates_spec(),
    {
        let mut updates: Vec<(&'static str, String)> = Vec::new();
        assert(updates_view(updates@) =~= self.updates_upto(0));
        push_bool(&mut updates, "accepts-transfers", self.accepts_transfers);
        assert(updates_view(updates@) == self.updates_upto(1));
        push_bool(&mut updates, "allow-flight", self.allow_flight);
        assert(updates_view(updates@) == self.updates_upto(2));
        push_bool(&mut updates, "allow-nether", self.allow_nether);
        assert(updates_view(updates@) == self.updates_upto(3));
        push_bool(&mut updates, "broadcast-console-to-ops", self.broadcast_console_to_ops);
        assert(updates_view(updates@) == self.updates_upto(4));
        push_bool(&mut updates, "broadcast-rcon-to-ops", self.broadcast_rcon_to_ops);
        assert(updates_view(updates@) == self.updates_upto(5));
        push_str(&mut updates, "bug-report-link", &self.bug_report_link);
        assert(updates_view(updates@) == self.updates_upto(6));
        push_i32(&mut updates, "chat-spam-threshold-seconds", self.chat_spam_threshold_seconds);
        assert(updates_view(updates@) == self.updates_upto(7));
        push_i32(&mut updates, "command-spam-threshold-seconds", self.command_spam_threshold_seconds);
        assert(updates_view(updates@) == self.updates_upto(8));
        push_str(&mut updates, "difficulty", &self.difficulty);
        assert(updates_view(updates@) == self.updates_upto(9));
        push_bool(&mut updates, "enable-command-block", self.enable_command_block);
        assert(updates_view(updates@) == self.updates_upto(10));
        push_bool(&mut updates, "enable-jmx-monitoring", self.enable_jmx_monitoring);
        assert(updates_view(updates@) == self.updates_upto(11));
        push_bool(&mut updates, "enable-query", self.enable_query);
        assert(updates_view(updates@) == self.updates_upto(12));
        push_bool(&mut updates, "enable-rcon", self.enable_rcon);
        assert(updates_view(updates@) == self.updates_upto(13));
        push_bool(&mut updates, "enable-status", self.enable_status);
        assert(updates_view(updates@) == self.updates_upto(14));
        push_bool(&mut updates, "enforce-secure-profile", self.enforce_secure_profile);
        assert(updates_view(updates@) == self.updates_upto(15));
        push_bool(&mut updates, "enforce-whitelist", self.enforce_whitelist);
        assert(updates_view(updates@) == self.updates_upto(16));
        push_i32(&mut updates, "entity-broadcast-range-percentage", self.entity_broadcast_range_percentage);
        assert(updates_view(updates@) == self.updates_upto(17));
        push_bool(&mut updates, "force-gamemode", self.force_gamemode);
        assert(updates_view(updates@) == self.updates_upto(18));
        push_i32(&mut updates, "function-permission-level", self.function_permission_level);
        assert(updates_view(updates@) == self.updates_upto(19));
        push_str(&mut updates, "gamemode", &self.gamemode);
        assert(updates_view(updates@) == self.updates_upto(20));
        push_bool(&mut updates, "generate-structures", self.generate_structures);
        assert(updates_view(updates@) == self.updates_upto(21));
        push_str(&mut updates, "generator-settings", &self.generator_settings);
        assert(updates_view(updates@) == self.updates_upto(22));
        push_bool(&mut updates, "hardcore", self.hardcore);
        assert(updates_view(updates@) == self.updates_upto(23));
        push_bool(&mut updates, "hide-online-players", self.hide_online_players);
        assert(updates_view(updates@) == self.updates_upto(24));
        push_str(&mut updates, "initial-disabled-packs", &self.initial_disabled_packs);
        assert(updates_view(updates@) == self.updates_upto(25));
        push_str(&mut updates, "initial-enabled-packs", &self.initial_enabled_packs);
        assert(updates_view(updates@) == self.updates_upto(26));
        push_str(&mut updates, "level-name", &self.level_name);
        assert(updates_view(updates@) == self.updates_upto(27));
        push_str(&mut updates, "level-seed", &self.level_seed);
        assert(updates_view(updates@) == self.updates_upto(28));
        push_str(&mut updates, "level-type", &self.level_type);
        assert(updates_view(updates@) == self.updates_upto(29));
        push_bool(&mut updates, "log-ips", self.log_ips);
        assert(updates_view(updates@) == self.updates_upto(30));
        push_str(&mut updates, "management-server-allowed-origins", &self.management_server_allowed_origins);
        assert(updates_view(updates@) == self.updates_upto(31));
        push_bool(&mut updates, "management-server-enabled", self.management_server_enabled);
        assert(updates_view(updates@) == self.updates_upto(32));
        push_str(&mut updates, "management-server-host", &self.management_server_host);
        assert(updates_view(updates@) == self.updates_upto(33));
        push_i32(&mut updates, "management-server-port", self.management_server_port);
        assert(updates_view(updates@) == self.updates_upto(34));
        push_str(&mut updates, "management-server-secret", &self.management_server_secret);
        assert(updates_view(updates@) == self.updates_upto(35));
        push_bool(&mut updates, "management-server-tls-enabled", self.management_server_tls_enabled);
        assert(updates_view(updates@) == self.updates_upto(36));
        push_str(&mut updates, "management-server-tls-keystore", &self.management_server_tls_keystore);
        assert(updates_view(updates@) == self.updates_upto(37));
        push_str(&mut updates, "management-server-tls-keystore-password", &self.management_server_tls_keystore_password);
        assert(updates_view(updates@) == self.updates_upto(38));
        push_i32(&mut updates, "max-chained-neighbor-updates", self.max_chained_neighbor_updates);
        assert(updates_view(updates@) == self.updates_upto(39));
        push_i32(&mut updates, "max-players", self.max_players);
        assert(updates_view(updates@) == self.updates_upto(40));
        push_i32(&mut updates, "max-tick-time", self.max_tick_time);
        assert(updates_view(updates@) == self.updates_upto(41));
        push_i32(&mut updates, "max-world-size", self.max_world_size);
        assert(updates_view(updates@) == self.updates_upto(42));
        push_str(&mut updates, "motd", &self.motd);
        assert(updates_view(updates@) == self.updates_upto(43));
        push_i32(&mut updates, "network-compression-threshold", self.network_compression_threshold);
        assert(updates_view(updates@) == self.updates_upto(44));
        push_bool(&mut updates, "online-mode", self.online_mode);
        assert(updates_view(updates@) == self.updates_upto(45));
        push_i32(&mut updates, "op-permission-level", self.op_permission_level);
        assert(updates_view(updates@) == self.updates_upto(46));
        push_i32(&mut updates, "pause-when-empty-seconds", self.pause_when_empty_seconds);
        assert(updates_view(updates@) == self.updates_upto(47));
        push_i32(&mut updates, "player-idle-timeout", self.player_idle_timeout);
        assert(updates_view(updates@) == self.updates_upto(48));
        push_bool(&mut updates, "prevent-proxy-connections", self.prevent_proxy_connections);
        assert(updates_view(updates@) == self.updates_upto(49));
        push_u16(&mut updates, "query.port", self.query_port);
        assert(updates_view(updates@) == self.updates_upto(50));
        push_i32(&mut updates, "rate-limit", self.rate_limit);
        assert(updates_view(updates@) == self.updates_upto(51));
        push_str(&mut updates, "rcon.password", &self.rcon_password);
        assert(updates_view(updates@) == self.updates_upto(52));
        push_u16(&mut updates, "rcon.port", self.rcon_port);
        assert(updates_view(updates@) == self.updates_upto(53));
        push_str(&mut updates, "region-file-compression", &self.region_file_compression);
        assert(updates_view(updates@) == self.updates_upto(54));
        push_bool(&mut updates, "require-resource-pack", self.require_resource_pack);
        assert(updates_view(updates@) == self.updates_upto(55));
        push_str(&mut updates, "resource-pack", &self.resource_pack);
        assert(updates_view(updates@) == self.updates_upto(56));
        push_str(&mut updates, "resource-pack-id", &self.resource_pack_id);
        assert(updates_view(updates@) == self.updates_upto(57));
        push_str(&mut updates, "resource-pack-prompt", &self.resource_pack_prompt);
        assert(updates_view(updates@) == self.updates_upto(58));
        push_str(&mut updates, "resource-pack-sha1", &self.resource_pack_sha1);
        assert(updates_view(updates@) == self.updates_upto(59));
        push_str(&mut updates, "server-ip", &self.server_ip);
        assert(updates_view(updates@) == self.updates_upto(60));
        push_u16(&mut updates, "server-port", self.server_port);
        assert(updates_view(updates@) == self.updates_upto(61));
        push_i32(&mut updates, "simulation-distance", self.simulation_distance);
        assert(updates_view(updates@) == self.updates_upto(62));
        push_bool(&mut updates, "spawn-monsters", self.spawn_monsters);
        assert(updates_view(updates@) == self.updates_upto(63));
        push_i32(&mut updates, "spawn-protection", self.spawn_protection);
        assert(updates_view(updates@) == self.updates_upto(64));
        push_i32(&mut updates, "status-heartbeat-interval", self.status_heartbeat_interval);
        assert(updates_view(updates@) == self.updates_upto(65));
        push_bool(&mut updates, "sync-chunk-writes", self.sync_chunk_writes);
        assert(updates_view(updates@) == self.updates_upto(66));
        push_str(&mut updates, "text-filtering-config", &self.text_filtering_config);
        assert(updates_view(updates@) == self.updates_upto(67));
        push_i32(&mut updates, "text-filtering-version", self.text_filtering_version);
        assert(updates_view(updates@) == self.updates_upto(68));
        push_bool(&mut updates, "use-native-transport", self.use_native_transport);
        assert(updates_view(updates@) == self.updates_upto(69));
        push_i32(&mut updates, "view-distance", self.view_distance);
        assert(updates_view(updates@) == self.updates_upto(70));
        push_bool(&mut updates, "white-list", self.white_list);
        assert(updates_view(updates@) == self.updates_upto(71));
        push_bool(&mut updates, "pvp", self.pvp);
        assert(updates_view(updates@) == self.updates_upto(72));
        updates
    }
}

} // verus!
