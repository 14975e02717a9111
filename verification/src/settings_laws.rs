//! Reading a server's settings back after a client's settings were written
//! into its `server.properties` text.

use vstd::prelude::*;

use crate::laws::{law_read_back_key, lemma_no_stale, no_leading_ws, stale_value, updates_ok};
use crate::properties_format::{
    entries, key_ok, lemma_entries_strip_cr, lemma_lookup_last_line, line_entry, lookup,
    text_entries, Entry,
};
use crate::routes::applied;
use crate::server_properties::{
    bool_text, bool_value, field_key, i32_text, i32_value, num_fields, opt_chars, u16_text,
    u16_value, ServerProperties,
};
use crate::text::{
    join_nl, lemma_lines_join, lemma_parse_i32_dec, lemma_parse_u16_dec, lines, no_nl,
    trim_end,
};

verus! {

/// Whether an optional text setting can be written and read back: no line
/// break, no trailing whitespace.
pub open spec fn text_ok(o: Option<String>) -> bool {
    match o {
        Some(s) => no_nl(s@) && trim_end(s@) == s@,
        None => true,
    }
}

/// A stale value `w` of a boolean setting reads as what was sent.
pub open spec fn agrees_bool(w: Option<Seq<char>>, v: Option<bool>) -> bool {
    v is Some && w is Some ==> bool_value(w) == v
}

/// A stale value `w` of an `i32` setting reads as what was sent.
pub open spec fn agrees_i32(w: Option<Seq<char>>, v: Option<i32>) -> bool {
    v is Some && w is Some ==> i32_value(w) == v
}

/// A stale value `w` of a `u16` setting reads as what was sent.
pub open spec fn agrees_u16(w: Option<Seq<char>>, v: Option<u16>) -> bool {
    v is Some && w is Some ==> u16_value(w) == v
}

/// A stale value `w` of a text setting is what was sent.
pub open spec fn agrees_str(w: Option<Seq<char>>, v: Option<String>) -> bool {
    v is Some && w is Some ==> w == opt_chars(v)
}

/// The position of a setting's key among the keys, or -1.
pub open spec fn key_index(s: Seq<char>) -> int {
    if s == "accepts-transfers"@ {
        0
    } else if s == "allow-flight"@ {
        1
    } else if s == "allow-nether"@ {
        2
    } else if s == "broadcast-console-to-ops"@ {
        3
    } else if s == "broadcast-rcon-to-ops"@ {
        4
    } else if s == "bug-report-link"@ {
        5
    } else if s == "chat-spam-threshold-seconds"@ {
        6
    } else if s == "command-spam-threshold-seconds"@ {
        7
    } else if s == "difficulty"@ {
        8
    } else if s == "enable-command-block"@ {
        9
    } else if s == "enable-jmx-monitoring"@ {
        10
    } else if s == "enable-query"@ {
        11
    } else if s == "enable-rcon"@ {
        12
    } else if s == "enable-status"@ {
        13
    } else if s == "enforce-secure-profile"@ {
        14
    } else if s == "enforce-whitelist"@ {
        15
    } else if s == "entity-broadcast-range-percentage"@ {
        16
    } else if s == "force-gamemode"@ {
        17
    } else if s == "function-permission-level"@ {
        18
    } else if s == "gamemode"@ {
        19
    } else if s == "generate-structures"@ {
        20
    } else if s == "generator-settings"@ {
        21
    } else if s == "hardcore"@ {
        22
    } else if s == "hide-online-players"@ {
        23
    } else if s == "initial-disabled-packs"@ {
        24
    } else if s == "initial-enabled-packs"@ {
        25
    } else if s == "level-name"@ {
        26
    } else if s == "level-seed"@ {
        27
    } else if s == "level-type"@ {
        28
    } else if s == "log-ips"@ {
        29
    } else if s == "management-server-allowed-origins"@ {
        30
    } else if s == "management-server-enabled"@ {
        31
    } else if s == "management-server-host"@ {
        32
    } else if s == "management-server-port"@ {
        33
    } else if s == "management-server-secret"@ {
        34
    } else if s == "management-server-tls-enabled"@ {
        35
    } else if s == "management-server-tls-keystore"@ {
        36
    } else if s == "management-server-tls-keystore-password"@ {
        37
    } else if s == "max-chained-neighbor-updates"@ {
        38
    } else if s == "max-players"@ {
        39
    } else if s == "max-tick-time"@ {
        40
    } else if s == "max-world-size"@ {
        41
    } else if s == "motd"@ {
        42
    } else if s == "network-compression-threshold"@ {
        43
    } else if s == "online-mode"@ {
        44
    } else if s == "op-permission-level"@ {
        45
    } else if s == "pause-when-empty-seconds"@ {
        46
    } else if s == "player-idle-timeout"@ {
        47
    } else if s == "prevent-proxy-connections"@ {
        48
    } else if s == "query.port"@ {
        49
    } else if s == "rate-limit"@ {
        50
    } else if s == "rcon.password"@ {
        51
    } else if s == "rcon.port"@ {
        52
    } else if s == "region-file-compression"@ {
        53
    } else if s == "require-resource-pack"@ {
        54
    } else if s == "resource-pack"@ {
        55
    } else if s == "resource-pack-id"@ {
        56
    } else if s == "resource-pack-prompt"@ {
        57
    } else if s == "resource-pack-sha1"@ {
        58
    } else if s == "server-ip"@ {
        59
    } else if s == "server-port"@ {
        60
    } else if s == "simulation-distance"@ {
        61
    } else if s == "spawn-monsters"@ {
        62
    } else if s == "spawn-protection"@ {
        63
    } else if s == "status-heartbeat-interval"@ {
        64
    } else if s == "sync-chunk-writes"@ {
        65
    } else if s == "text-filtering-config"@ {
        66
    } else if s == "text-filtering-version"@ {
        67
    } else if s == "use-native-transport"@ {
        68
    } else if s == "view-distance"@ {
        69
    } else if s == "white-list"@ {
        70
    } else if s == "pvp"@ {
        71
    } else {
        -1
    }
}

/// Every key reads back as itself and names its own position.
pub proof fn lemma_field_keys()
    ensures
        forall|i: int| 0 <= i < num_fields() ==> #[trigger] key_index(field_key(i)) == i,
        forall|i: int| 0 <= i < num_fields() ==> key_ok(#[trigger] field_key(i)),
{
    reveal_strlit("accepts-transfers");
    reveal_strlit("allow-flight");
    reveal_strlit("allow-nether");
    reveal_strlit("broadcast-console-to-ops");
    reveal_strlit("broadcast-rcon-to-ops");
    reveal_strlit("bug-report-link");
    reveal_strlit("chat-spam-threshold-seconds");
    reveal_strlit("command-spam-threshold-seconds");
    reveal_strlit("difficulty");
    reveal_strlit("enable-command-block");
    reveal_strlit("enable-jmx-monitoring");
    reveal_strlit("enable-query");
    reveal_strlit("enable-rcon");
    reveal_strlit("enable-status");
    reveal_strlit("enforce-secure-profile");
    reveal_strlit("enforce-whitelist");
    reveal_strlit("entity-broadcast-range-percentage");
    reveal_strlit("force-gamemode");
    reveal_strlit("function-permission-level");
    reveal_strlit("gamemode");
    reveal_strlit("generate-structures");
    reveal_strlit("generator-settings");
    reveal_strlit("hardcore");
    reveal_strlit("hide-online-players");
    reveal_strlit("initial-disabled-packs");
    reveal_strlit("initial-enabled-packs");
    reveal_strlit("level-name");
    reveal_strlit("level-seed");
    reveal_strlit("level-type");
    reveal_strlit("log-ips");
    reveal_strlit("management-server-allowed-origins");
    reveal_strlit("management-server-enabled");
    reveal_strlit("management-server-host");
    reveal_strlit("management-server-port");
    reveal_strlit("management-server-secret");
    reveal_strlit("management-server-tls-enabled");
    reveal_strlit("management-server-tls-keystore");
    reveal_strlit("management-server-tls-keystore-password");
    reveal_strlit("max-chained-neighbor-updates");
    reveal_strlit("max-players");
    reveal_strlit("max-tick-time");
    reveal_strlit("max-world-size");
    reveal_strlit("motd");
    reveal_strlit("network-compression-threshold");
    reveal_strlit("online-mode");
    reveal_strlit("op-permission-level");
    reveal_strlit("pause-when-empty-seconds");
    reveal_strlit("player-idle-timeout");
    reveal_strlit("prevent-proxy-connections");
    reveal_strlit("query.port");
    reveal_strlit("rate-limit");
    reveal_strlit("rcon.password");
    reveal_strlit("rcon.port");
    reveal_strlit("region-file-compression");
    reveal_strlit("require-resource-pack");
    reveal_strlit("resource-pack");
    reveal_strlit("resource-pack-id");
    reveal_strlit("resource-pack-prompt");
    reveal_strlit("resource-pack-sha1");
    reveal_strlit("server-ip");
    reveal_strlit("server-port");
    reveal_strlit("simulation-distance");
    reveal_strlit("spawn-monsters");
    reveal_strlit("spawn-protection");
    reveal_strlit("status-heartbeat-interval");
    reveal_strlit("sync-chunk-writes");
    reveal_strlit("text-filtering-config");
    reveal_strlit("text-filtering-version");
    reveal_strlit("use-native-transport");
    reveal_strlit("view-distance");
    reveal_strlit("white-list");
    reveal_strlit("pvp");
    assert("allow-nether"@[6] != "allow-flight"@[6]);
    assert("enable-jmx-monitoring"@[0] != "broadcast-rcon-to-ops"@[0]);
    assert("enable-query"@[0] != "allow-flight"@[0]);
    assert("enable-query"@[0] != "allow-nether"@[0]);
    assert("enforce-whitelist"@[0] != "accepts-transfers"@[0]);
    assert("hardcore"@[0] != "gamemode"@[0]);
    assert("hide-online-players"@[0] != "generate-structures"@[0]);
    assert("initial-disabled-packs"@[0] != "enforce-secure-profile"@[0]);
    assert("initial-enabled-packs"@[0] != "broadcast-rcon-to-ops"@[0]);
    assert("initial-enabled-packs"@[0] != "enable-jmx-monitoring"@[0]);
    assert("level-name"@[0] != "difficulty"@[0]);
    assert("level-seed"@[0] != "difficulty"@[0]);
    assert("level-seed"@[6] != "level-name"@[6]);
    assert("level-type"@[0] != "difficulty"@[0]);
    assert("level-type"@[6] != "level-name"@[6]);
    assert("level-type"@[6] != "level-seed"@[6]);
    assert("management-server-allowed-origins"@[0] != "entity-broadcast-range-percentage"@[0]);
    assert("management-server-enabled"@[0] != "function-permission-level"@[0]);
    assert("management-server-host"@[0] != "enforce-secure-profile"@[0]);
    assert("management-server-host"@[0] != "initial-disabled-packs"@[0]);
    assert("management-server-port"@[0] != "enforce-secure-profile"@[0]);
    assert("management-server-port"@[0] != "initial-disabled-packs"@[0]);
    assert("management-server-port"@[18] != "management-server-host"@[18]);
    assert("management-server-secret"@[0] != "broadcast-console-to-ops"@[0]);
    assert("management-server-tls-keystore"@[0] != "command-spam-threshold-seconds"@[0]);
    assert("max-players"@[0] != "enable-rcon"@[0]);
    assert("max-tick-time"@[0] != "enable-status"@[0]);
    assert("max-world-size"@[0] != "force-gamemode"@[0]);
    assert("network-compression-threshold"@[0] != "management-server-tls-enabled"@[0]);
    assert("online-mode"@[0] != "enable-rcon"@[0]);
    assert("online-mode"@[0] != "max-players"@[0]);
    assert("op-permission-level"@[0] != "generate-structures"@[0]);
    assert("op-permission-level"@[0] != "hide-online-players"@[0]);
    assert("pause-when-empty-seconds"@[0] != "broadcast-console-to-ops"@[0]);
    assert("pause-when-empty-seconds"@[0] != "management-server-secret"@[0]);
    assert("player-idle-timeout"@[0] != "generate-structures"@[0]);
    assert("player-idle-timeout"@[0] != "hide-online-players"@[0]);
    assert("player-idle-timeout"@[0] != "op-permission-level"@[0]);
    assert("prevent-proxy-connections"@[0] != "function-permission-level"@[0]);
    assert("prevent-proxy-connections"@[0] != "management-server-enabled"@[0]);
    assert("query.port"@[0] != "difficulty"@[0]);
    assert("query.port"@[0] != "level-name"@[0]);
    assert("query.port"@[0] != "level-seed"@[0]);
    assert("query.port"@[0] != "level-type"@[0]);
    assert("rate-limit"@[0] != "difficulty"@[0]);
    assert("rate-limit"@[0] != "level-name"@[0]);
    assert("rate-limit"@[0] != "level-seed"@[0]);
    assert("rate-limit"@[0] != "level-type"@[0]);
    assert("rate-limit"@[0] != "query.port"@[0]);
    assert("rcon.password"@[0] != "enable-status"@[0]);
    assert("rcon.password"@[0] != "max-tick-time"@[0]);
    assert("require-resource-pack"@[0] != "broadcast-rcon-to-ops"@[0]);
    assert("require-resource-pack"@[0] != "enable-jmx-monitoring"@[0]);
    assert("require-resource-pack"@[0] != "initial-enabled-packs"@[0]);
    assert("resource-pack"@[0] != "enable-status"@[0]);
    assert("resource-pack"@[0] != "max-tick-time"@[0]);
    assert("resource-pack"@[1] != "rcon.password"@[1]);
    assert("resource-pack-prompt"@[0] != "enable-command-block"@[0]);
    assert("resource-pack-sha1"@[0] != "generator-settings"@[0]);
    assert("server-ip"@[0] != "rcon.port"@[0]);
    assert("server-port"@[0] != "enable-rcon"@[0]);
    assert("server-port"@[0] != "max-players"@[0]);
    assert("server-port"@[0] != "online-mode"@[0]);
    assert("simulation-distance"@[0] != "generate-structures"@[0]);
    assert("simulation-distance"@[0] != "hide-online-players"@[0]);
    assert("simulation-distance"@[0] != "op-permission-level"@[0]);
    assert("simulation-distance"@[0] != "player-idle-timeout"@[0]);
    assert("spawn-monsters"@[0] != "force-gamemode"@[0]);
    assert("spawn-monsters"@[0] != "max-world-size"@[0]);
    assert("spawn-protection"@[0] != "resource-pack-id"@[0]);
    assert("status-heartbeat-interval"@[0] != "function-permission-level"@[0]);
    assert("status-heartbeat-interval"@[0] != "management-server-enabled"@[0]);
    assert("status-heartbeat-interval"@[0] != "prevent-proxy-connections"@[0]);
    assert("sync-chunk-writes"@[0] != "accepts-transfers"@[0]);
    assert("sync-chunk-writes"@[0] != "enforce-whitelist"@[0]);
    assert("text-filtering-config"@[0] != "broadcast-rcon-to-ops"@[0]);
    assert("text-filtering-config"@[0] != "enable-jmx-monitoring"@[0]);
    assert("text-filtering-config"@[0] != "initial-enabled-packs"@[0]);
    assert("text-filtering-config"@[0] != "require-resource-pack"@[0]);
    assert("text-filtering-version"@[0] != "enforce-secure-profile"@[0]);
    assert("text-filtering-version"@[0] != "initial-disabled-packs"@[0]);
    assert("text-filtering-version"@[0] != "management-server-host"@[0]);
    assert("text-filtering-version"@[0] != "management-server-port"@[0]);
    assert("use-native-transport"@[0] != "enable-command-block"@[0]);
    assert("use-native-transport"@[0] != "resource-pack-prompt"@[0]);
    assert("view-distance"@[0] != "enable-status"@[0]);
    assert("view-distance"@[0] != "max-tick-time"@[0]);
    assert("view-distance"@[0] != "rcon.password"@[0]);
    assert("view-distance"@[0] != "resource-pack"@[0]);
    assert("white-list"@[0] != "difficulty"@[0]);
    assert("white-list"@[0] != "level-name"@[0]);
    assert("white-list"@[0] != "level-seed"@[0]);
    assert("white-list"@[0] != "level-type"@[0]);
    assert("white-list"@[0] != "query.port"@[0]);
    assert("white-list"@[0] != "rate-limit"@[0]);
    assert(key_index("accepts-transfers"@) == 0);
    assert(key_ok("accepts-transfers"@));
    assert(key_index("allow-flight"@) == 1);
    assert(key_ok("allow-flight"@));
    assert(key_index("allow-nether"@) == 2);
    assert(key_ok("allow-nether"@));
    assert(key_index("broadcast-console-to-ops"@) == 3);
    assert(key_ok("broadcast-console-to-ops"@));
    assert(key_index("broadcast-rcon-to-ops"@) == 4);
    assert(key_ok("broadcast-rcon-to-ops"@));
    assert(key_index("bug-report-link"@) == 5);
    assert(key_ok("bug-report-link"@));
    assert(key_index("chat-spam-threshold-seconds"@) == 6);
    assert(key_ok("chat-spam-threshold-seconds"@));
    assert(key_index("command-spam-threshold-seconds"@) == 7);
    assert(key_ok("command-spam-threshold-seconds"@));
    assert(key_index("difficulty"@) == 8);
    assert(key_ok("difficulty"@));
    assert(key_index("enable-command-block"@) == 9);
    assert(key_ok("enable-command-block"@));
    assert(key_index("enable-jmx-monitoring"@) == 10);
    assert(key_ok("enable-jmx-monitoring"@));
    assert(key_index("enable-query"@) == 11);
    assert(key_ok("enable-query"@));
    assert(key_index("enable-rcon"@) == 12);
    assert(key_ok("enable-rcon"@));
    assert(key_index("enable-status"@) == 13);
    assert(key_ok("enable-status"@));
    assert(key_index("enforce-secure-profile"@) == 14);
    assert(key_ok("enforce-secure-profile"@));
    assert(key_index("enforce-whitelist"@) == 15);
    assert(key_ok("enforce-whitelist"@));
    assert(key_index("entity-broadcast-range-percentage"@) == 16);
    assert(key_ok("entity-broadcast-range-percentage"@));
    assert(key_index("force-gamemode"@) == 17);
    assert(key_ok("force-gamemode"@));
    assert(key_index("function-permission-level"@) == 18);
    assert(key_ok("function-permission-level"@));
    assert(key_index("gamemode"@) == 19);
    assert(key_ok("gamemode"@));
    assert(key_index("generate-structures"@) == 20);
    assert(key_ok("generate-structures"@));
    assert(key_index("generator-settings"@) == 21);
    assert(key_ok("generator-settings"@));
    assert(key_index("hardcore"@) == 22);
    assert(key_ok("hardcore"@));
    assert(key_index("hide-online-players"@) == 23);
    assert(key_ok("hide-online-players"@));
    assert(key_index("initial-disabled-packs"@) == 24);
    assert(key_ok("initial-disabled-packs"@));
    assert(key_index("initial-enabled-packs"@) == 25);
    assert(key_ok("initial-enabled-packs"@));
    assert(key_index("level-name"@) == 26);
    assert(key_ok("level-name"@));
    assert(key_index("level-seed"@) == 27);
    assert(key_ok("level-seed"@));
    assert(key_index("level-type"@) == 28);
    assert(key_ok("level-type"@));
    assert(key_index("log-ips"@) == 29);
    assert(key_ok("log-ips"@));
    assert(key_index("management-server-allowed-origins"@) == 30);
    assert(key_ok("management-server-allowed-origins"@));
    assert(key_index("management-server-enabled"@) == 31);
    assert(key_ok("management-server-enabled"@));
    assert(key_index("management-server-host"@) == 32);
    assert(key_ok("management-server-host"@));
    assert(key_index("management-server-port"@) == 33);
    assert(key_ok("management-server-port"@));
    assert(key_index("management-server-secret"@) == 34);
    assert(key_ok("management-server-secret"@));
    assert(key_index("management-server-tls-enabled"@) == 35);
    assert(key_ok("management-server-tls-enabled"@));
    assert(key_index("management-server-tls-keystore"@) == 36);
    assert(key_ok("management-server-tls-keystore"@));
    assert(key_index("management-server-tls-keystore-password"@) == 37);
    assert(key_ok("management-server-tls-keystore-password"@));
    assert(key_index("max-chained-neighbor-updates"@) == 38);
    assert(key_ok("max-chained-neighbor-updates"@));
    assert(key_index("max-players"@) == 39);
    assert(key_ok("max-players"@));
    assert(key_index("max-tick-time"@) == 40);
    assert(key_ok("max-tick-time"@));
    assert(key_index("max-world-size"@) == 41);
    assert(key_ok("max-world-size"@));
    assert(key_index("motd"@) == 42);
    assert(key_ok("motd"@));
    assert(key_index("network-compression-threshold"@) == 43);
    assert(key_ok("network-compression-threshold"@));
    assert(key_index("online-mode"@) == 44);
    assert(key_ok("online-mode"@));
    assert(key_index("op-permission-level"@) == 45);
    assert(key_ok("op-permission-level"@));
    assert(key_index("pause-when-empty-seconds"@) == 46);
    assert(key_ok("pause-when-empty-seconds"@));
    assert(key_index("player-idle-timeout"@) == 47);
    assert(key_ok("player-idle-timeout"@));
    assert(key_index("prevent-proxy-connections"@) == 48);
    assert(key_ok("prevent-proxy-connections"@));
    assert(key_index("query.port"@) == 49);
    assert(key_ok("query.port"@));
    assert(key_index("rate-limit"@) == 50);
    assert(key_ok("rate-limit"@));
    assert(key_index("rcon.password"@) == 51);
    assert(key_ok("rcon.password"@));
    assert(key_index("rcon.port"@) == 52);
    assert(key_ok("rcon.port"@));
    assert(key_index("region-file-compression"@) == 53);
    assert(key_ok("region-file-compression"@));
    assert(key_index("require-resource-pack"@) == 54);
    assert(key_ok("require-resource-pack"@));
    assert(key_index("resource-pack"@) == 55);
    assert(key_ok("resource-pack"@));
    assert(key_index("resource-pack-id"@) == 56);
    assert(key_ok("resource-pack-id"@));
    assert(key_index("resource-pack-prompt"@) == 57);
    assert(key_ok("resource-pack-prompt"@));
    assert(key_index("resource-pack-sha1"@) == 58);
    assert(key_ok("resource-pack-sha1"@));
    assert(key_index("server-ip"@) == 59);
    assert(key_ok("server-ip"@));
    assert(key_index("server-port"@) == 60);
    assert(key_ok("server-port"@));
    assert(key_index("simulation-distance"@) == 61);
    assert(key_ok("simulation-distance"@));
    assert(key_index("spawn-monsters"@) == 62);
    assert(key_ok("spawn-monsters"@));
    assert(key_index("spawn-protection"@) == 63);
    assert(key_ok("spawn-protection"@));
    assert(key_index("status-heartbeat-interval"@) == 64);
    assert(key_ok("status-heartbeat-interval"@));
    assert(key_index("sync-chunk-writes"@) == 65);
    assert(key_ok("sync-chunk-writes"@));
    assert(key_index("text-filtering-config"@) == 66);
    assert(key_ok("text-filtering-config"@));
    assert(key_index("text-filtering-version"@) == 67);
    assert(key_ok("text-filtering-version"@));
    assert(key_index("use-native-transport"@) == 68);
    assert(key_ok("use-native-transport"@));
    assert(key_index("view-distance"@) == 69);
    assert(key_ok("view-distance"@));
    assert(key_index("white-list"@) == 70);
    assert(key_ok("white-list"@));
    assert(key_index("pvp"@) == 71);
    assert(key_ok("pvp"@));
    assert forall|i: int| 0 <= i < num_fields() implies #[trigger] key_index(field_key(i)) == i
        && key_ok(field_key(i)) by {
    }
}

/// Distinct settings have distinct keys.
pub proof fn lemma_field_keys_distinct(i: int, g: int)
    requires
        0 <= i < num_fields(),
        0 <= g < num_fields(),
        i != g,
    ensures
        field_key(i) != field_key(g),
{
    lemma_field_keys();
    assert(key_index(field_key(i)) == i);
    assert(key_index(field_key(g)) == g);
}

proof fn lemma_lookup_below(p: ServerProperties, m: nat, i: int)
    requires
        m <= i < num_fields(),
    ensures
        lookup(p.updates_upto(m), field_key(i)) is None,
    decreases m,
{
    if m > 0 {
        lemma_lookup_below(p, (m - 1) as nat, i);
        lemma_field_keys_distinct(m - 1, i);
        let u = p.updates_upto((m - 1) as nat);
        match p.field_text(m - 1) {
            Some(t) => {
                assert(u.push((field_key(m - 1), t)).drop_last() =~= u);
            },
            None => {},
        }
    }
}

/// The update list of the settings gives each key the text of its setting.
pub proof fn lemma_lookup_field(p: ServerProperties, n: nat, i: int)
    requires
        0 <= i < n <= num_fields(),
    ensures
        lookup(p.updates_upto(n), field_key(i)) == p.field_text(i),
    decreases n,
{
    let u = p.updates_upto((n - 1) as nat);
    if n - 1 == i {
        lemma_lookup_below(p, (n - 1) as nat, i);
    } else {
        lemma_lookup_field(p, (n - 1) as nat, i);
        lemma_field_keys_distinct(n - 1, i);
    }
    match p.field_text(n - 1) {
        Some(t) => {
            assert(u.push((field_key(n - 1), t)).drop_last() =~= u);
        },
        None => {},
    }
}

impl ServerProperties {
    /// Whether every text setting that is present can be written and read back.
    pub open spec fn texts_ok(self) -> bool {
        &&& text_ok(self.bug_report_link)
        &&& text_ok(self.difficulty)
        &&& text_ok(self.gamemode)
        &&& text_ok(self.generator_settings)
        &&& text_ok(self.initial_disabled_packs)
        &&& text_ok(self.initial_enabled_packs)
        &&& text_ok(self.level_name)
        &&& text_ok(self.level_seed)
        &&& text_ok(self.level_type)
        &&& text_ok(self.management_server_allowed_origins)
        &&& text_ok(self.management_server_host)
        &&& text_ok(self.management_server_secret)
        &&& text_ok(self.management_server_tls_keystore)
        &&& text_ok(self.management_server_tls_keystore_password)
        &&& text_ok(self.motd)
        &&& text_ok(self.rcon_password)
        &&& text_ok(self.region_file_compression)
        &&& text_ok(self.resource_pack)
        &&& text_ok(self.resource_pack_id)
        &&& text_ok(self.resource_pack_prompt)
        &&& text_ok(self.resource_pack_sha1)
        &&& text_ok(self.server_ip)
        &&& text_ok(self.text_filtering_config)
    }

    /// Whether, for every setting that is present, the lines `ls` of the file
    /// hold no later line that gives its key another reading (see
    /// `stale_value`).
    pub open spec fn stale_agrees(self, ls: Seq<Seq<char>>) -> bool {
        &&& agrees_bool(stale_value(ls, "accepts-transfers"@), self.accepts_transfers)
        &&& agrees_bool(stale_value(ls, "allow-flight"@), self.allow_flight)
        &&& agrees_bool(stale_value(ls, "allow-nether"@), self.allow_nether)
        &&& agrees_bool(stale_value(ls, "broadcast-console-to-ops"@), self.broadcast_console_to_ops)
        &&& agrees_bool(stale_value(ls, "broadcast-rcon-to-ops"@), self.broadcast_rcon_to_ops)
        &&& agrees_str(stale_value(ls, "bug-report-link"@), self.bug_report_link)
        &&& agrees_i32(stale_value(ls, "chat-spam-threshold-seconds"@), self.chat_spam_threshold_seconds)
        &&& agrees_i32(stale_value(ls, "command-spam-threshold-seconds"@), self.command_spam_threshold_seconds)
        &&& agrees_str(stale_value(ls, "difficulty"@), self.difficulty)
        &&& agrees_bool(stale_value(ls, "enable-command-block"@), self.enable_command_block)
        &&& agrees_bool(stale_value(ls, "enable-jmx-monitoring"@), self.enable_jmx_monitoring)
        &&& agrees_bool(stale_value(ls, "enable-query"@), self.enable_query)
        &&& agrees_bool(stale_value(ls, "enable-rcon"@), self.enable_rcon)
        &&& agrees_bool(stale_value(ls, "enable-status"@), self.enable_status)
        &&& agrees_bool(stale_value(ls, "enforce-secure-profile"@), self.enforce_secure_profile)
        &&& agrees_bool(stale_value(ls, "enforce-whitelist"@), self.enforce_whitelist)
        &&& agrees_i32(stale_value(ls, "entity-broadcast-range-percentage"@), self.entity_broadcast_range_percentage)
        &&& agrees_bool(stale_value(ls, "force-gamemode"@), self.force_gamemode)
        &&& agrees_i32(stale_value(ls, "function-permission-level"@), self.function_permission_level)
        &&& agrees_str(stale_value(ls, "gamemode"@), self.gamemode)
        &&& agrees_bool(stale_value(ls, "generate-structures"@), self.generate_structures)
        &&& agrees_str(stale_value(ls, "generator-settings"@), self.generator_settings)
        &&& agrees_bool(stale_value(ls, "hardcore"@), self.hardcore)
        &&& agrees_bool(stale_value(ls, "hide-online-players"@), self.hide_online_players)
        &&& agrees_str(stale_value(ls, "initial-disabled-packs"@), self.initial_disabled_packs)
        &&& agrees_str(stale_value(ls, "initial-enabled-packs"@), self.initial_enabled_packs)
        &&& agrees_str(stale_value(ls, "level-name"@), self.level_name)
        &&& agrees_str(stale_value(ls, "level-seed"@), self.level_seed)
        &&& agrees_str(stale_value(ls, "level-type"@), self.level_type)
        &&& agrees_bool(stale_value(ls, "log-ips"@), self.log_ips)
        &&& agrees_str(stale_value(ls, "management-server-allowed-origins"@), self.management_server_allowed_origins)
        &&& agrees_bool(stale_value(ls, "management-server-enabled"@), self.management_server_enabled)
        &&& agrees_str(stale_value(ls, "management-server-host"@), self.management_server_host)
        &&& agrees_i32(stale_value(ls, "management-server-port"@), self.management_server_port)
        &&& agrees_str(stale_value(ls, "management-server-secret"@), self.management_server_secret)
        &&& agrees_bool(stale_value(ls, "management-server-tls-enabled"@), self.management_server_tls_enabled)
        &&& agrees_str(stale_value(ls, "management-server-tls-keystore"@), self.management_server_tls_keystore)
        &&& agrees_str(stale_value(ls, "management-server-tls-keystore-password"@), self.management_server_tls_keystore_password)
        &&& agrees_i32(stale_value(ls, "max-chained-neighbor-updates"@), self.max_chained_neighbor_updates)
        &&& agrees_i32(stale_value(ls, "max-players"@), self.max_players)
        &&& agrees_i32(stale_value(ls, "max-tick-time"@), self.max_tick_time)
        &&& agrees_i32(stale_value(ls, "max-world-size"@), self.max_world_size)
        &&& agrees_str(stale_value(ls, "motd"@), self.motd)
        &&& agrees_i32(stale_value(ls, "network-compression-threshold"@), self.network_compression_threshold)
        &&& agrees_bool(stale_value(ls, "online-mode"@), self.online_mode)
        &&& agrees_i32(stale_value(ls, "op-permission-level"@), self.op_permission_level)
        &&& agrees_i32(stale_value(ls, "pause-when-empty-seconds"@), self.pause_when_empty_seconds)
        &&& agrees_i32(stale_value(ls, "player-idle-timeout"@), self.player_idle_timeout)
        &&& agrees_bool(stale_value(ls, "prevent-proxy-connections"@), self.prevent_proxy_connections)
        &&& agrees_u16(stale_value(ls, "query.port"@), self.query_port)
        &&& agrees_i32(stale_value(ls, "rate-limit"@), self.rate_limit)
        &&& agrees_str(stale_value(ls, "rcon.password"@), self.rcon_password)
        &&& agrees_u16(stale_value(ls, "rcon.port"@), self.rcon_port)
        &&& agrees_str(stale_value(ls, "region-file-compression"@), self.region_file_compression)
        &&& agrees_bool(stale_value(ls, "require-resource-pack"@), self.require_resource_pack)
        &&& agrees_str(stale_value(ls, "resource-pack"@), self.resource_pack)
        &&& agrees_str(stale_value(ls, "resource-pack-id"@), self.resource_pack_id)
        &&& agrees_str(stale_value(ls, "resource-pack-prompt"@), self.resource_pack_prompt)
        &&& agrees_str(stale_value(ls, "resource-pack-sha1"@), self.resource_pack_sha1)
        &&& agrees_str(stale_value(ls, "server-ip"@), self.server_ip)
        &&& agrees_u16(stale_value(ls, "server-port"@), self.server_port)
        &&& agrees_i32(stale_value(ls, "simulation-distance"@), self.simulation_distance)
        &&& agrees_bool(stale_value(ls, "spawn-monsters"@), self.spawn_monsters)
        &&& agrees_i32(stale_value(ls, "spawn-protection"@), self.spawn_protection)
        &&& agrees_i32(stale_value(ls, "status-heartbeat-interval"@), self.status_heartbeat_interval)
        &&& agrees_bool(stale_value(ls, "sync-chunk-writes"@), self.sync_chunk_writes)
        &&& agrees_str(stale_value(ls, "text-filtering-config"@), self.text_filtering_config)
        &&& agrees_i32(stale_value(ls, "text-filtering-version"@), self.text_filtering_version)
        &&& agrees_bool(stale_value(ls, "use-native-transport"@), self.use_native_transport)
        &&& agrees_i32(stale_value(ls, "view-distance"@), self.view_distance)
        &&& agrees_bool(stale_value(ls, "white-list"@), self.white_list)
        &&& agrees_bool(stale_value(ls, "pvp"@), self.pvp)
    }

    /// Whether `self` holds the settings of `sent` where `sent` has them and
    /// those of `before` elsewhere.
    pub open spec fn overlays(self, sent: ServerProperties, before: ServerProperties) -> bool {
        &&& self.accepts_transfers == (if sent.accepts_transfers is Some { sent.accepts_transfers } else { before.accepts_transfers })
        &&& self.allow_flight == (if sent.allow_flight is Some { sent.allow_flight } else { before.allow_flight })
        &&& self.allow_nether == (if sent.allow_nether is Some { sent.allow_nether } else { before.allow_nether })
        &&& self.broadcast_console_to_ops == (if sent.broadcast_console_to_ops is Some { sent.broadcast_console_to_ops } else { before.broadcast_console_to_ops })
        &&& self.broadcast_rcon_to_ops == (if sent.broadcast_rcon_to_ops is Some { sent.broadcast_rcon_to_ops } else { before.broadcast_rcon_to_ops })
        &&& opt_chars(self.bug_report_link) == (if sent.bug_report_link is Some { opt_chars(sent.bug_report_link) } else { opt_chars(before.bug_report_link) })
        &&& self.chat_spam_threshold_seconds == (if sent.chat_spam_threshold_seconds is Some { sent.chat_spam_threshold_seconds } else { before.chat_spam_threshold_seconds })
        &&& self.command_spam_threshold_seconds == (if sent.command_spam_threshold_seconds is Some { sent.command_spam_threshold_seconds } else { before.command_spam_threshold_seconds })
        &&& opt_chars(self.difficulty) == (if sent.difficulty is Some { opt_chars(sent.difficulty) } else { opt_chars(before.difficulty) })
        &&& self.enable_command_block == (if sent.enable_command_block is Some { sent.enable_command_block } else { before.enable_command_block })
        &&& self.enable_jmx_monitoring == (if sent.enable_jmx_monitoring is Some { sent.enable_jmx_monitoring } else { before.enable_jmx_monitoring })
        &&& self.enable_query == (if sent.enable_query is Some { sent.enable_query } else { before.enable_query })
        &&& self.enable_rcon == (if sent.enable_rcon is Some { sent.enable_rcon } else { before.enable_rcon })
        &&& self.enable_status == (if sent.enable_status is Some { sent.enable_status } else { before.enable_status })
        &&& self.enforce_secure_profile == (if sent.enforce_secure_profile is Some { sent.enforce_secure_profile } else { before.enforce_secure_profile })
        &&& self.enforce_whitelist == (if sent.enforce_whitelist is Some { sent.enforce_whitelist } else { before.enforce_whitelist })
        &&& self.entity_broadcast_range_percentage == (if sent.entity_broadcast_range_percentage is Some { sent.entity_broadcast_range_percentage } else { before.entity_broadcast_range_percentage })
        &&& self.force_gamemode == (if sent.force_gamemode is Some { sent.force_gamemode } else { before.force_gamemode })
        &&& self.function_permission_level == (if sent.function_permission_level is Some { sent.function_permission_level } else { before.function_permission_level })
        &&& opt_chars(self.gamemode) == (if sent.gamemode is Some { opt_chars(sent.gamemode) } else { opt_chars(before.gamemode) })
        &&& self.generate_structures == (if sent.generate_structures is Some { sent.generate_structures } else { before.generate_structures })
        &&& opt_chars(self.generator_settings) == (if sent.generator_settings is Some { opt_chars(sent.generator_settings) } else { opt_chars(before.generator_settings) })
        &&& self.hardcore == (if sent.hardcore is Some { sent.hardcore } else { before.hardcore })
        &&& self.hide_online_players == (if sent.hide_online_players is Some { sent.hide_online_players } else { before.hide_online_players })
        &&& opt_chars(self.initial_disabled_packs) == (if sent.initial_disabled_packs is Some { opt_chars(sent.initial_disabled_packs) } else { opt_chars(before.initial_disabled_packs) })
        &&& opt_chars(self.initial_enabled_packs) == (if sent.initial_enabled_packs is Some { opt_chars(sent.initial_enabled_packs) } else { opt_chars(before.initial_enabled_packs) })
        &&& opt_chars(self.level_name) == (if sent.level_name is Some { opt_chars(sent.level_name) } else { opt_chars(before.level_name) })
        &&& opt_chars(self.level_seed) == (if sent.level_seed is Some { opt_chars(sent.level_seed) } else { opt_chars(before.level_seed) })
        &&& opt_chars(self.level_type) == (if sent.level_type is Some { opt_chars(sent.level_type) } else { opt_chars(before.level_type) })
        &&& self.log_ips == (if sent.log_ips is Some { sent.log_ips } else { before.log_ips })
        &&& opt_chars(self.management_server_allowed_origins) == (if sent.management_server_allowed_origins is Some { opt_chars(sent.management_server_allowed_origins) } else { opt_chars(before.management_server_allowed_origins) })
        &&& self.management_server_enabled == (if sent.management_server_enabled is Some { sent.management_server_enabled } else { before.management_server_enabled })
        &&& opt_chars(self.management_server_host) == (if sent.management_server_host is Some { opt_chars(sent.management_server_host) } else { opt_chars(before.management_server_host) })
        &&& self.management_server_port == (if sent.management_server_port is Some { sent.management_server_port } else { before.management_server_port })
        &&& opt_chars(self.management_server_secret) == (if sent.management_server_secret is Some { opt_chars(sent.management_server_secret) } else { opt_chars(before.management_server_secret) })
        &&& self.management_server_tls_enabled == (if sent.management_server_tls_enabled is Some { sent.management_server_tls_enabled } else { before.management_server_tls_enabled })
        &&& opt_chars(self.management_server_tls_keystore) == (if sent.management_server_tls_keystore is Some { opt_chars(sent.management_server_tls_keystore) } else { opt_chars(before.management_server_tls_keystore) })
        &&& opt_chars(self.management_server_tls_keystore_password) == (if sent.management_server_tls_keystore_password is Some { opt_chars(sent.management_server_tls_keystore_password) } else { opt_chars(before.management_server_tls_keystore_password) })
        &&& self.max_chained_neighbor_updates == (if sent.max_chained_neighbor_updates is Some { sent.max_chained_neighbor_updates } else { before.max_chained_neighbor_updates })
        &&& self.max_players == (if sent.max_players is Some { sent.max_players } else { before.max_players })
        &&& self.max_tick_time == (if sent.max_tick_time is Some { sent.max_tick_time } else { before.max_tick_time })
        &&& self.max_world_size == (if sent.max_world_size is Some { sent.max_world_size } else { before.max_world_size })
        &&& opt_chars(self.motd) == (if sent.motd is Some { opt_chars(sent.motd) } else { opt_chars(before.motd) })
        &&& self.network_compression_threshold == (if sent.network_compression_threshold is Some { sent.network_compression_threshold } else { before.network_compression_threshold })
        &&& self.online_mode == (if sent.online_mode is Some { sent.online_mode } else { before.online_mode })
        &&& self.op_permission_level == (if sent.op_permission_level is Some { sent.op_permission_level } else { before.op_permission_level })
        &&& self.pause_when_empty_seconds == (if sent.pause_when_empty_seconds is Some { sent.pause_when_empty_seconds } else { before.pause_when_empty_seconds })
        &&& self.player_idle_timeout == (if sent.player_idle_timeout is Some { sent.player_idle_timeout } else { before.player_idle_timeout })
        &&& self.prevent_proxy_connections == (if sent.prevent_proxy_connections is Some { sent.prevent_proxy_connections } else { before.prevent_proxy_connections })
        &&& self.query_port == (if sent.query_port is Some { sent.query_port } else { before.query_port })
        &&& self.rate_limit == (if sent.rate_limit is Some { sent.rate_limit } else { before.rate_limit })
        &&& opt_chars(self.rcon_password) == (if sent.rcon_password is Some { opt_chars(sent.rcon_password) } else { opt_chars(before.rcon_password) })
        &&& self.rcon_port == (if sent.rcon_port is Some { sent.rcon_port } else { before.rcon_port })
        &&& opt_chars(self.region_file_compression) == (if sent.region_file_compression is Some { opt_chars(sent.region_file_compression) } else { opt_chars(before.region_file_compression) })
        &&& self.require_resource_pack == (if sent.require_resource_pack is Some { sent.require_resource_pack } else { before.require_resource_pack })
        &&& opt_chars(self.resource_pack) == (if sent.resource_pack is Some { opt_chars(sent.resource_pack) } else { opt_chars(before.resource_pack) })
        &&& opt_chars(self.resource_pack_id) == (if sent.resource_pack_id is Some { opt_chars(sent.resource_pack_id) } else { opt_chars(before.resource_pack_id) })
        &&& opt_chars(self.resource_pack_prompt) == (if sent.resource_pack_prompt is Some { opt_chars(sent.resource_pack_prompt) } else { opt_chars(before.resource_pack_prompt) })
        &&& opt_chars(self.resource_pack_sha1) == (if sent.resource_pack_sha1 is Some { opt_chars(sent.resource_pack_sha1) } else { opt_chars(before.resource_pack_sha1) })
        &&& opt_chars(self.server_ip) == (if sent.server_ip is Some { opt_chars(sent.server_ip) } else { opt_chars(before.server_ip) })
        &&& self.server_port == (if sent.server_port is Some { sent.server_port } else { before.server_port })
        &&& self.simulation_distance == (if sent.simulation_distance is Some { sent.simulation_distance } else { before.simulation_distance })
        &&& self.spawn_monsters == (if sent.spawn_monsters is Some { sent.spawn_monsters } else { before.spawn_monsters })
        &&& self.spawn_protection == (if sent.spawn_protection is Some { sent.spawn_protection } else { before.spawn_protection })
        &&& self.status_heartbeat_interval == (if sent.status_heartbeat_interval is Some { sent.status_heartbeat_interval } else { before.status_heartbeat_interval })
        &&& self.sync_chunk_writes == (if sent.sync_chunk_writes is Some { sent.sync_chunk_writes } else { before.sync_chunk_writes })
        &&& opt_chars(self.text_filtering_config) == (if sent.text_filtering_config is Some { opt_chars(sent.text_filtering_config) } else { opt_chars(before.text_filtering_config) })
        &&& self.text_filtering_version == (if sent.text_filtering_version is Some { sent.text_filtering_version } else { before.text_filtering_version })
        &&& self.use_native_transport == (if sent.use_native_transport is Some { sent.use_native_transport } else { before.use_native_transport })
        &&& self.view_distance == (if sent.view_distance is Some { sent.view_distance } else { before.view_distance })
        &&& self.white_list == (if sent.white_list is Some { sent.white_list } else { before.white_list })
        &&& self.pvp == (if sent.pvp is Some { sent.pvp } else { before.pvp })
    }

    /// Whether two values hold the same settings (text settings compared by
    /// their characters).
    pub open spec fn same_settings(self, other: ServerProperties) -> bool {
        &&& self.accepts_transfers == other.accepts_transfers
        &&& self.allow_flight == other.allow_flight
        &&& self.allow_nether == other.allow_nether
        &&& self.broadcast_console_to_ops == other.broadcast_console_to_ops
        &&& self.broadcast_rcon_to_ops == other.broadcast_rcon_to_ops
        &&& opt_chars(self.bug_report_link) == opt_chars(other.bug_report_link)
        &&& self.chat_spam_threshold_seconds == other.chat_spam_threshold_seconds
        &&& self.command_spam_threshold_seconds == other.command_spam_threshold_seconds
        &&& opt_chars(self.difficulty) == opt_chars(other.difficulty)
        &&& self.enable_command_block == other.enable_command_block
        &&& self.enable_jmx_monitoring == other.enable_jmx_monitoring
        &&& self.enable_query == other.enable_query
        &&& self.enable_rcon == other.enable_rcon
        &&& self.enable_status == other.enable_status
        &&& self.enforce_secure_profile == other.enforce_secure_profile
        &&& self.enforce_whitelist == other.enforce_whitelist
        &&& self.entity_broadcast_range_percentage == other.entity_broadcast_range_percentage
        &&& self.force_gamemode == other.force_gamemode
        &&& self.function_permission_level == other.function_permission_level
        &&& opt_chars(self.gamemode) == opt_chars(other.gamemode)
        &&& self.generate_structures == other.generate_structures
        &&& opt_chars(self.generator_settings) == opt_chars(other.generator_settings)
        &&& self.hardcore == other.hardcore
        &&& self.hide_online_players == other.hide_online_players
        &&& opt_chars(self.initial_disabled_packs) == opt_chars(other.initial_disabled_packs)
        &&& opt_chars(self.initial_enabled_packs) == opt_chars(other.initial_enabled_packs)
        &&& opt_chars(self.level_name) == opt_chars(other.level_name)
        &&& opt_chars(self.level_seed) == opt_chars(other.level_seed)
        &&& opt_chars(self.level_type) == opt_chars(other.level_type)
        &&& self.log_ips == other.log_ips
        &&& opt_chars(self.management_server_allowed_origins) == opt_chars(other.management_server_allowed_origins)
        &&& self.management_server_enabled == other.management_server_enabled
        &&& opt_chars(self.management_server_host) == opt_chars(other.management_server_host)
        &&& self.management_server_port == other.management_server_port
        &&& opt_chars(self.management_server_secret) == opt_chars(other.management_server_secret)
        &&& self.management_server_tls_enabled == other.management_server_tls_enabled
        &&& opt_chars(self.management_server_tls_keystore) == opt_chars(other.management_server_tls_keystore)
        &&& opt_chars(self.management_server_tls_keystore_password) == opt_chars(other.management_server_tls_keystore_password)
        &&& self.max_chained_neighbor_updates == other.max_chained_neighbor_updates
        &&& self.max_players == other.max_players
        &&& self.max_tick_time == other.max_tick_time
        &&& self.max_world_size == other.max_world_size
        &&& opt_chars(self.motd) == opt_chars(other.motd)
        &&& self.network_compression_threshold == other.network_compression_threshold
        &&& self.online_mode == other.online_mode
        &&& self.op_permission_level == other.op_permission_level
        &&& self.pause_when_empty_seconds == other.pause_when_empty_seconds
        &&& self.player_idle_timeout == other.player_idle_timeout
        &&& self.prevent_proxy_connections == other.prevent_proxy_connections
        &&& self.query_port == other.query_port
        &&& self.rate_limit == other.rate_limit
        &&& opt_chars(self.rcon_password) == opt_chars(other.rcon_password)
        &&& self.rcon_port == other.rcon_port
        &&& opt_chars(self.region_file_compression) == opt_chars(other.region_file_compression)
        &&& self.require_resource_pack == other.require_resource_pack
        &&& opt_chars(self.resource_pack) == opt_chars(other.resource_pack)
        &&& opt_chars(self.resource_pack_id) == opt_chars(other.resource_pack_id)
        &&& opt_chars(self.resource_pack_prompt) == opt_chars(other.resource_pack_prompt)
        &&& opt_chars(self.resource_pack_sha1) == opt_chars(other.resource_pack_sha1)
        &&& opt_chars(self.server_ip) == opt_chars(other.server_ip)
        &&& self.server_port == other.server_port
        &&& self.simulation_distance == other.simulation_distance
        &&& self.spawn_monsters == other.spawn_monsters
        &&& self.spawn_protection == other.spawn_protection
        &&& self.status_heartbeat_interval == other.status_heartbeat_interval
        &&& self.sync_chunk_writes == other.sync_chunk_writes
        &&& opt_chars(self.text_filtering_config) == opt_chars(other.text_filtering_config)
        &&& self.text_filtering_version == other.text_filtering_version
        &&& self.use_native_transport == other.use_native_transport
        &&& self.view_distance == other.view_distance
        &&& self.white_list == other.white_list
        &&& self.pvp == other.pvp
    }
}

/// The boolean texts read back as their values.
proof fn lemma_bool_texts()
    ensures
        "true"@ != "false"@,
        no_nl("true"@) && trim_end("true"@) == "true"@,
        no_nl("false"@) && trim_end("false"@) == "false"@,
        bool_value(Some("true"@)) == Some(true),
        bool_value(Some("false"@)) == Some(false),
{
    reveal_strlit("true");
    reveal_strlit("false");
    assert("true"@[0] != "false"@[0]);
}

/// The text of a present setting holds no line break and ends in no whitespace.
proof fn lemma_field_text(p: ServerProperties, i: int)
    requires
        p.texts_ok(),
        0 <= i < num_fields(),
    ensures
        p.field_text(i) matches Some(t) ==> no_nl(t) && trim_end(t) == t,
{
    lemma_bool_texts();
    if i == 0 {
    } else if i == 1 {
    } else if i == 2 {
    } else if i == 3 {
    } else if i == 4 {
    } else if i == 5 {
    } else if i == 6 {
        if let Some(x) = p.chat_spam_threshold_seconds { lemma_parse_i32_dec(x); }
    } else if i == 7 {
        if let Some(x) = p.command_spam_threshold_seconds { lemma_parse_i32_dec(x); }
    } else if i == 8 {
    } else if i == 9 {
    } else if i == 10 {
    } else if i == 11 {
    } else if i == 12 {
    } else if i == 13 {
    } else if i == 14 {
    } else if i == 15 {
    } else if i == 16 {
        if let Some(x) = p.entity_broadcast_range_percentage { lemma_parse_i32_dec(x); }
    } else if i == 17 {
    } else if i == 18 {
        if let Some(x) = p.function_permission_level { lemma_parse_i32_dec(x); }
    } else if i == 19 {
    } else if i == 20 {
    } else if i == 21 {
    } else if i == 22 {
    } else if i == 23 {
    } else if i == 24 {
    } else if i == 25 {
    } else if i == 26 {
    } else if i == 27 {
    } else if i == 28 {
    } else if i == 29 {
    } else if i == 30 {
    } else if i == 31 {
    } else if i == 32 {
    } else if i == 33 {
        if let Some(x) = p.management_server_port { lemma_parse_i32_dec(x); }
    } else if i == 34 {
    } else if i == 35 {
    } else if i == 36 {
    } else if i == 37 {
    } else if i == 38 {
        if let Some(x) = p.max_chained_neighbor_updates { lemma_parse_i32_dec(x); }
    } else if i == 39 {
        if let Some(x) = p.max_players { lemma_parse_i32_dec(x); }
    } else if i == 40 {
        if let Some(x) = p.max_tick_time { lemma_parse_i32_dec(x); }
    } else if i == 41 {
        if let Some(x) = p.max_world_size { lemma_parse_i32_dec(x); }
    } else if i == 42 {
    } else if i == 43 {
        if let Some(x) = p.network_compression_threshold { lemma_parse_i32_dec(x); }
    } else if i == 44 {
    } else if i == 45 {
        if let Some(x) = p.op_permission_level { lemma_parse_i32_dec(x); }
    } else if i == 46 {
        if let Some(x) = p.pause_when_empty_seconds { lemma_parse_i32_dec(x); }
    } else if i == 47 {
        if let Some(x) = p.player_idle_timeout { lemma_parse_i32_dec(x); }
    } else if i == 48 {
    } else if i == 49 {
        if let Some(x) = p.query_port { lemma_parse_u16_dec(x); }
    } else if i == 50 {
        if let Some(x) = p.rate_limit { lemma_parse_i32_dec(x); }
    } else if i == 51 {
    } else if i == 52 {
        if let Some(x) = p.rcon_port { lemma_parse_u16_dec(x); }
    } else if i == 53 {
    } else if i == 54 {
    } else if i == 55 {
    } else if i == 56 {
    } else if i == 57 {
    } else if i == 58 {
    } else if i == 59 {
    } else if i == 60 {
        if let Some(x) = p.server_port { lemma_parse_u16_dec(x); }
    } else if i == 61 {
        if let Some(x) = p.simulation_distance { lemma_parse_i32_dec(x); }
    } else if i == 62 {
    } else if i == 63 {
        if let Some(x) = p.spawn_protection { lemma_parse_i32_dec(x); }
    } else if i == 64 {
        if let Some(x) = p.status_heartbeat_interval { lemma_parse_i32_dec(x); }
    } else if i == 65 {
    } else if i == 66 {
    } else if i == 67 {
        if let Some(x) = p.text_filtering_version { lemma_parse_i32_dec(x); }
    } else if i == 68 {
    } else if i == 69 {
        if let Some(x) = p.view_distance { lemma_parse_i32_dec(x); }
    } else if i == 70 {
    } else if i == 71 {
    }
}

proof fn lemma_updates_upto_ok(p: ServerProperties, n: nat)
    requires
        n <= num_fields(),
        p.texts_ok(),
    ensures
        updates_ok(p.updates_upto(n)),
    decreases n,
{
    if n > 0 {
        lemma_updates_upto_ok(p, (n - 1) as nat);
        lemma_field_text(p, n - 1);
        lemma_field_keys();
        assert(key_ok(field_key(n - 1)));
        let u = p.updates_upto((n - 1) as nat);
        match p.field_text(n - 1) {
            Some(t) => {
                let v = u.push((field_key(n - 1), t));
                assert forall|j: int| 0 <= j < v.len() implies key_ok((#[trigger] v[j]).0) && no_nl(
                    v[j].1,
                ) by {
                    if j < u.len() {
                        assert(v[j] == u[j]);
                    }
                }
            },
            None => {},
        }
    }
}

proof fn lemma_read_bool(content: Seq<char>, sent: ServerProperties, i: int, v: Option<bool>, old_v: Option<bool>, new_v: Option<bool>)
    requires
        0 <= i < num_fields(),
        updates_ok(sent.updates_spec()),
        sent.field_text(i) == bool_text(v),
        old_v == bool_value(lookup(text_entries(content), field_key(i))),
        new_v == bool_value(lookup(text_entries(applied(content, sent.updates_spec())), field_key(i))),
        agrees_bool(stale_value(lines(content), field_key(i)), v),
    ensures
        new_v == (if v is Some { v } else { old_v }),
{
    lemma_lookup_field(sent, num_fields(), i);
    law_read_back_key(content, sent.updates_spec(), field_key(i));
    lemma_bool_texts();
}

proof fn lemma_read_i32(content: Seq<char>, sent: ServerProperties, i: int, v: Option<i32>, old_v: Option<i32>, new_v: Option<i32>)
    requires
        0 <= i < num_fields(),
        updates_ok(sent.updates_spec()),
        sent.field_text(i) == i32_text(v),
        old_v == i32_value(lookup(text_entries(content), field_key(i))),
        new_v == i32_value(lookup(text_entries(applied(content, sent.updates_spec())), field_key(i))),
        agrees_i32(stale_value(lines(content), field_key(i)), v),
    ensures
        new_v == (if v is Some { v } else { old_v }),
{
    lemma_lookup_field(sent, num_fields(), i);
    law_read_back_key(content, sent.updates_spec(), field_key(i));
    if let Some(x) = v {
        lemma_parse_i32_dec(x);
    }
}

proof fn lemma_read_u16(content: Seq<char>, sent: ServerProperties, i: int, v: Option<u16>, old_v: Option<u16>, new_v: Option<u16>)
    requires
        0 <= i < num_fields(),
        updates_ok(sent.updates_spec()),
        sent.field_text(i) == u16_text(v),
        old_v == u16_value(lookup(text_entries(content), field_key(i))),
        new_v == u16_value(lookup(text_entries(applied(content, sent.updates_spec())), field_key(i))),
        agrees_u16(stale_value(lines(content), field_key(i)), v),
    ensures
        new_v == (if v is Some { v } else { old_v }),
{
    lemma_lookup_field(sent, num_fields(), i);
    law_read_back_key(content, sent.updates_spec(), field_key(i));
    if let Some(x) = v {
        lemma_parse_u16_dec(x);
    }
}

proof fn lemma_read_str(content: Seq<char>, sent: ServerProperties, i: int, v: Option<String>, old_v: Option<String>, new_v: Option<String>)
    requires
        0 <= i < num_fields(),
        updates_ok(sent.updates_spec()),
        text_ok(v),
        sent.field_text(i) == opt_chars(v),
        opt_chars(old_v) == lookup(text_entries(content), field_key(i)),
        opt_chars(new_v) == lookup(text_entries(applied(content, sent.updates_spec())), field_key(i)),
        agrees_str(stale_value(lines(content), field_key(i)), v),
    ensures
        opt_chars(new_v) == (if v is Some { opt_chars(v) } else { opt_chars(old_v) }),
{
    lemma_lookup_field(sent, num_fields(), i);
    law_read_back_key(content, sent.updates_spec(), field_key(i));
}

/// Configure, then read: when a client's settings `sent` are written into a
/// `server.properties` text (`to_updates`, then `apply_properties`) and the
/// result is read back (`from_str`), every setting that was sent reads as
/// sent and every other setting reads as it did before. This holds when each
/// text setting that was sent has no line break and no trailing whitespace,
/// and no line after the last line holding a sent key gives that key another
/// reading.
pub proof fn law_configure_then_read(
    content: Seq<char>,
    sent: ServerProperties,
    before: ServerProperties,
    after: ServerProperties,
)
    requires
        sent.texts_ok(),
        sent.stale_agrees(lines(content)),
        before.reads_from(text_entries(content)),
        after.reads_from(text_entries(applied(content, sent.updates_spec()))),
    ensures
        after.overlays(sent, before),
{
    lemma_updates_upto_ok(sent, num_fields());
    lemma_read_bool(content, sent, 0, sent.accepts_transfers, before.accepts_transfers, after.accepts_transfers);
    lemma_read_bool(content, sent, 1, sent.allow_flight, before.allow_flight, after.allow_flight);
    lemma_read_bool(content, sent, 2, sent.allow_nether, before.allow_nether, after.allow_nether);
    lemma_read_bool(content, sent, 3, sent.broadcast_console_to_ops, before.broadcast_console_to_ops, after.broadcast_console_to_ops);
    lemma_read_bool(content, sent, 4, sent.broadcast_rcon_to_ops, before.broadcast_rcon_to_ops, after.broadcast_rcon_to_ops);
    lemma_read_str(content, sent, 5, sent.bug_report_link, before.bug_report_link, after.bug_report_link);
    lemma_read_i32(content, sent, 6, sent.chat_spam_threshold_seconds, before.chat_spam_threshold_seconds, after.chat_spam_threshold_seconds);
    lemma_read_i32(content, sent, 7, sent.command_spam_threshold_seconds, before.command_spam_threshold_seconds, after.command_spam_threshold_seconds);
    lemma_read_str(content, sent, 8, sent.difficulty, before.difficulty, after.difficulty);
    lemma_read_bool(content, sent, 9, sent.enable_command_block, before.enable_command_block, after.enable_command_block);
    lemma_read_bool(content, sent, 10, sent.enable_jmx_monitoring, before.enable_jmx_monitoring, after.enable_jmx_monitoring);
    lemma_read_bool(content, sent, 11, sent.enable_query, before.enable_query, after.enable_query);
    lemma_read_bool(content, sent, 12, sent.enable_rcon, before.enable_rcon, after.enable_rcon);
    lemma_read_bool(content, sent, 13, sent.enable_status, before.enable_status, after.enable_status);
    lemma_read_bool(content, sent, 14, sent.enforce_secure_profile, before.enforce_secure_profile, after.enforce_secure_profile);
    lemma_read_bool(content, sent, 15, sent.enforce_whitelist, before.enforce_whitelist, after.enforce_whitelist);
    lemma_read_i32(content, sent, 16, sent.entity_broadcast_range_percentage, before.entity_broadcast_range_percentage, after.entity_broadcast_range_percentage);
    lemma_read_bool(content, sent, 17, sent.force_gamemode, before.force_gamemode, after.force_gamemode);
    lemma_read_i32(content, sent, 18, sent.function_permission_level, before.function_permission_level, after.function_permission_level);
    lemma_read_str(content, sent, 19, sent.gamemode, before.gamemode, after.gamemode);
    lemma_read_bool(content, sent, 20, sent.generate_structures, before.generate_structures, after.generate_structures);
    lemma_read_str(content, sent, 21, sent.generator_settings, before.generator_settings, after.generator_settings);
    lemma_read_bool(content, sent, 22, sent.hardcore, before.hardcore, after.hardcore);
    lemma_read_bool(content, sent, 23, sent.hide_online_players, before.hide_online_players, after.hide_online_players);
    lemma_read_str(content, sent, 24, sent.initial_disabled_packs, before.initial_disabled_packs, after.initial_disabled_packs);
    lemma_read_str(content, sent, 25, sent.initial_enabled_packs, before.initial_enabled_packs, after.initial_enabled_packs);
    lemma_read_str(content, sent, 26, sent.level_name, before.level_name, after.level_name);
    lemma_read_str(content, sent, 27, sent.level_seed, before.level_seed, after.level_seed);
    lemma_read_str(content, sent, 28, sent.level_type, before.level_type, after.level_type);
    lemma_read_bool(content, sent, 29, sent.log_ips, before.log_ips, after.log_ips);
    lemma_read_str(content, sent, 30, sent.management_server_allowed_origins, before.management_server_allowed_origins, after.management_server_allowed_origins);
    lemma_read_bool(content, sent, 31, sent.management_server_enabled, before.management_server_enabled, after.management_server_enabled);
    lemma_read_str(content, sent, 32, sent.management_server_host, before.management_server_host, after.management_server_host);
    lemma_read_i32(content, sent, 33, sent.management_server_port, before.management_server_port, after.management_server_port);
    lemma_read_str(content, sent, 34, sent.management_server_secret, before.management_server_secret, after.management_server_secret);
    lemma_read_bool(content, sent, 35, sent.management_server_tls_enabled, before.management_server_tls_enabled, after.management_server_tls_enabled);
    lemma_read_str(content, sent, 36, sent.management_server_tls_keystore, before.management_server_tls_keystore, after.management_server_tls_keystore);
    lemma_read_str(content, sent, 37, sent.management_server_tls_keystore_password, before.management_server_tls_keystore_password, after.management_server_tls_keystore_password);
    lemma_read_i32(content, sent, 38, sent.max_chained_neighbor_updates, before.max_chained_neighbor_updates, after.max_chained_neighbor_updates);
    lemma_read_i32(content, sent, 39, sent.max_players, before.max_players, after.max_players);
    lemma_read_i32(content, sent, 40, sent.max_tick_time, before.max_tick_time, after.max_tick_time);
    lemma_read_i32(content, sent, 41, sent.max_world_size, before.max_world_size, after.max_world_size);
    lemma_read_str(content, sent, 42, sent.motd, before.motd, after.motd);
    lemma_read_i32(content, sent, 43, sent.network_compression_threshold, before.network_compression_threshold, after.network_compression_threshold);
    lemma_read_bool(content, sent, 44, sent.online_mode, before.online_mode, after.online_mode);
    lemma_read_i32(content, sent, 45, sent.op_permission_level, before.op_permission_level, after.op_permission_level);
    lemma_read_i32(content, sent, 46, sent.pause_when_empty_seconds, before.pause_when_empty_seconds, after.pause_when_empty_seconds);
    lemma_read_i32(content, sent, 47, sent.player_idle_timeout, before.player_idle_timeout, after.player_idle_timeout);
    lemma_read_bool(content, sent, 48, sent.prevent_proxy_connections, before.prevent_proxy_connections, after.prevent_proxy_connections);
    lemma_read_u16(content, sent, 49, sent.query_port, before.query_port, after.query_port);
    lemma_read_i32(content, sent, 50, sent.rate_limit, before.rate_limit, after.rate_limit);
    lemma_read_str(content, sent, 51, sent.rcon_password, before.rcon_password, after.rcon_password);
    lemma_read_u16(content, sent, 52, sent.rcon_port, before.rcon_port, after.rcon_port);
    lemma_read_str(content, sent, 53, sent.region_file_compression, before.region_file_compression, after.region_file_compression);
    lemma_read_bool(content, sent, 54, sent.require_resource_pack, before.require_resource_pack, after.require_resource_pack);
    lemma_read_str(content, sent, 55, sent.resource_pack, before.resource_pack, after.resource_pack);
    lemma_read_str(content, sent, 56, sent.resource_pack_id, before.resource_pack_id, after.resource_pack_id);
    lemma_read_str(content, sent, 57, sent.resource_pack_prompt, before.resource_pack_prompt, after.resource_pack_prompt);
    lemma_read_str(content, sent, 58, sent.resource_pack_sha1, before.resource_pack_sha1, after.resource_pack_sha1);
    lemma_read_str(content, sent, 59, sent.server_ip, before.server_ip, after.server_ip);
    lemma_read_u16(content, sent, 60, sent.server_port, before.server_port, after.server_port);
    lemma_read_i32(content, sent, 61, sent.simulation_distance, before.simulation_distance, after.simulation_distance);
    lemma_read_bool(content, sent, 62, sent.spawn_monsters, before.spawn_monsters, after.spawn_monsters);
    lemma_read_i32(content, sent, 63, sent.spawn_protection, before.spawn_protection, after.spawn_protection);
    lemma_read_i32(content, sent, 64, sent.status_heartbeat_interval, before.status_heartbeat_interval, after.status_heartbeat_interval);
    lemma_read_bool(content, sent, 65, sent.sync_chunk_writes, before.sync_chunk_writes, after.sync_chunk_writes);
    lemma_read_str(content, sent, 66, sent.text_filtering_config, before.text_filtering_config, after.text_filtering_config);
    lemma_read_i32(content, sent, 67, sent.text_filtering_version, before.text_filtering_version, after.text_filtering_version);
    lemma_read_bool(content, sent, 68, sent.use_native_transport, before.use_native_transport, after.use_native_transport);
    lemma_read_i32(content, sent, 69, sent.view_distance, before.view_distance, after.view_distance);
    lemma_read_bool(content, sent, 70, sent.white_list, before.white_list, after.white_list);
    lemma_read_bool(content, sent, 71, sent.pvp, before.pvp, after.pvp);
}

/// Each setting is read from the key that names it: whatever the entries,
/// a value read from them holds in each field what the last entry with that
/// field's own key gives.
pub proof fn law_read_keys(r: ServerProperties, es: Seq<Entry>)
    requires
        r.reads_from(es),
    ensures
        r.accepts_transfers == bool_value(lookup(es, "accepts-transfers"@)),
        r.allow_flight == bool_value(lookup(es, "allow-flight"@)),
        r.allow_nether == bool_value(lookup(es, "allow-nether"@)),
        r.broadcast_console_to_ops == bool_value(lookup(es, "broadcast-console-to-ops"@)),
        r.broadcast_rcon_to_ops == bool_value(lookup(es, "broadcast-rcon-to-ops"@)),
        opt_chars(r.bug_report_link) == lookup(es, "bug-report-link"@),
        r.chat_spam_threshold_seconds == i32_value(lookup(es, "chat-spam-threshold-seconds"@)),
        r.command_spam_threshold_seconds == i32_value(lookup(es, "command-spam-threshold-seconds"@)),
        opt_chars(r.difficulty) == lookup(es, "difficulty"@),
        r.enable_command_block == bool_value(lookup(es, "enable-command-block"@)),
        r.enable_jmx_monitoring == bool_value(lookup(es, "enable-jmx-monitoring"@)),
        r.enable_query == bool_value(lookup(es, "enable-query"@)),
        r.enable_rcon == bool_value(lookup(es, "enable-rcon"@)),
        r.enable_status == bool_value(lookup(es, "enable-status"@)),
        r.enforce_secure_profile == bool_value(lookup(es, "enforce-secure-profile"@)),
        r.enforce_whitelist == bool_value(lookup(es, "enforce-whitelist"@)),
        r.entity_broadcast_range_percentage == i32_value(lookup(es, "entity-broadcast-range-percentage"@)),
        r.force_gamemode == bool_value(lookup(es, "force-gamemode"@)),
        r.function_permission_level == i32_value(lookup(es, "function-permission-level"@)),
        opt_chars(r.gamemode) == lookup(es, "gamemode"@),
        r.generate_structures == bool_value(lookup(es, "generate-structures"@)),
        opt_chars(r.generator_settings) == lookup(es, "generator-settings"@),
        r.hardcore == bool_value(lookup(es, "hardcore"@)),
        r.hide_online_players == bool_value(lookup(es, "hide-online-players"@)),
        opt_chars(r.initial_disabled_packs) == lookup(es, "initial-disabled-packs"@),
        opt_chars(r.initial_enabled_packs) == lookup(es, "initial-enabled-packs"@),
        opt_chars(r.level_name) == lookup(es, "level-name"@),
        opt_chars(r.level_seed) == lookup(es, "level-seed"@),
        opt_chars(r.level_type) == lookup(es, "level-type"@),
        r.log_ips == bool_value(lookup(es, "log-ips"@)),
        opt_chars(r.management_server_allowed_origins) == lookup(es, "management-server-allowed-origins"@),
        r.management_server_enabled == bool_value(lookup(es, "management-server-enabled"@)),
        opt_chars(r.management_server_host) == lookup(es, "management-server-host"@),
        r.management_server_port == i32_value(lookup(es, "management-server-port"@)),
        opt_chars(r.management_server_secret) == lookup(es, "management-server-secret"@),
        r.management_server_tls_enabled == bool_value(lookup(es, "management-server-tls-enabled"@)),
        opt_chars(r.management_server_tls_keystore) == lookup(es, "management-server-tls-keystore"@),
        opt_chars(r.management_server_tls_keystore_password) == lookup(es, "management-server-tls-keystore-password"@),
        r.max_chained_neighbor_updates == i32_value(lookup(es, "max-chained-neighbor-updates"@)),
        r.max_players == i32_value(lookup(es, "max-players"@)),
        r.max_tick_time == i32_value(lookup(es, "max-tick-time"@)),
        r.max_world_size == i32_value(lookup(es, "max-world-size"@)),
        opt_chars(r.motd) == lookup(es, "motd"@),
        r.network_compression_threshold == i32_value(lookup(es, "network-compression-threshold"@)),
        r.online_mode == bool_value(lookup(es, "online-mode"@)),
        r.op_permission_level == i32_value(lookup(es, "op-permission-level"@)),
        r.pause_when_empty_seconds == i32_value(lookup(es, "pause-when-empty-seconds"@)),
        r.player_idle_timeout == i32_value(lookup(es, "player-idle-timeout"@)),
        r.prevent_proxy_connections == bool_value(lookup(es, "prevent-proxy-connections"@)),
        r.query_port == u16_value(lookup(es, "query.port"@)),
        r.rate_limit == i32_value(lookup(es, "rate-limit"@)),
        opt_chars(r.rcon_password) == lookup(es, "rcon.password"@),
        r.rcon_port == u16_value(lookup(es, "rcon.port"@)),
        opt_chars(r.region_file_compression) == lookup(es, "region-file-compression"@),
        r.require_resource_pack == bool_value(lookup(es, "require-resource-pack"@)),
        opt_chars(r.resource_pack) == lookup(es, "resource-pack"@),
        opt_chars(r.resource_pack_id) == lookup(es, "resource-pack-id"@),
        opt_chars(r.resource_pack_prompt) == lookup(es, "resource-pack-prompt"@),
        opt_chars(r.resource_pack_sha1) == lookup(es, "resource-pack-sha1"@),
        opt_chars(r.server_ip) == lookup(es, "server-ip"@),
        r.server_port == u16_value(lookup(es, "server-port"@)),
        r.simulation_distance == i32_value(lookup(es, "simulation-distance"@)),
        r.spawn_monsters == bool_value(lookup(es, "spawn-monsters"@)),
        r.spawn_protection == i32_value(lookup(es, "spawn-protection"@)),
        r.status_heartbeat_interval == i32_value(lookup(es, "status-heartbeat-interval"@)),
        r.sync_chunk_writes == bool_value(lookup(es, "sync-chunk-writes"@)),
        opt_chars(r.text_filtering_config) == lookup(es, "text-filtering-config"@),
        r.text_filtering_version == i32_value(lookup(es, "text-filtering-version"@)),
        r.use_native_transport == bool_value(lookup(es, "use-native-transport"@)),
        r.view_distance == i32_value(lookup(es, "view-distance"@)),
        r.white_list == bool_value(lookup(es, "white-list"@)),
        r.pvp == bool_value(lookup(es, "pvp"@)),
{
}

/// Each setting is written under the key that names it: the updates of the
/// settings give each field's own key that field's text (`true`/`false`, the
/// decimal number, or the text itself), and no value when the field is absent.
pub proof fn law_update_keys(p: ServerProperties)
    ensures
        lookup(p.updates_spec(), "accepts-transfers"@) == bool_text(p.accepts_transfers),
        lookup(p.updates_spec(), "allow-flight"@) == bool_text(p.allow_flight),
        lookup(p.updates_spec(), "allow-nether"@) == bool_text(p.allow_nether),
        lookup(p.updates_spec(), "broadcast-console-to-ops"@) == bool_text(p.broadcast_console_to_ops),
        lookup(p.updates_spec(), "broadcast-rcon-to-ops"@) == bool_text(p.broadcast_rcon_to_ops),
        lookup(p.updates_spec(), "bug-report-link"@) == opt_chars(p.bug_report_link),
        lookup(p.updates_spec(), "chat-spam-threshold-seconds"@) == i32_text(p.chat_spam_threshold_seconds),
        lookup(p.updates_spec(), "command-spam-threshold-seconds"@) == i32_text(p.command_spam_threshold_seconds),
        lookup(p.updates_spec(), "difficulty"@) == opt_chars(p.difficulty),
        lookup(p.updates_spec(), "enable-command-block"@) == bool_text(p.enable_command_block),
        lookup(p.updates_spec(), "enable-jmx-monitoring"@) == bool_text(p.enable_jmx_monitoring),
        lookup(p.updates_spec(), "enable-query"@) == bool_text(p.enable_query),
        lookup(p.updates_spec(), "enable-rcon"@) == bool_text(p.enable_rcon),
        lookup(p.updates_spec(), "enable-status"@) == bool_text(p.enable_status),
        lookup(p.updates_spec(), "enforce-secure-profile"@) == bool_text(p.enforce_secure_profile),
        lookup(p.updates_spec(), "enforce-whitelist"@) == bool_text(p.enforce_whitelist),
        lookup(p.updates_spec(), "entity-broadcast-range-percentage"@) == i32_text(p.entity_broadcast_range_percentage),
        lookup(p.updates_spec(), "force-gamemode"@) == bool_text(p.force_gamemode),
        lookup(p.updates_spec(), "function-permission-level"@) == i32_text(p.function_permission_level),
        lookup(p.updates_spec(), "gamemode"@) == opt_chars(p.gamemode),
        lookup(p.updates_spec(), "generate-structures"@) == bool_text(p.generate_structures),
        lookup(p.updates_spec(), "generator-settings"@) == opt_chars(p.generator_settings),
        lookup(p.updates_spec(), "hardcore"@) == bool_text(p.hardcore),
        lookup(p.updates_spec(), "hide-online-players"@) == bool_text(p.hide_online_players),
        lookup(p.updates_spec(), "initial-disabled-packs"@) == opt_chars(p.initial_disabled_packs),
        lookup(p.updates_spec(), "initial-enabled-packs"@) == opt_chars(p.initial_enabled_packs),
        lookup(p.updates_spec(), "level-name"@) == opt_chars(p.level_name),
        lookup(p.updates_spec(), "level-seed"@) == opt_chars(p.level_seed),
        lookup(p.updates_spec(), "level-type"@) == opt_chars(p.level_type),
        lookup(p.updates_spec(), "log-ips"@) == bool_text(p.log_ips),
        lookup(p.updates_spec(), "management-server-allowed-origins"@) == opt_chars(p.management_server_allowed_origins),
        lookup(p.updates_spec(), "management-server-enabled"@) == bool_text(p.management_server_enabled),
        lookup(p.updates_spec(), "management-server-host"@) == opt_chars(p.management_server_host),
        lookup(p.updates_spec(), "management-server-port"@) == i32_text(p.management_server_port),
        lookup(p.updates_spec(), "management-server-secret"@) == opt_chars(p.management_server_secret),
        lookup(p.updates_spec(), "management-server-tls-enabled"@) == bool_text(p.management_server_tls_enabled),
        lookup(p.updates_spec(), "management-server-tls-keystore"@) == opt_chars(p.management_server_tls_keystore),
        lookup(p.updates_spec(), "management-server-tls-keystore-password"@) == opt_chars(p.management_server_tls_keystore_password),
        lookup(p.updates_spec(), "max-chained-neighbor-updates"@) == i32_text(p.max_chained_neighbor_updates),
        lookup(p.updates_spec(), "max-players"@) == i32_text(p.max_players),
        lookup(p.updates_spec(), "max-tick-time"@) == i32_text(p.max_tick_time),
        lookup(p.updates_spec(), "max-world-size"@) == i32_text(p.max_world_size),
        lookup(p.updates_spec(), "motd"@) == opt_chars(p.motd),
        lookup(p.updates_spec(), "network-compression-threshold"@) == i32_text(p.network_compression_threshold),
        lookup(p.updates_spec(), "online-mode"@) == bool_text(p.online_mode),
        lookup(p.updates_spec(), "op-permission-level"@) == i32_text(p.op_permission_level),
        lookup(p.updates_spec(), "pause-when-empty-seconds"@) == i32_text(p.pause_when_empty_seconds),
        lookup(p.updates_spec(), "player-idle-timeout"@) == i32_text(p.player_idle_timeout),
        lookup(p.updates_spec(), "prevent-proxy-connections"@) == bool_text(p.prevent_proxy_connections),
        lookup(p.updates_spec(), "query.port"@) == u16_text(p.query_port),
        lookup(p.updates_spec(), "rate-limit"@) == i32_text(p.rate_limit),
        lookup(p.updates_spec(), "rcon.password"@) == opt_chars(p.rcon_password),
        lookup(p.updates_spec(), "rcon.port"@) == u16_text(p.rcon_port),
        lookup(p.updates_spec(), "region-file-compression"@) == opt_chars(p.region_file_compression),
        lookup(p.updates_spec(), "require-resource-pack"@) == bool_text(p.require_resource_pack),
        lookup(p.updates_spec(), "resource-pack"@) == opt_chars(p.resource_pack),
        lookup(p.updates_spec(), "resource-pack-id"@) == opt_chars(p.resource_pack_id),
        lookup(p.updates_spec(), "resource-pack-prompt"@) == opt_chars(p.resource_pack_prompt),
        lookup(p.updates_spec(), "resource-pack-sha1"@) == opt_chars(p.resource_pack_sha1),
        lookup(p.updates_spec(), "server-ip"@) == opt_chars(p.server_ip),
        lookup(p.updates_spec(), "server-port"@) == u16_text(p.server_port),
        lookup(p.updates_spec(), "simulation-distance"@) == i32_text(p.simulation_distance),
        lookup(p.updates_spec(), "spawn-monsters"@) == bool_text(p.spawn_monsters),
        lookup(p.updates_spec(), "spawn-protection"@) == i32_text(p.spawn_protection),
        lookup(p.updates_spec(), "status-heartbeat-interval"@) == i32_text(p.status_heartbeat_interval),
        lookup(p.updates_spec(), "sync-chunk-writes"@) == bool_text(p.sync_chunk_writes),
        lookup(p.updates_spec(), "text-filtering-config"@) == opt_chars(p.text_filtering_config),
        lookup(p.updates_spec(), "text-filtering-version"@) == i32_text(p.text_filtering_version),
        lookup(p.updates_spec(), "use-native-transport"@) == bool_text(p.use_native_transport),
        lookup(p.updates_spec(), "view-distance"@) == i32_text(p.view_distance),
        lookup(p.updates_spec(), "white-list"@) == bool_text(p.white_list),
        lookup(p.updates_spec(), "pvp"@) == bool_text(p.pvp),
{
    lemma_lookup_field(p, num_fields(), 0);
    lemma_lookup_field(p, num_fields(), 1);
    lemma_lookup_field(p, num_fields(), 2);
    lemma_lookup_field(p, num_fields(), 3);
    lemma_lookup_field(p, num_fields(), 4);
    lemma_lookup_field(p, num_fields(), 5);
    lemma_lookup_field(p, num_fields(), 6);
    lemma_lookup_field(p, num_fields(), 7);
    lemma_lookup_field(p, num_fields(), 8);
    lemma_lookup_field(p, num_fields(), 9);
    lemma_lookup_field(p, num_fields(), 10);
    lemma_lookup_field(p, num_fields(), 11);
    lemma_lookup_field(p, num_fields(), 12);
    lemma_lookup_field(p, num_fields(), 13);
    lemma_lookup_field(p, num_fields(), 14);
    lemma_lookup_field(p, num_fields(), 15);
    lemma_lookup_field(p, num_fields(), 16);
    lemma_lookup_field(p, num_fields(), 17);
    lemma_lookup_field(p, num_fields(), 18);
    lemma_lookup_field(p, num_fields(), 19);
    lemma_lookup_field(p, num_fields(), 20);
    lemma_lookup_field(p, num_fields(), 21);
    lemma_lookup_field(p, num_fields(), 22);
    lemma_lookup_field(p, num_fields(), 23);
    lemma_lookup_field(p, num_fields(), 24);
    lemma_lookup_field(p, num_fields(), 25);
    lemma_lookup_field(p, num_fields(), 26);
    lemma_lookup_field(p, num_fields(), 27);
    lemma_lookup_field(p, num_fields(), 28);
    lemma_lookup_field(p, num_fields(), 29);
    lemma_lookup_field(p, num_fields(), 30);
    lemma_lookup_field(p, num_fields(), 31);
    lemma_lookup_field(p, num_fields(), 32);
    lemma_lookup_field(p, num_fields(), 33);
    lemma_lookup_field(p, num_fields(), 34);
    lemma_lookup_field(p, num_fields(), 35);
    lemma_lookup_field(p, num_fields(), 36);
    lemma_lookup_field(p, num_fields(), 37);
    lemma_lookup_field(p, num_fields(), 38);
    lemma_lookup_field(p, num_fields(), 39);
    lemma_lookup_field(p, num_fields(), 40);
    lemma_lookup_field(p, num_fields(), 41);
    lemma_lookup_field(p, num_fields(), 42);
    lemma_lookup_field(p, num_fields(), 43);
    lemma_lookup_field(p, num_fields(), 44);
    lemma_lookup_field(p, num_fields(), 45);
    lemma_lookup_field(p, num_fields(), 46);
    lemma_lookup_field(p, num_fields(), 47);
    lemma_lookup_field(p, num_fields(), 48);
    lemma_lookup_field(p, num_fields(), 49);
    lemma_lookup_field(p, num_fields(), 50);
    lemma_lookup_field(p, num_fields(), 51);
    lemma_lookup_field(p, num_fields(), 52);
    lemma_lookup_field(p, num_fields(), 53);
    lemma_lookup_field(p, num_fields(), 54);
    lemma_lookup_field(p, num_fields(), 55);
    lemma_lookup_field(p, num_fields(), 56);
    lemma_lookup_field(p, num_fields(), 57);
    lemma_lookup_field(p, num_fields(), 58);
    lemma_lookup_field(p, num_fields(), 59);
    lemma_lookup_field(p, num_fields(), 60);
    lemma_lookup_field(p, num_fields(), 61);
    lemma_lookup_field(p, num_fields(), 62);
    lemma_lookup_field(p, num_fields(), 63);
    lemma_lookup_field(p, num_fields(), 64);
    lemma_lookup_field(p, num_fields(), 65);
    lemma_lookup_field(p, num_fields(), 66);
    lemma_lookup_field(p, num_fields(), 67);
    lemma_lookup_field(p, num_fields(), 68);
    lemma_lookup_field(p, num_fields(), 69);
    lemma_lookup_field(p, num_fields(), 70);
    lemma_lookup_field(p, num_fields(), 71);
}

/// Configure, then read, for a file none of whose lines starts with
/// whitespace: every setting that was sent reads as sent and every other
/// setting reads as it did before, when each text setting that was sent has
/// no line break and no trailing whitespace.
pub proof fn law_configure_then_read_plain(
    content: Seq<char>,
    sent: ServerProperties,
    before: ServerProperties,
    after: ServerProperties,
)
    requires
        sent.texts_ok(),
        no_leading_ws(lines(content)),
        before.reads_from(text_entries(content)),
        after.reads_from(text_entries(applied(content, sent.updates_spec()))),
    ensures
        after.overlays(sent, before),
{
    lemma_stale_agrees_plain(lines(content), sent);
    law_configure_then_read(content, sent, before, after);
}

proof fn lemma_stale_agrees_plain(ls: Seq<Seq<char>>, p: ServerProperties)
    requires
        no_leading_ws(ls),
    ensures
        p.stale_agrees(ls),
{
    lemma_no_stale(ls);
    assert(stale_value(ls, "accepts-transfers"@) is None);
    assert(stale_value(ls, "allow-flight"@) is None);
    assert(stale_value(ls, "allow-nether"@) is None);
    assert(stale_value(ls, "broadcast-console-to-ops"@) is None);
    assert(stale_value(ls, "broadcast-rcon-to-ops"@) is None);
    assert(stale_value(ls, "bug-report-link"@) is None);
    assert(stale_value(ls, "chat-spam-threshold-seconds"@) is None);
    assert(stale_value(ls, "command-spam-threshold-seconds"@) is None);
    assert(stale_value(ls, "difficulty"@) is None);
    assert(stale_value(ls, "enable-command-block"@) is None);
    assert(stale_value(ls, "enable-jmx-monitoring"@) is None);
    assert(stale_value(ls, "enable-query"@) is None);
    assert(stale_value(ls, "enable-rcon"@) is None);
    assert(stale_value(ls, "enable-status"@) is None);
    assert(stale_value(ls, "enforce-secure-profile"@) is None);
    assert(stale_value(ls, "enforce-whitelist"@) is None);
    assert(stale_value(ls, "entity-broadcast-range-percentage"@) is None);
    assert(stale_value(ls, "force-gamemode"@) is None);
    assert(stale_value(ls, "function-permission-level"@) is None);
    assert(stale_value(ls, "gamemode"@) is None);
    assert(stale_value(ls, "generate-structures"@) is None);
    assert(stale_value(ls, "generator-settings"@) is None);
    assert(stale_value(ls, "hardcore"@) is None);
    assert(stale_value(ls, "hide-online-players"@) is None);
    assert(stale_value(ls, "initial-disabled-packs"@) is None);
    assert(stale_value(ls, "initial-enabled-packs"@) is None);
    assert(stale_value(ls, "level-name"@) is None);
    assert(stale_value(ls, "level-seed"@) is None);
    assert(stale_value(ls, "level-type"@) is None);
    assert(stale_value(ls, "log-ips"@) is None);
    assert(stale_value(ls, "management-server-allowed-origins"@) is None);
    assert(stale_value(ls, "management-server-enabled"@) is None);
    assert(stale_value(ls, "management-server-host"@) is None);
    assert(stale_value(ls, "management-server-port"@) is None);
    assert(stale_value(ls, "management-server-secret"@) is None);
    assert(stale_value(ls, "management-server-tls-enabled"@) is None);
    assert(stale_value(ls, "management-server-tls-keystore"@) is None);
    assert(stale_value(ls, "management-server-tls-keystore-password"@) is None);
    assert(stale_value(ls, "max-chained-neighbor-updates"@) is None);
    assert(stale_value(ls, "max-players"@) is None);
    assert(stale_value(ls, "max-tick-time"@) is None);
    assert(stale_value(ls, "max-world-size"@) is None);
    assert(stale_value(ls, "motd"@) is None);
    assert(stale_value(ls, "network-compression-threshold"@) is None);
    assert(stale_value(ls, "online-mode"@) is None);
    assert(stale_value(ls, "op-permission-level"@) is None);
    assert(stale_value(ls, "pause-when-empty-seconds"@) is None);
    assert(stale_value(ls, "player-idle-timeout"@) is None);
    assert(stale_value(ls, "prevent-proxy-connections"@) is None);
    assert(stale_value(ls, "query.port"@) is None);
    assert(stale_value(ls, "rate-limit"@) is None);
    assert(stale_value(ls, "rcon.password"@) is None);
    assert(stale_value(ls, "rcon.port"@) is None);
    assert(stale_value(ls, "region-file-compression"@) is None);
    assert(stale_value(ls, "require-resource-pack"@) is None);
    assert(stale_value(ls, "resource-pack"@) is None);
    assert(stale_value(ls, "resource-pack-id"@) is None);
    assert(stale_value(ls, "resource-pack-prompt"@) is None);
    assert(stale_value(ls, "resource-pack-sha1"@) is None);
    assert(stale_value(ls, "server-ip"@) is None);
    assert(stale_value(ls, "server-port"@) is None);
    assert(stale_value(ls, "simulation-distance"@) is None);
    assert(stale_value(ls, "spawn-monsters"@) is None);
    assert(stale_value(ls, "spawn-protection"@) is None);
    assert(stale_value(ls, "status-heartbeat-interval"@) is None);
    assert(stale_value(ls, "sync-chunk-writes"@) is None);
    assert(stale_value(ls, "text-filtering-config"@) is None);
    assert(stale_value(ls, "text-filtering-version"@) is None);
    assert(stale_value(ls, "use-native-transport"@) is None);
    assert(stale_value(ls, "view-distance"@) is None);
    assert(stale_value(ls, "white-list"@) is None);
    assert(stale_value(ls, "pvp"@) is None);
}

/// Unknown keys are silently ignored: adding to a text a line whose entry
/// (if any) has a key that is not a setting's key changes no setting read
/// from it.
pub proof fn law_unknown_key_ignored(
    ls: Seq<Seq<char>>,
    l: Seq<char>,
    before: ServerProperties,
    after: ServerProperties,
)
    requires
        forall|i: int| 0 <= i < ls.len() ==> no_nl(#[trigger] ls[i]),
        no_nl(l),
        line_entry(l) matches Some(e) ==> key_index(e.0) == -1,
        before.reads_from(text_entries(join_nl(ls))),
        after.reads_from(text_entries(join_nl(ls.push(l)))),
    ensures
        after.same_settings(before),
{
    let ms = ls.push(l);
    assert forall|i: int| 0 <= i < ms.len() implies no_nl(#[trigger] ms[i]) by {
        if i < ls.len() {
            assert(ms[i] == ls[i]);
        }
    }
    lemma_lines_join(ls);
    lemma_lines_join(ms);
    lemma_entries_strip_cr(ls);
    lemma_entries_strip_cr(ms);
    assert(ms.drop_last() =~= ls);
    assert forall|k: Seq<char>| key_index(k) != -1 implies lookup(entries(ms), k) == lookup(
        entries(ls),
        k,
    ) by {
        lemma_lookup_last_line(ms, k);
    }
    assert(key_index("accepts-transfers"@) != -1);
    assert(key_index("allow-flight"@) != -1);
    assert(key_index("allow-nether"@) != -1);
    assert(key_index("broadcast-console-to-ops"@) != -1);
    assert(key_index("broadcast-rcon-to-ops"@) != -1);
    assert(key_index("bug-report-link"@) != -1);
    assert(key_index("chat-spam-threshold-seconds"@) != -1);
    assert(key_index("command-spam-threshold-seconds"@) != -1);
    assert(key_index("difficulty"@) != -1);
    assert(key_index("enable-command-block"@) != -1);
    assert(key_index("enable-jmx-monitoring"@) != -1);
    assert(key_index("enable-query"@) != -1);
    assert(key_index("enable-rcon"@) != -1);
    assert(key_index("enable-status"@) != -1);
    assert(key_index("enforce-secure-profile"@) != -1);
    assert(key_index("enforce-whitelist"@) != -1);
    assert(key_index("entity-broadcast-range-percentage"@) != -1);
    assert(key_index("force-gamemode"@) != -1);
    assert(key_index("function-permission-level"@) != -1);
    assert(key_index("gamemode"@) != -1);
    assert(key_index("generate-structures"@) != -1);
    assert(key_index("generator-settings"@) != -1);
    assert(key_index("hardcore"@) != -1);
    assert(key_index("hide-online-players"@) != -1);
    assert(key_index("initial-disabled-packs"@) != -1);
    assert(key_index("initial-enabled-packs"@) != -1);
    assert(key_index("level-name"@) != -1);
    assert(key_index("level-seed"@) != -1);
    assert(key_index("level-type"@) != -1);
    assert(key_index("log-ips"@) != -1);
    assert(key_index("management-server-allowed-origins"@) != -1);
    assert(key_index("management-server-enabled"@) != -1);
    assert(key_index("management-server-host"@) != -1);
    assert(key_index("management-server-port"@) != -1);
    assert(key_index("management-server-secret"@) != -1);
    assert(key_index("management-server-tls-enabled"@) != -1);
    assert(key_index("management-server-tls-keystore"@) != -1);
    assert(key_index("management-server-tls-keystore-password"@) != -1);
    assert(key_index("max-chained-neighbor-updates"@) != -1);
    assert(key_index("max-players"@) != -1);
    assert(key_index("max-tick-time"@) != -1);
    assert(key_index("max-world-size"@) != -1);
    assert(key_index("motd"@) != -1);
    assert(key_index("network-compression-threshold"@) != -1);
    assert(key_index("online-mode"@) != -1);
    assert(key_index("op-permission-level"@) != -1);
    assert(key_index("pause-when-empty-seconds"@) != -1);
    assert(key_index("player-idle-timeout"@) != -1);
    assert(key_index("prevent-proxy-connections"@) != -1);
    assert(key_index("query.port"@) != -1);
    assert(key_index("rate-limit"@) != -1);
    assert(key_index("rcon.password"@) != -1);
    assert(key_index("rcon.port"@) != -1);
    assert(key_index("region-file-compression"@) != -1);
    assert(key_index("require-resource-pack"@) != -1);
    assert(key_index("resource-pack"@) != -1);
    assert(key_index("resource-pack-id"@) != -1);
    assert(key_index("resource-pack-prompt"@) != -1);
    assert(key_index("resource-pack-sha1"@) != -1);
    assert(key_index("server-ip"@) != -1);
    assert(key_index("server-port"@) != -1);
    assert(key_index("simulation-distance"@) != -1);
    assert(key_index("spawn-monsters"@) != -1);
    assert(key_index("spawn-protection"@) != -1);
    assert(key_index("status-heartbeat-interval"@) != -1);
    assert(key_index("sync-chunk-writes"@) != -1);
    assert(key_index("text-filtering-config"@) != -1);
    assert(key_index("text-filtering-version"@) != -1);
    assert(key_index("use-native-transport"@) != -1);
    assert(key_index("view-distance"@) != -1);
    assert(key_index("white-list"@) != -1);
    assert(key_index("pvp"@) != -1);
}

} // verus!
