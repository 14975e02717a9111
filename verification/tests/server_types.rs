use slauncher_backend::entities::{Model, ServerType};
use slauncher_backend::fabric::server_jar_url;
use slauncher_backend::forge::installer_url;
use slauncher_backend::server_types::{join_path, FabricServer, ForgeServer};

fn model() -> Model {
    Model {
        id: 3,
        name: "survival".to_string(),
        server_type: ServerType::Forge,
        minecraft_version: "1.20.1".to_string(),
        server_version: "47.2.0".to_string(),
    }
}

#[test]
fn fabric_jar_url_exact() {
    assert_eq!(
        server_jar_url("1.20.1", "0.15.11"),
        "https://meta.fabricmc.net/v2/versions/loader/1.20.1/0.15.11/1.1.1/server/jar"
    );
}

#[test]
fn fabric_urls_agree() {
    assert_eq!(FabricServer::build_download_url("1.21", "0.16.0"), server_jar_url("1.21", "0.16.0"));
}

#[test]
fn forge_installer_url_exact() {
    assert_eq!(
        installer_url("1.20.1-47.2.0"),
        "https://maven.minecraftforge.net/net/minecraftforge/forge/1.20.1-47.2.0/forge-1.20.1-47.2.0-installer.jar"
    );
}

#[test]
fn forge_download_url_joins_versions() {
    assert_eq!(ForgeServer::build_download_url("1.20.1", "47.2.0"), installer_url("1.20.1-47.2.0"));
}

#[test]
fn paths_join_like_pathbuf() {
    for (a, b) in [("./servers", "5"), ("./servers/", "5"), ("", "x"), ("./servers", "/abs"), ("./servers", "")] {
        let want = std::path::PathBuf::from(a).join(b);
        assert_eq!(join_path(a, b), want.to_str().unwrap(), "{:?} {:?}", a, b);
    }
}

#[test]
fn fabric_server_launch_command() {
    let mut s = FabricServer::new("7");
    assert_eq!(s.dir(), "./servers/7");
    assert_eq!(s.download_path(), "./servers/7/server");
    assert_eq!(s.launch_command().program, "java");
    assert_eq!(s.launch_command().current_dir, "./servers/7");
    assert_eq!(s.launch_command().args, vec!["-jar".to_string()]);
    s.setup_launch_command("server", "1.20.1", "0.15.11");
    assert_eq!(s.launch_command().args, vec!["-jar".to_string(), "server".to_string(), "nogui".to_string()]);
}

#[test]
fn forge_server_launch_command() {
    let mut s = ForgeServer::new("9");
    assert_eq!(s.dir(), "./servers/9");
    assert!(s.launch_command().args.is_empty());
    s.setup_launch_command("server", "1.20.1", "47.2.0");
    assert_eq!(s.launch_command().current_dir, "./servers/9");
    assert_eq!(
        s.launch_command().args,
        vec!["@libraries/net/minecraftforge/forge/1.20.1-47.2.0/unix_args.txt".to_string(), "nogui".to_string()]
    );
}

#[test]
fn servers_from_existing_models() {
    let m = model();
    let f = ForgeServer::from_existing(&m);
    assert_eq!(f.dir(), "./servers/survival");
    assert_eq!(f.launch_command().args[0], "@libraries/net/minecraftforge/forge/1.20.1-47.2.0/unix_args.txt");
    let fa = FabricServer::from_existing(&m);
    assert_eq!(fa.launch_command().args, vec!["-jar".to_string(), "server".to_string(), "nogui".to_string()]);
}

#[test]
fn server_type_names() {
    let all = [
        (ServerType::Vanilla, "vanilla", "Vanilla"),
        (ServerType::Forge, "forge", "Forge"),
        (ServerType::NeoForge, "neoforge", "NeoForge"),
        (ServerType::Fabric, "fabric", "Fabric"),
        (ServerType::Quilt, "quilt", "Quilt"),
        (ServerType::LiteLoader, "liteloader", "LiteLoader"),
    ];
    for (t, v, d) in all {
        assert_eq!(t.value(), v);
        assert_eq!(t.debug_name(), d);
        assert_eq!(format!("{:?}", t), d);
    }
}
