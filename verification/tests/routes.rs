use slauncher_backend::db::table_exists_error;
use slauncher_backend::dtos::CreateServerRequest;
use slauncher_backend::entities::{Model, ServerType};
use slauncher_backend::file_downloader::DownloadError;
use slauncher_backend::routes::{
    configure_check, configure_content, configure_written, create_after_dir, create_after_exists,
    create_after_install, db_error, eula_path, eula_reply, found_server, install_kind,
    properties_path, read_properties_reply, server_dir, ConfigureStep, CreateEnd, CreateStep, InstallKind, Reply,
    EULA_CONTENT,
};
use slauncher_backend::server_properties::ServerProperties;

fn text_of(r: Reply) -> (u16, String) {
    match r {
        Reply::Text { status, body } => (status, body),
        other => panic!("not a text reply: {:?}", other),
    }
}

fn model() -> Model {
    Model {
        id: 4,
        name: "lobby".to_string(),
        server_type: ServerType::Fabric,
        minecraft_version: "1.21".to_string(),
        server_version: "0.16.0".to_string(),
    }
}

fn request(t: ServerType) -> CreateServerRequest {
    CreateServerRequest {
        name: "lobby".to_string(),
        server_type: t,
        minecraft_version: "1.21".to_string(),
        server_version: "0.16.0".to_string(),
    }
}

#[test]
fn database_errors_are_500() {
    assert_eq!(text_of(db_error("disk I/O error")), (500, "Database error: disk I/O error".to_string()));
}

#[test]
fn lookups() {
    assert_eq!(found_server(Ok(Some(model()))).unwrap().id, 4);
    assert_eq!(text_of(found_server(Ok(None)).unwrap_err()), (404, "Server not found".to_string()));
    assert_eq!(text_of(found_server(Err("locked".to_string())).unwrap_err()), (500, "Database error: locked".to_string()));
}

#[test]
fn server_paths() {
    assert_eq!(server_dir(12), "./servers/12");
    assert_eq!(server_dir(-1), "./servers/-1");
    assert_eq!(eula_path(12), "./servers/12/eula.txt");
    assert_eq!(properties_path(12), "./servers/12/server.properties");
    assert_eq!(EULA_CONTENT, "eula=true\n");
}

#[test]
fn eula_replies() {
    assert_eq!(text_of(eula_reply(Ok(()))), (200, "EULA accepted".to_string()));
    assert_eq!(
        text_of(eula_reply(Err("permission denied".to_string()))),
        (500, "Failed to write eula.txt: permission denied".to_string())
    );
}

#[test]
fn read_properties_replies() {
    match read_properties_reply(Ok("motd=hi\n".to_string())) {
        Reply::Properties(p) => assert_eq!(p.motd.as_deref(), Some("hi")),
        other => panic!("unexpected {:?}", other),
    }
    assert_eq!(
        text_of(read_properties_reply(Err("not found".to_string()))),
        (500, "Failed to read server.properties: not found".to_string())
    );
}

#[test]
fn configure_flow() {
    let mut p = ServerProperties::from_str("");
    assert!(configure_check(&p).is_ok());
    match configure_content(&p, Ok("motd=a\n".to_string())) {
        ConfigureStep::Respond(r) => assert_eq!(text_of(r), (200, "No properties to update".to_string())),
        ConfigureStep::Write(_) => panic!("nothing to write"),
    }
    p.rcon_port = Some(0);
    assert_eq!(
        text_of(configure_check(&p).unwrap_err()),
        (400, "rcon.port must be between 1 and 65535".to_string())
    );
    p.rcon_port = Some(25575);
    p.motd = Some("b".to_string());
    match configure_content(&p, Ok("motd=a\npvp=true\n".to_string())) {
        ConfigureStep::Write(t) => assert_eq!(t, "motd=b\npvp=true\nrcon.port=25575\n"),
        ConfigureStep::Respond(r) => panic!("unexpected {:?}", r),
    }
    match configure_content(&p, Err("gone".to_string())) {
        ConfigureStep::Respond(r) => {
            assert_eq!(text_of(r), (500, "Failed to read server.properties: gone".to_string()))
        }
        ConfigureStep::Write(_) => panic!("must not write"),
    }
    assert_eq!(text_of(configure_written(Ok(()))), (200, "Properties updated".to_string()));
    assert_eq!(
        text_of(configure_written(Err("full".to_string()))),
        (500, "Failed to write server.properties: full".to_string())
    );
}

#[test]
fn install_kinds() {
    assert_eq!(install_kind(ServerType::Forge).unwrap(), InstallKind::Forge);
    assert_eq!(install_kind(ServerType::Fabric).unwrap(), InstallKind::Fabric);
    assert_eq!(
        text_of(install_kind(ServerType::NeoForge).unwrap_err()),
        (400, "Unsupported server type: NeoForge".to_string())
    );
}

#[test]
fn create_flow() {
    assert_eq!(
        text_of(create_after_exists(Ok(true)).unwrap()),
        (409, "A server with this name already exists".to_string())
    );
    assert!(create_after_exists(Ok(false)).is_none());
    assert_eq!(text_of(create_after_exists(Err("busy".to_string())).unwrap()), (500, "Database error: busy".to_string()));

    match create_after_dir(&request(ServerType::Fabric), Ok(())) {
        CreateStep::Install(k) => assert_eq!(k, InstallKind::Fabric),
        _ => panic!("expected install"),
    }
    match create_after_dir(&request(ServerType::Vanilla), Ok(())) {
        CreateStep::Abort { remove_dir, reply } => {
            assert!(remove_dir);
            assert_eq!(text_of(reply), (400, "Unsupported server type: Vanilla".to_string()));
        }
        _ => panic!("expected abort"),
    }
    match create_after_dir(&request(ServerType::Forge), Err("read-only".to_string())) {
        CreateStep::Abort { remove_dir, reply } => {
            assert!(!remove_dir);
            assert_eq!(text_of(reply), (500, "Failed to create directory: read-only".to_string()));
        }
        _ => panic!("expected abort"),
    }
    match create_after_install(model(), Err("download failed".to_string())) {
        CreateEnd::Abort { remove_dir, reply } => {
            assert!(remove_dir);
            assert_eq!(text_of(reply), (500, "download failed".to_string()));
        }
        CreateEnd::Finish(_) => panic!("expected abort"),
    }
    match create_after_install(model(), Ok(())) {
        CreateEnd::Finish(Reply::Created(r)) => {
            assert_eq!(r.id, 4);
            assert_eq!(r.name, "lobby");
            assert_eq!(r.server_type, ServerType::Fabric);
            assert_eq!(r.server_version, "0.16.0");
        }
        _ => panic!("expected created"),
    }
}

#[test]
fn download_error_messages() {
    assert_eq!(DownloadError::ConnectionError.message(), "failed to connect to the server");
    assert_eq!(DownloadError::StatusError(Some(404)).message(), "the server responded with a non-success code");
    assert_eq!(DownloadError::ResponseError.message(), "failed to read response body");
    let e = std::io::Error::new(std::io::ErrorKind::Other, "disk full");
    assert_eq!(DownloadError::IOError(e).message(), "failed to save a file: disk full");
}

#[test]
fn table_exists_errors() {
    assert!(table_exists_error("Execution Error: table \"servers\" already exists"));
    assert!(!table_exists_error("unable to open database file"));
}
