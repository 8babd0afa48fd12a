use mcli::{
    member, read_document, string_member, Json,
    catalog_of, config_text, download_version, get_loader_versions, get_value, installer_file,
    installer_url, manifest_url, parse_detail, parse_manifest, resolve_entry, same_text,
    versions_of, Action, DownloadError, DownloadSession, Loader, LoaderKind, Neoforge, Stage,
    Vanilla, VersionEntry,
};

const VANILLA_MANIFEST: &str = r#"{
  "latest": {"release": "1.20.4"},
  "versions": [
    {"id": "1.20.1", "type": "release", "url": "https://meta.example/1.20.1.json"},
    {"id": "1.20.4", "type": "release", "url": "https://meta.example/1.20.4.json"}
  ]
}"#;

const VANILLA_DETAIL: &str = r#"{
  "id": "1.20.4",
  "downloads": {
    "client": {"url": "https://files.example/client.jar"},
    "server": {"sha1": "abc", "url": "https://files.example/server-1.20.4.jar"}
  }
}"#;

const NEOFORGE_MANIFEST: &str = r#"{"isSnapshot": false, "versions": ["20.4.80-beta", "20.4.237"]}"#;

fn entry(id: &str, url: Option<&str>) -> VersionEntry {
    VersionEntry { id: id.to_string(), url: url.map(|u| u.to_string()) }
}

fn start(version: &str, path: &str, loader: &str) -> (DownloadSession, Action) {
    match download_version(version, path, loader) {
        Ok(started) => started,
        Err(e) => panic!("download refused: {}", e.message()),
    }
}

#[test]
fn unknown_loader_lists_nothing() {
    assert!(get_loader_versions("unknown-loader", VANILLA_MANIFEST).is_empty());
    assert!(get_loader_versions("vanilla", VANILLA_MANIFEST).is_empty());
}

#[test]
fn known_loaders_list_their_catalog_in_order() {
    assert_eq!(get_loader_versions("Vanilla", VANILLA_MANIFEST), vec!["1.20.1", "1.20.4"]);
    assert_eq!(get_loader_versions("NeoForge", NEOFORGE_MANIFEST), vec!["20.4.80-beta", "20.4.237"]);
    assert_eq!(Vanilla::get_versions(VANILLA_MANIFEST).len(), 2);
    assert_eq!(Neoforge::get_versions(NEOFORGE_MANIFEST).len(), 2);
    assert_eq!(Vanilla.kind(), LoaderKind::Vanilla);
    assert_eq!(Neoforge.kind(), LoaderKind::NeoForge);
}

#[test]
fn unreadable_manifest_lists_nothing() {
    assert!(get_loader_versions("Vanilla", "not json").is_empty());
    assert!(get_loader_versions("NeoForge", r#"{"versions": [1, 2]}"#).is_empty());
    assert!(versions_of(&Err(DownloadError::Request("offline".to_string()))).is_empty());
}

#[test]
fn unknown_loader_download_is_refused() {
    match download_version("1.20.4", "/tmp/server", "unknown-loader") {
        Err(DownloadError::InvalidMetadata(s)) => assert_eq!(s, "Invalid loader: unknown-loader"),
        _ => panic!("expected an invalid loader error"),
    }
}

#[test]
fn loader_names_match_exactly() {
    assert_eq!(LoaderKind::from_name("Vanilla"), Some(LoaderKind::Vanilla));
    assert_eq!(LoaderKind::from_name("NeoForge"), Some(LoaderKind::NeoForge));
    assert_eq!(LoaderKind::from_name("neoforge"), None);
    assert_eq!(LoaderKind::from_name(""), None);
    assert_eq!(LoaderKind::NeoForge.name(), "NeoForge");
    assert!(same_text("abc", "abc"));
    assert!(!same_text("abc", "abd"));
}

#[test]
fn vanilla_end_to_end() {
    let (mut session, action) = start("1.20.4", "/tmp/server", "Vanilla");
    match action {
        Action::Fetch(u) => assert_eq!(u, manifest_url(LoaderKind::Vanilla)),
        _ => panic!("expected the manifest fetch"),
    }
    assert_eq!(session.destination, "/tmp/server");
    let action = session.on_manifest(parse_manifest(LoaderKind::Vanilla, VANILLA_MANIFEST));
    match action {
        Action::Fetch(u) => assert_eq!(u, "https://meta.example/1.20.4.json"),
        _ => panic!("expected the detail fetch"),
    }
    assert_eq!(session.stage, Stage::Detail);
    let action = session.on_detail(parse_detail(VANILLA_DETAIL));
    match action {
        Action::Save(d) => {
            assert_eq!(d.url, "https://files.example/server-1.20.4.jar");
            assert_eq!(d.file_name, "server.jar");
        }
        _ => panic!("expected the artifact save"),
    }
    match session.on_saved(Ok(())) {
        Action::Finish(Ok(())) => {}
        _ => panic!("expected success"),
    }
    assert_eq!(session.stage, Stage::Finished);
}

#[test]
fn vanilla_missing_version_not_found() {
    let (mut session, _) = start("1.19.9", "/tmp/server2", "Vanilla");
    match session.on_manifest(parse_manifest(LoaderKind::Vanilla, VANILLA_MANIFEST)) {
        Action::Finish(Err(DownloadError::VersionNotFound(v))) => assert_eq!(v, "1.19.9"),
        _ => panic!("expected version not found"),
    }
    assert_eq!(session.stage, Stage::Finished);
}

#[test]
fn entry_without_url_is_invalid_metadata() {
    let text = r#"{"versions": [{"id": "1.20.1"}, {"id": "1.20.4", "url": "https://meta.example/x.json"}]}"#;
    let (mut session, _) = start("1.20.1", "/tmp/server3", "Vanilla");
    match session.on_manifest(parse_manifest(LoaderKind::Vanilla, text)) {
        Action::Finish(Err(DownloadError::InvalidMetadata(s))) => {
            assert_eq!(s, "no artifact URL for version 1.20.1")
        }
        _ => panic!("expected invalid metadata"),
    }
}

#[test]
fn detail_without_server_is_invalid_metadata() {
    let no_server = r#"{"downloads": {"client": {"url": "https://files.example/client.jar"}}}"#;
    assert!(matches!(parse_detail(no_server), Err(DownloadError::InvalidMetadata(_))));
    let no_url = r#"{"downloads": {"server": {"sha1": "abc"}}}"#;
    assert!(matches!(parse_detail(no_url), Err(DownloadError::InvalidMetadata(_))));
    assert!(matches!(parse_detail("{"), Err(DownloadError::Json(_))));
}

#[test]
fn malformed_manifest_is_a_json_error() {
    assert!(matches!(parse_manifest(LoaderKind::Vanilla, "[1,"), Err(DownloadError::Json(_))));
    assert!(matches!(parse_manifest(LoaderKind::Vanilla, "{}"), Err(DownloadError::Json(_))));
    assert!(matches!(
        parse_manifest(LoaderKind::Vanilla, r#"{"versions": [{"url": "x"}]}"#),
        Err(DownloadError::Json(_))
    ));
    assert!(matches!(
        parse_manifest(LoaderKind::NeoForge, r#"{"versions": "20.4.80"}"#),
        Err(DownloadError::Json(_))
    ));
}

#[test]
fn failed_fetch_ends_the_download() {
    let (mut session, _) = start("1.20.4", "/tmp/server", "Vanilla");
    match session.on_manifest(Err(DownloadError::Request("connection reset".to_string()))) {
        Action::Finish(Err(DownloadError::Request(s))) => assert_eq!(s, "connection reset"),
        _ => panic!("expected the request error"),
    }
}

#[test]
fn neoforge_end_to_end() {
    let (mut session, _) = start("20.4.237", "/tmp/neo", "NeoForge");
    match session.on_manifest(parse_manifest(LoaderKind::NeoForge, NEOFORGE_MANIFEST)) {
        Action::Save(d) => {
            assert_eq!(
                d.url,
                "https://maven.neoforged.net/releases/net/neoforged/neoforge/20.4.237/neoforge-20.4.237-installer.jar"
            );
            assert_eq!(d.file_name, "neoforge-20.4.237-installer.jar");
        }
        _ => panic!("expected the installer save"),
    }
    match session.on_saved(Ok(())) {
        Action::RunInstaller(f) => assert_eq!(f, "neoforge-20.4.237-installer.jar"),
        _ => panic!("expected the installer run"),
    }
    assert_eq!(session.stage, Stage::Install);
    match session.on_installed(Err(DownloadError::Io("exit status 1".to_string()))) {
        Action::Finish(Err(DownloadError::Io(s))) => assert_eq!(s, "exit status 1"),
        _ => panic!("expected the installer error"),
    }
}

#[test]
fn every_listed_neoforge_version_resolves() {
    let es = parse_manifest(LoaderKind::NeoForge, NEOFORGE_MANIFEST).unwrap();
    for id in catalog_of(&es) {
        assert_eq!(resolve_entry(&es, &id).unwrap(), installer_url(&id));
    }
}

#[test]
fn failed_save_ends_the_download() {
    let (mut session, _) = start("1.20.4", "/tmp/server", "Vanilla");
    session.on_manifest(parse_manifest(LoaderKind::Vanilla, VANILLA_MANIFEST));
    session.on_detail(parse_detail(VANILLA_DETAIL));
    match session.on_saved(Err(DownloadError::Io("disk full".to_string()))) {
        Action::Finish(Err(DownloadError::Io(s))) => assert_eq!(s, "disk full"),
        _ => panic!("expected the io error"),
    }
}

#[test]
fn resolution_takes_the_first_entry() {
    let es = vec![entry("a", Some("u1")), entry("b", None), entry("a", Some("u2"))];
    assert_eq!(resolve_entry(&es, "a").unwrap(), "u1");
    assert!(matches!(resolve_entry(&es, "b"), Err(DownloadError::InvalidMetadata(_))));
    assert!(matches!(resolve_entry(&es, "c"), Err(DownloadError::VersionNotFound(_))));
    assert!(matches!(resolve_entry(&Vec::new(), "a"), Err(DownloadError::VersionNotFound(_))));
    assert_eq!(catalog_of(&es), vec!["a", "b", "a"]);
}

#[test]
fn installer_names() {
    assert_eq!(installer_file("21.1.1"), "neoforge-21.1.1-installer.jar");
    assert_eq!(
        installer_url("21.1.1"),
        "https://maven.neoforged.net/releases/net/neoforged/neoforge/21.1.1/neoforge-21.1.1-installer.jar"
    );
    assert_eq!(
        manifest_url(LoaderKind::NeoForge),
        "https://maven.neoforged.net/api/maven/versions/releases/net/neoforged/neoforge"
    );
}

#[test]
fn error_messages() {
    let s = |x: &str| x.to_string();
    assert_eq!(DownloadError::Io(s("denied")).message(), "IO error: denied");
    assert_eq!(DownloadError::Json(s("eof")).message(), "JSON parsing error: eof");
    assert_eq!(DownloadError::Request(s("dns")).message(), "Network error: dns");
    assert_eq!(DownloadError::VersionNotFound(s("1.0")).message(), "Version 1.0 not found");
    assert_eq!(DownloadError::InvalidMetadata(s("x")).message(), "Invalid metadata: x");
}

#[test]
fn config_round_trip() {
    let text = config_text("srv", "1.20.4", "Vanilla");
    assert_eq!(text, "[server]\nname = \"srv\"\nversion = \"1.20.4\"\nloader = \"Vanilla\"\n");
    assert_eq!(get_value(&text, "loader"), Some("\"Vanilla\"".to_string()));
    assert_eq!(get_value(&text, "port"), None);
    assert_eq!(get_value("not = [toml", "name"), None);
}

#[test]
fn json_documents_read_as_plain_values() {
    let doc = read_document(r#"{"a": [1, "x", null, true], "b": {"c": "d"}}"#).unwrap();
    match member(&doc, "a") {
        Some(Json::Array(items)) => {
            assert_eq!(items.len(), 4);
            assert!(matches!(&items[0], Json::Number(n) if n == "1"));
            assert!(matches!(&items[1], Json::Str(s) if s == "x"));
            assert!(matches!(&items[2], Json::Null));
            assert!(matches!(&items[3], Json::Bool(true)));
        }
        _ => panic!("expected an array"),
    }
    let b = member(&doc, "b").unwrap();
    assert_eq!(string_member(b, "c"), Some("d".to_string()));
    assert!(member(&doc, "z").is_none());
    assert!(matches!(read_document("{\"a\": }"), Err(DownloadError::Json(_))));
}

#[test]
fn listing_is_the_same_on_each_call() {
    let first = get_loader_versions("Vanilla", VANILLA_MANIFEST);
    let second = get_loader_versions("Vanilla", VANILLA_MANIFEST);
    assert_eq!(first, second);
    assert_eq!(Vanilla::get_versions(VANILLA_MANIFEST), first);
}

#[test]
fn config_setting_lookup() {
    let text = "[server]\nname = \"srv\"\nport = 25565\n[other]\nname = \"x\"\n";
    assert_eq!(get_value(text, "name"), Some("\"srv\"".to_string()));
    assert_eq!(get_value(text, "port"), Some("25565".to_string()));
    assert_eq!(get_value("[other]\nname = \"x\"\n", "name"), None);
}
