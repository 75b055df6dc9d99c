use mc_server_manager::error::LibError;
use mc_server_manager::forge::{
    fabric_installer_url, forge_installer_url, forge_loader_version, forge_select_build,
    is_legacy_forge_version, meta_get_forge_version_for_corresponding_mc_version,
    neoforge_installer_url, resolve_fabric, ForgeBuild, ForgeMetadata, ForgeMinecraftVersion,
};
use mc_server_manager::paper::{
    paper_builds_url, paper_download_url, paper_latest_build, paper_project_url,
    PaperProjectBuilds, PaperProjectVersions,
};
use mc_server_manager::text::{decimal_string, remove_all};
use mc_server_manager::vanilla::{
    download_vanilla_get_version_data_url, download_vanilla_get_version_download_url,
    meta_fetch_game_versions, Latest, MojangDownloads, MojangMinecraftVersion,
    MojangServerDownload, MojangVersionEntry, MojangVersionManifest,
};

fn entry(id: &str, kind: &str, url: &str) -> MojangVersionEntry {
    MojangVersionEntry {
        id: id.to_string(),
        kind: kind.to_string(),
        url: url.to_string(),
        time: "2025-01-01T00:00:00+00:00".to_string(),
        release_time: "2025-01-01T00:00:00+00:00".to_string(),
        sha1: "0".repeat(40),
        compliance_level: 1,
    }
}

fn manifest() -> MojangVersionManifest {
    MojangVersionManifest {
        latest: Latest { release: "1.21.11".to_string(), snapshot: "25w50a".to_string() },
        versions: vec![
            entry("25w50a", "snapshot", "https://meta.example/25w50a.json"),
            entry("1.21.11", "release", "https://meta.example/1.21.11.json"),
            entry("1.20.1", "release", "https://meta.example/1.20.1.json"),
            entry("b1.7.3", "old_beta", "https://meta.example/b1.7.3.json"),
        ],
    }
}

fn forge_meta(lists: &[(&str, &[&str])]) -> ForgeMetadata {
    ForgeMetadata {
        minecraft_versions: lists
            .iter()
            .map(|(v, ids)| ForgeMinecraftVersion {
                version: v.to_string(),
                builds: ids.iter().map(|id| ForgeBuild { id: id.to_string() }).collect(),
            })
            .collect(),
    }
}

#[test]
fn every_release_entry_resolves_to_its_own_document() {
    let m = manifest();
    for e in m.versions.iter().filter(|e| e.kind == "release") {
        let url = download_vanilla_get_version_data_url(&m, &e.id).unwrap();
        assert_eq!(url, e.url);
    }
}

#[test]
fn vanilla_1_21_11_resolves_to_nonempty_url() {
    let m = manifest();
    let data_url = download_vanilla_get_version_data_url(&m, "1.21.11").unwrap();
    assert_eq!(data_url, "https://meta.example/1.21.11.json");
    let doc = MojangMinecraftVersion {
        downloads: MojangDownloads {
            server: MojangServerDownload { url: "https://files.example/server.jar".to_string() },
        },
    };
    let url = download_vanilla_get_version_download_url(&doc);
    assert!(!url.is_empty());
    assert_eq!(url, "https://files.example/server.jar");
}

#[test]
fn vanilla_absent_version_is_not_found() {
    let m = manifest();
    match download_vanilla_get_version_data_url(&m, "9.9.9") {
        Err(LibError::Ver(v)) => assert_eq!(v, "9.9.9"),
        other => panic!("unexpected {:?}", other.map(|u| u.contains("none"))),
    }
}

#[test]
fn vanilla_empty_manifest_is_not_found() {
    let m = MojangVersionManifest {
        latest: Latest { release: String::new(), snapshot: String::new() },
        versions: vec![],
    };
    assert!(matches!(download_vanilla_get_version_data_url(&m, "1.21.11"), Err(LibError::Ver(_))));
}

#[test]
fn vanilla_duplicate_id_takes_last_entry() {
    let m = MojangVersionManifest {
        latest: Latest { release: String::new(), snapshot: String::new() },
        versions: vec![entry("1.0", "release", "first"), entry("1.0", "release", "second")],
    };
    assert_eq!(download_vanilla_get_version_data_url(&m, "1.0").unwrap(), "second");
}

#[test]
fn game_versions_lists_releases_in_order() {
    let m = manifest();
    assert_eq!(meta_fetch_game_versions(&m), vec!["1.21.11".to_string(), "1.20.1".to_string()]);
}

#[test]
fn forge_selection_picks_last_listed_build() {
    let meta = forge_meta(&[("1.20", &["1", "2", "3-beta"])]);
    assert_eq!(forge_select_build(&meta, "1.20").unwrap(), "3-beta");
}

#[test]
fn forge_selection_ignores_numeric_order() {
    let meta = forge_meta(&[("1.20", &["10", "9", "2"])]);
    assert_eq!(forge_select_build(&meta, "1.20").unwrap(), "2");
}

#[test]
fn forge_loader_version_strips_game_version_and_hyphens() {
    let meta = forge_meta(&[
        ("1.20.1", &["1.20.1-47.0.1", "1.20.1-47.4.0"]),
        ("1.21.11", &["1.21.11-61.0.5", "1.21.11-61.0.6"]),
    ]);
    assert_eq!(
        meta_get_forge_version_for_corresponding_mc_version(&meta, "1.21.11").unwrap(),
        "61.0.6"
    );
    assert_eq!(forge_loader_version("1.7.10-10.13.4.1614-1.7.10", "1.7.10"), "10.13.4.1614");
}

#[test]
fn forge_absent_version_is_not_found() {
    let meta = forge_meta(&[("1.20.1", &["1.20.1-47.0.1"])]);
    assert!(matches!(
        meta_get_forge_version_for_corresponding_mc_version(&meta, "1.21.11"),
        Err(LibError::Ver(v)) if v == "1.21.11"
    ));
}

#[test]
fn forge_version_without_builds_is_no_build() {
    let meta = forge_meta(&[("1.20.1", &[])]);
    assert!(matches!(forge_select_build(&meta, "1.20.1"), Err(LibError::NoBuild(v)) if v == "1.20.1"));
}

#[test]
fn legacy_versions_use_three_part_url() {
    for v in ["1.7.10", "1.8.9", "1.9.4"] {
        assert!(is_legacy_forge_version(v));
        assert_eq!(
            forge_installer_url(v, "X"),
            format!(
                "https://maven.minecraftforge.net/net/minecraftforge/forge/{v}-X-{v}/forge-{v}-X-{v}-installer.jar"
            )
        );
    }
}

#[test]
fn other_versions_use_two_part_url() {
    for v in ["1.21.11", "1.20.1", "1.7.1", "1.9.40", "1.10.2", ""] {
        assert!(!is_legacy_forge_version(v));
        assert_eq!(
            forge_installer_url(v, "X"),
            format!("https://maven.minecraftforge.net/net/minecraftforge/forge/{v}-X/forge-{v}-X-installer.jar")
        );
    }
}

#[test]
fn neoforge_url_uses_loader_version_verbatim() {
    assert_eq!(
        neoforge_installer_url("21.11.1-beta"),
        "https://maven.neoforged.net/releases/net/neoforged/neoforge/21.11.1-beta/neoforge-21.11.1-beta-installer.jar"
    );
}

#[test]
fn fabric_installer_is_fixed() {
    assert_eq!(resolve_fabric(), "1.0.0");
    assert_eq!(
        fabric_installer_url(),
        "https://maven.fabricmc.net/net/fabricmc/fabric-installer/1.0.0/fabric-installer-1.0.0.jar"
    );
}

fn paper_project(versions: &[&str]) -> PaperProjectVersions {
    PaperProjectVersions {
        project_id: "paper".to_string(),
        project_name: "Paper".to_string(),
        versions: versions.iter().map(|v| v.to_string()).collect(),
        builds: None,
    }
}

#[test]
fn paper_listed_version_gives_builds_url() {
    let p = paper_project(&["1.20.6", "1.21.11"]);
    assert_eq!(paper_project_url(false), "https://api.papermc.io/v2/projects/paper");
    assert_eq!(
        paper_builds_url(&p, "1.21.11", false).unwrap(),
        "https://api.papermc.io/v2/projects/paper/versions/1.21.11"
    );
    assert_eq!(
        paper_builds_url(&p, "1.21.11", true).unwrap(),
        "https://api.papermc.io/v2/projects/folia/versions/1.21.11"
    );
}

#[test]
fn paper_absent_version_is_not_found() {
    let p = paper_project(&["1.20.6"]);
    assert!(matches!(paper_builds_url(&p, "1.21.11", false), Err(LibError::Ver(v)) if v == "1.21.11"));
}

#[test]
fn paper_latest_build_is_last_listed() {
    let b = PaperProjectBuilds {
        project_id: "paper".to_string(),
        project_name: "Paper".to_string(),
        builds: Some(vec![100, 7, 42]),
    };
    assert_eq!(paper_latest_build(&b, "1.21.11").unwrap(), 42);
}

#[test]
fn paper_without_builds_is_no_build() {
    let none = PaperProjectBuilds { project_id: String::new(), project_name: String::new(), builds: None };
    let empty = PaperProjectBuilds { project_id: String::new(), project_name: String::new(), builds: Some(vec![]) };
    assert!(matches!(paper_latest_build(&none, "1.21.11"), Err(LibError::NoBuild(_))));
    assert!(matches!(paper_latest_build(&empty, "1.21.11"), Err(LibError::NoBuild(_))));
}

#[test]
fn paper_download_url_embeds_version_and_build() {
    assert_eq!(
        paper_download_url("1.21.11", 57, false),
        "https://api.papermc.io/v2/projects/paper/versions/1.21.11/builds/57/downloads/paper-1.21.11-57.jar"
    );
    assert_eq!(
        paper_download_url("1.20.6", 0, true),
        "https://api.papermc.io/v2/projects/folia/versions/1.20.6/builds/0/downloads/folia-1.20.6-0.jar"
    );
}

#[test]
fn decimal_rendering() {
    assert_eq!(decimal_string(0), "0");
    assert_eq!(decimal_string(7), "7");
    assert_eq!(decimal_string(10), "10");
    assert_eq!(decimal_string(4294967295), "4294967295");
    assert_eq!(decimal_string(u64::MAX), u64::MAX.to_string());
}

#[test]
fn remove_all_matches_replace() {
    for (s, p) in [("a-b--c", "-"), ("aaa", "aa"), ("abc", ""), ("", "x"), ("xyxy", "xy"), ("héllo-é", "é")] {
        assert_eq!(remove_all(s, p), s.replace(p, ""));
    }
}

#[test]
fn forge_resolution_ignores_entry_order() {
    let a = forge_meta(&[("1.20.1", &["1.20.1-47.0.1"]), ("1.21.11", &["1.21.11-61.0.6"])]);
    let b = forge_meta(&[("1.21.11", &["1.21.11-61.0.6"]), ("1.20.1", &["1.20.1-47.0.1"])]);
    for v in ["1.20.1", "1.21.11"] {
        assert_eq!(
            meta_get_forge_version_for_corresponding_mc_version(&a, v).unwrap(),
            meta_get_forge_version_for_corresponding_mc_version(&b, v).unwrap()
        );
    }
}
