use mc_server_manager::download::{progress_mode, DownloadResult, ProgressMode, Transfer, TransferStep, CHUNK_SIZE};
use mc_server_manager::error::LibError;
use mc_server_manager::forge::{ForgeBuild, ForgeMetadata, ForgeMinecraftVersion};
use mc_server_manager::install::{check_install_exit, installer_job, Modloaders};
use mc_server_manager::paper::{PaperProjectBuilds, PaperProjectVersions};
use mc_server_manager::pipeline::{Action, ArtifactSpec, Event, Pipeline, Stage};
use mc_server_manager::vanilla::{
    Latest, MojangDownloads, MojangMinecraftVersion, MojangServerDownload, MojangVersionEntry,
    MojangVersionManifest,
};

fn feed(t: &mut Transfer, chunks: &[usize]) -> Result<TransferStep, LibError> {
    for &n in chunks {
        match t.on_chunk(n)? {
            TransferStep::Continue => {}
            done => return Ok(done),
        }
    }
    t.on_chunk(0)
}

#[test]
fn advertised_length_is_exact_size() {
    let mut t = Transfer::new("dest/server.jar".to_string(), Some(20000));
    match feed(&mut t, &[CHUNK_SIZE, CHUNK_SIZE, 20000 - 2 * CHUNK_SIZE]).unwrap() {
        TransferStep::Done(r) => {
            assert_eq!(r.bytes_written, 20000);
            assert_eq!(r.destination, "dest/server.jar");
        }
        TransferStep::Continue => panic!("not finished"),
    }
}

#[test]
fn short_body_is_size_error() {
    let mut t = Transfer::new("x".to_string(), Some(100));
    assert!(matches!(
        feed(&mut t, &[60]),
        Err(LibError::Size { advertised: Some(100), received: 60 })
    ));
}

#[test]
fn long_body_is_size_error() {
    let mut t = Transfer::new("x".to_string(), Some(100));
    assert!(matches!(feed(&mut t, &[60, 60]), Err(LibError::Size { .. })));
    assert_eq!(t.received, 60);
}

#[test]
fn unadvertised_body_counts_transferred_bytes() {
    let mut t = Transfer::new("x".to_string(), None);
    match feed(&mut t, &[5, 8192, 1]).unwrap() {
        TransferStep::Done(r) => assert_eq!(r.bytes_written, 8198),
        TransferStep::Continue => panic!("not finished"),
    }
    let mut z = Transfer::new("x".to_string(), Some(0));
    match feed(&mut z, &[3]).unwrap() {
        TransferStep::Done(r) => assert_eq!(r.bytes_written, 3),
        TransferStep::Continue => panic!("not finished"),
    }
}

#[test]
fn unadvertised_empty_body_is_size_error() {
    let mut t = Transfer::new("x".to_string(), None);
    assert!(matches!(t.on_chunk(0), Err(LibError::Size { advertised: None, received: 0 })));
}

#[test]
fn progress_modes() {
    assert_eq!(progress_mode(false, Some(10)), ProgressMode::Hidden);
    assert_eq!(progress_mode(true, Some(10)), ProgressMode::Bounded(10));
    assert_eq!(progress_mode(true, Some(0)), ProgressMode::Unbounded);
    assert_eq!(progress_mode(true, None), ProgressMode::Unbounded);
}

#[test]
fn forge_and_neoforge_install_args() {
    for p in [Modloaders::Forge, Modloaders::NeoForge] {
        let job = installer_job(p, "/opt/java/bin/java", "1.21.11", "/srv/mc").unwrap();
        assert_eq!(job.program, "/opt/java/bin/java");
        assert_eq!(job.args, vec!["-jar", "installer.jar", "--installServer"]);
        assert_eq!(job.working_dir, "/srv/mc");
        assert_eq!(p.artifact_file_name(), "installer.jar");
    }
}

#[test]
fn fabric_install_args() {
    let job = installer_job(Modloaders::Fabric, "java", "1.21.11", "/srv/mc").unwrap();
    assert_eq!(
        job.args,
        vec!["-jar", "installer.jar", "server", "-mcversion", "1.21.11", "-dir", "/srv/mc"]
    );
}

#[test]
fn server_providers_have_no_installer() {
    for p in [Modloaders::Vanilla, Modloaders::Paper, Modloaders::Folia] {
        assert!(installer_job(p, "java", "1.21.11", "/srv/mc").is_none());
        assert_eq!(p.artifact_file_name(), "server.jar");
    }
}

#[test]
fn install_exit_status() {
    assert!(check_install_exit(Some(0)).is_ok());
    assert!(matches!(check_install_exit(Some(1)), Err(LibError::Exit(Some(1)))));
    assert!(matches!(check_install_exit(None), Err(LibError::Exit(None))));
}

fn spec(provider: Modloaders, loader: Option<&str>) -> ArtifactSpec {
    ArtifactSpec {
        provider,
        game_version: "1.21.11".to_string(),
        loader_version: loader.map(|v| v.to_string()),
        destination: "/srv/mc".to_string(),
        java: "java".to_string(),
    }
}

fn downloaded(bytes: u64) -> Event {
    Event::Downloaded(DownloadResult { bytes_written: bytes, destination: "/srv/mc/x.jar".to_string() })
}

#[test]
fn vanilla_acquisition_scenario() {
    let (mut p, a) = Pipeline::start(spec(Modloaders::Vanilla, None));
    assert!(matches!(a, Action::FetchManifest(ref u) if u == "https://piston-meta.mojang.com/mc/game/version_manifest_v2.json"));
    let manifest = MojangVersionManifest {
        latest: Latest { release: "1.21.11".to_string(), snapshot: "1.21.11".to_string() },
        versions: vec![MojangVersionEntry {
            id: "1.21.11".to_string(),
            kind: "release".to_string(),
            url: "https://meta.example/1.21.11.json".to_string(),
            time: String::new(),
            release_time: String::new(),
            sha1: String::new(),
            compliance_level: 1,
        }],
    };
    let a = p.step(Event::Manifest(manifest));
    assert!(matches!(a, Action::FetchVersionDocument(ref u) if u == "https://meta.example/1.21.11.json"));
    let doc = MojangMinecraftVersion {
        downloads: MojangDownloads { server: MojangServerDownload { url: "https://files.example/server.jar".to_string() } },
    };
    match p.step(Event::VersionDocument(doc)) {
        Action::Download { url, file_name } => {
            assert!(!url.is_empty());
            assert_eq!(file_name, "server.jar");
        }
        _ => panic!("expected a download"),
    }
    assert!(matches!(p.step(downloaded(1234)), Action::Done));
    assert_eq!(p.stage, Stage::Finished);
}

#[test]
fn vanilla_unknown_version_fails_without_download() {
    let (mut p, _) = Pipeline::start(spec(Modloaders::Vanilla, None));
    let manifest = MojangVersionManifest {
        latest: Latest { release: String::new(), snapshot: String::new() },
        versions: vec![],
    };
    assert!(matches!(p.step(Event::Manifest(manifest)), Action::Fail(LibError::Ver(ref v)) if v == "1.21.11"));
    assert_eq!(p.stage, Stage::Failed);
}

#[test]
fn forge_acquisition_scenario() {
    let (mut p, a) = Pipeline::start(spec(Modloaders::Forge, None));
    assert!(matches!(a, Action::FetchForgeMetadata(_)));
    let meta = ForgeMetadata {
        minecraft_versions: vec![ForgeMinecraftVersion {
            version: "1.21.11".to_string(),
            builds: vec![
                ForgeBuild { id: "1.21.11-61.0.5".to_string() },
                ForgeBuild { id: "1.21.11-61.0.6".to_string() },
            ],
        }],
    };
    match p.step(Event::ForgeMetadata(meta)) {
        Action::Download { url, file_name } => {
            assert_eq!(
                url,
                "https://maven.minecraftforge.net/net/minecraftforge/forge/1.21.11-61.0.6/forge-1.21.11-61.0.6-installer.jar"
            );
            assert_eq!(file_name, "installer.jar");
        }
        _ => panic!("expected a download"),
    }
    match p.step(downloaded(10)) {
        Action::Install(job) => {
            assert_eq!(job.args, vec!["-jar", "installer.jar", "--installServer"]);
            assert_eq!(job.working_dir, "/srv/mc");
        }
        _ => panic!("expected the installer"),
    }
    assert!(matches!(p.step(Event::Exited(Some(0))), Action::Done));
    assert_eq!(p.stage, Stage::Finished);
}

#[test]
fn neoforge_acquisition_scenario() {
    let (mut p, a) = Pipeline::start(spec(Modloaders::NeoForge, Some("61.0.6")));
    match a {
        Action::Download { url, file_name } => {
            assert_eq!(
                url,
                "https://maven.neoforged.net/releases/net/neoforged/neoforge/61.0.6/neoforge-61.0.6-installer.jar"
            );
            assert_eq!(file_name, "installer.jar");
        }
        _ => panic!("expected a download"),
    }
    assert!(matches!(p.step(downloaded(10)), Action::Install(_)));
    assert!(matches!(p.step(Event::Exited(Some(3))), Action::Fail(LibError::Exit(Some(3)))));
    assert_eq!(p.stage, Stage::Failed);
}

#[test]
fn neoforge_without_loader_version_fails() {
    let (p, a) = Pipeline::start(spec(Modloaders::NeoForge, None));
    assert!(matches!(a, Action::Fail(LibError::Misc(_))));
    assert_eq!(p.stage, Stage::Failed);
}

#[test]
fn fabric_and_paper_acquisitions() {
    let (mut f, a) = Pipeline::start(spec(Modloaders::Fabric, None));
    assert!(matches!(a, Action::Download { .. }));
    match f.step(downloaded(1)) {
        Action::Install(job) => assert_eq!(job.args[4], "1.21.11"),
        _ => panic!("expected the installer"),
    }
    let (mut p, a) = Pipeline::start(spec(Modloaders::Folia, None));
    assert!(matches!(a, Action::FetchPaperProject(ref u) if u == "https://api.papermc.io/v2/projects/folia"));
    let proj = PaperProjectVersions {
        project_id: "folia".to_string(),
        project_name: "Folia".to_string(),
        versions: vec!["1.21.11".to_string()],
        builds: None,
    };
    assert!(matches!(p.step(Event::PaperProject(proj)), Action::FetchPaperBuilds(_)));
    let list = PaperProjectBuilds { project_id: String::new(), project_name: String::new(), builds: Some(vec![1, 9]) };
    match p.step(Event::PaperBuilds(list)) {
        Action::Download { url, file_name } => {
            assert!(url.ends_with("/builds/9/downloads/folia-1.21.11-9.jar"));
            assert_eq!(file_name, "server.jar");
        }
        _ => panic!("expected a download"),
    }
    assert!(matches!(p.step(downloaded(5)), Action::Done));
}

#[test]
fn out_of_order_event_fails_and_final_stage_stays() {
    let (mut p, _) = Pipeline::start(spec(Modloaders::Vanilla, None));
    assert!(matches!(p.step(Event::Exited(Some(0))), Action::Fail(LibError::Misc(_))));
    assert_eq!(p.stage, Stage::Failed);
    assert!(matches!(p.step(downloaded(1)), Action::Fail(_)));
    assert_eq!(p.stage, Stage::Failed);
}
