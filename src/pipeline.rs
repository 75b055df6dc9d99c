//! The orchestration of one server acquisition as a state machine: the caller
//! performs each action (fetch a document, stream the artifact, run the
//! installer) and answers with the matching event; the machine resolves
//! versions, picks addresses, and decides what comes next. No step is retried.
use vstd::prelude::*;

use crate::download::DownloadResult;
use crate::error::LibError;
use crate::forge::{
    fabric_installer_url, fabric_installer_url_spec, forge_builds_for, forge_installer_url,
    forge_installer_url_spec, is_no_build, loader_version_of,
    meta_get_forge_version_for_corresponding_mc_version, neoforge_installer_url,
    neoforge_installer_url_spec, ForgeMetadata, FABRIC_INSTALLER_VERSION, FORGE_METADATA_URL,
};
use crate::install::{check_install_exit, installer_args, installer_job, InstallJob, Modloaders};
use crate::paper::{
    paper_builds_url, paper_builds_url_spec, paper_download_url, paper_download_url_spec,
    paper_latest, paper_latest_build, paper_project_url, paper_project_url_spec,
    PaperProjectBuilds, PaperProjectVersions,
};
use crate::vanilla::{
    download_vanilla_get_version_data_url, is_version_not_found, vanilla_data_url,
    MojangMinecraftVersion, MojangVersionManifest, VANILLA_MANIFEST_URL,
};

verus! {

/// What to acquire and where.
pub struct ArtifactSpec {
    pub provider: Modloaders,
    pub game_version: String,
    /// The mod-loader version; required for NeoForge, ignored otherwise.
    pub loader_version: Option<String>,
    /// The destination directory.
    pub destination: String,
    /// The java binary that runs installers.
    pub java: String,
}

/// Where an acquisition stands.
#[derive(Debug, Clone, Copy, PartialEq, Eq, Structural)]
pub enum Stage {
    Start,
    AwaitManifest,
    AwaitVersionDocument,
    AwaitForgeMetadata,
    AwaitPaperProject,
    AwaitPaperBuilds,
    AwaitDownload,
    AwaitInstall,
    Finished,
    Failed,
}

/// The outcome of the last action.
pub enum Event {
    Manifest(MojangVersionManifest),
    VersionDocument(MojangMinecraftVersion),
    ForgeMetadata(ForgeMetadata),
    PaperProject(PaperProjectVersions),
    PaperBuilds(PaperProjectBuilds),
    Downloaded(DownloadResult),
    /// The installer's exit status (`None`: killed by a signal).
    Exited(Option<i32>),
}

/// The next thing for the caller to do.
pub enum Action {
    /// Fetch the vanilla release manifest at this address.
    FetchManifest(String),
    /// Fetch a version's metadata document at this address.
    FetchVersionDocument(String),
    /// Fetch the Forge maven metadata at this address.
    FetchForgeMetadata(String),
    /// Fetch the Paper or Folia project listing at this address.
    FetchPaperProject(String),
    /// Fetch a Paper or Folia build list at this address.
    FetchPaperBuilds(String),
    /// Stream this address into the destination directory under this name.
    Download { url: String, file_name: String },
    /// Run this installer and report its exit status.
    Install(InstallJob),
    /// The server is in place.
    Done,
    /// The acquisition failed with this error.
    Fail(LibError),
}

/// One acquisition.
pub struct Pipeline {
    pub spec: ArtifactSpec,
    pub stage: Stage,
}

/// The order of the stages: every transition moves to a later stage, except
/// that the two final stages stay where they are.
pub open spec fn rank(s: Stage) -> nat {
    match s {
        Stage::Start => 0,
        Stage::AwaitManifest => 1,
        Stage::AwaitForgeMetadata => 1,
        Stage::AwaitPaperProject => 1,
        Stage::AwaitVersionDocument => 2,
        Stage::AwaitPaperBuilds => 2,
        Stage::AwaitDownload => 3,
        Stage::AwaitInstall => 4,
        Stage::Finished => 5,
        Stage::Failed => 6,
    }
}

pub open spec fn is_final(s: Stage) -> bool {
    s is Finished || s is Failed
}

/// Whether `b` may follow `a`.
pub open spec fn advances(a: Stage, b: Stage) -> bool {
    if is_final(a) {
        b == a
    } else {
        rank(b) > rank(a)
    }
}

/// Whether `a` asks to stream `url` into the destination as `name`.
pub open spec fn downloads(a: Action, url: Seq<char>, name: Seq<char>) -> bool {
    a is Download && a->url@ == url && a->file_name@ == name
}

/// Whether `a` runs the installer of `spec`.
pub open spec fn installs(a: Action, spec: ArtifactSpec) -> bool {
    a is Install && Some(a->Install_0.args@.map_values(|x: String| x@)) == installer_args(
        spec.provider,
        spec.game_version@,
        spec.destination@,
    ) && a->Install_0.program@ == spec.java@ && a->Install_0.working_dir@ == spec.destination@
}

/// Whether `a` reports an event that the stage does not await.
pub open spec fn out_of_order(a: Action) -> bool {
    a is Fail && a->Fail_0 is Misc
}

/// The opening of an acquisition, by provider.
pub open spec fn start_spec(spec: ArtifactSpec, p: Pipeline, a: Action) -> bool {
    p.spec == spec && match spec.provider {
        Modloaders::Vanilla => p.stage == Stage::AwaitManifest && a is FetchManifest
            && a->FetchManifest_0@ == VANILLA_MANIFEST_URL@,
        Modloaders::Forge => p.stage == Stage::AwaitForgeMetadata && a is FetchForgeMetadata
            && a->FetchForgeMetadata_0@ == FORGE_METADATA_URL@,
        Modloaders::NeoForge => match spec.loader_version {
            Some(v) => p.stage == Stage::AwaitDownload && downloads(
                a,
                neoforge_installer_url_spec(v@),
                "installer.jar"@,
            ),
            None => p.stage == Stage::Failed && a is Fail && a->Fail_0 is Misc,
        },
        Modloaders::Fabric => p.stage == Stage::AwaitDownload && downloads(
            a,
            fabric_installer_url_spec(FABRIC_INSTALLER_VERSION@),
            "installer.jar"@,
        ),
        Modloaders::Paper => p.stage == Stage::AwaitPaperProject && a is FetchPaperProject
            && a->FetchPaperProject_0@ == paper_project_url_spec(false),
        Modloaders::Folia => p.stage == Stage::AwaitPaperProject && a is FetchPaperProject
            && a->FetchPaperProject_0@ == paper_project_url_spec(true),
    }
}

/// One transition: from `p` on event `e` to stage `next` with action `a`.
pub open spec fn step_spec(p: Pipeline, e: Event, next: Stage, a: Action) -> bool {
    let gv = p.spec.game_version@;
    let folia = p.spec.provider is Folia;
    match (p.stage, e) {
        (Stage::AwaitManifest, Event::Manifest(m)) => match vanilla_data_url(m.versions@, gv) {
            Some(u) => next == Stage::AwaitVersionDocument && a is FetchVersionDocument
                && a->FetchVersionDocument_0@ == u,
            None => next == Stage::Failed && a is Fail && is_version_not_found(a->Fail_0, gv),
        },
        (Stage::AwaitVersionDocument, Event::VersionDocument(d)) => next == Stage::AwaitDownload
            && downloads(a, d.downloads.server.url@, "server.jar"@),
        (Stage::AwaitForgeMetadata, Event::ForgeMetadata(meta)) => match forge_builds_for(
            meta.minecraft_versions@,
            gv,
        ) {
            None => next == Stage::Failed && a is Fail && is_version_not_found(a->Fail_0, gv),
            Some(b) => if b.len() == 0 {
                next == Stage::Failed && a is Fail && is_no_build(a->Fail_0, gv)
            } else {
                next == Stage::AwaitDownload && downloads(
                    a,
                    forge_installer_url_spec(gv, loader_version_of(b.last().id@, gv)),
                    "installer.jar"@,
                )
            },
        },
        (Stage::AwaitPaperProject, Event::PaperProject(proj)) => match paper_builds_url_spec(
            proj.versions@,
            gv,
            folia,
        ) {
            Some(u) => next == Stage::AwaitPaperBuilds && a is FetchPaperBuilds
                && a->FetchPaperBuilds_0@ == u,
            None => next == Stage::Failed && a is Fail && is_version_not_found(a->Fail_0, gv),
        },
        (Stage::AwaitPaperBuilds, Event::PaperBuilds(list)) => match paper_latest(list.builds) {
            Some(b) => next == Stage::AwaitDownload && downloads(
                a,
                paper_download_url_spec(gv, b, folia),
                "server.jar"@,
            ),
            None => next == Stage::Failed && a is Fail && is_no_build(a->Fail_0, gv),
        },
        (Stage::AwaitDownload, Event::Downloaded(_)) => if p.spec.provider.installs_spec() {
            next == Stage::AwaitInstall && installs(a, p.spec)
        } else {
            next == Stage::Finished && a is Done
        },
        (Stage::AwaitInstall, Event::Exited(code)) => if code == Some(0i32) {
            next == Stage::Finished && a is Done
        } else {
            next == Stage::Failed && a is Fail && a->Fail_0 == LibError::Exit(code)
        },
        _ => next == (if is_final(p.stage) {
            p.stage
        } else {
            Stage::Failed
        }) && out_of_order(a),
    }
}

impl Pipeline {
    /// Begins acquiring `spec`: the first action of its provider. NeoForge
    /// without a loader version fails at once.
    pub fn start(spec: ArtifactSpec) -> (r: (Pipeline, Action))
        ensures
            start_spec(spec, r.0, r.1),
    {
        let provider = spec.provider;
        match provider {
            Modloaders::Vanilla => (
                Pipeline { spec, stage: Stage::AwaitManifest },
                Action::FetchManifest(String::from_str(VANILLA_MANIFEST_URL)),
            ),
            Modloaders::Forge => (
                Pipeline { spec, stage: Stage::AwaitForgeMetadata },
                Action::FetchForgeMetadata(String::from_str(FORGE_METADATA_URL)),
            ),
            Modloaders::NeoForge => {
                let action = match &spec.loader_version {
                    Some(v) => Action::Download {
                        url: neoforge_installer_url(v.as_str()),
                        file_name: String::from_str("installer.jar"),
                    },
                    None => Action::Fail(
                        LibError::Misc(String::from_str("no NeoForge version given")),
                    ),
                };
                let stage = if spec.loader_version.is_some() {
                    Stage::AwaitDownload
                } else {
                    Stage::Failed
                };
                (Pipeline { spec, stage }, action)
            },
            Modloaders::Fabric => (
                Pipeline { spec, stage: Stage::AwaitDownload },
                Action::Download {
                    url: fabric_installer_url(),
                    file_name: String::from_str("installer.jar"),
                },
            ),
            Modloaders::Paper => (
                Pipeline { spec, stage: Stage::AwaitPaperProject },
                Action::FetchPaperProject(paper_project_url(false)),
            ),
            Modloaders::Folia => (
                Pipeline { spec, stage: Stage::AwaitPaperProject },
                Action::FetchPaperProject(paper_project_url(true)),
            ),
        }
    }

    fn fail(&mut self, e: LibError) -> (r: Action)
        ensures
            final(self).spec == old(self).spec,
            final(self).stage == Stage::Failed,
            r == Action::Fail(e),
    {
        self.stage = Stage::Failed;
        Action::Fail(e)
    }

    fn download(&mut self, url: String, file_name: &str) -> (r: Action)
        ensures
            final(self).spec == old(self).spec,
            final(self).stage == Stage::AwaitDownload,
            downloads(r, url@, file_name@),
    {
        self.stage = Stage::AwaitDownload;
        Action::Download { url, file_name: String::from_str(file_name) }
    }

    /// Takes the outcome of the last action and decides the next one. An
    /// event that the current stage does not await fails the acquisition
    /// (`LibError::Misc`); after the end nothing changes.
    pub fn step(&mut self, event: Event) -> (r: Action)
        ensures
            final(self).spec == old(self).spec,
            step_spec(*old(self), event, final(self).stage, r),
            advances(old(self).stage, final(self).stage),
            r is Install <==> (old(self).stage == Stage::AwaitDownload && final(self).stage
                == Stage::AwaitInstall),
    {
        let folia = match self.spec.provider {
            Modloaders::Folia => true,
            _ => false,
        };
        match (self.stage, event) {
            (Stage::AwaitManifest, Event::Manifest(m)) => {
                match download_vanilla_get_version_data_url(&m, self.spec.game_version.as_str()) {
                    Ok(u) => {
                        self.stage = Stage::AwaitVersionDocument;
                        Action::FetchVersionDocument(u)
                    },
                    Err(e) => self.fail(e),
                }
            },
            (Stage::AwaitVersionDocument, Event::VersionDocument(d)) => {
                self.download(d.downloads.server.url, "server.jar")
            },
            (Stage::AwaitForgeMetadata, Event::ForgeMetadata(meta)) => {
                match meta_get_forge_version_for_corresponding_mc_version(
                    &meta,
                    self.spec.game_version.as_str(),
                ) {
                    Ok(v) => {
                        let url = forge_installer_url(self.spec.game_version.as_str(), v.as_str());
                        self.download(url, "installer.jar")
                    },
                    Err(e) => self.fail(e),
                }
            },
            (Stage::AwaitPaperProject, Event::PaperProject(proj)) => {
                match paper_builds_url(&proj, self.spec.game_version.as_str(), folia) {
                    Ok(u) => {
                        self.stage = Stage::AwaitPaperBuilds;
                        Action::FetchPaperBuilds(u)
                    },
                    Err(e) => self.fail(e),
                }
            },
            (Stage::AwaitPaperBuilds, Event::PaperBuilds(list)) => {
                match paper_latest_build(&list, self.spec.game_version.as_str()) {
                    Ok(b) => {
                        let url = paper_download_url(self.spec.game_version.as_str(), b, folia);
                        self.download(url, "server.jar")
                    },
                    Err(e) => self.fail(e),
                }
            },
            (Stage::AwaitDownload, Event::Downloaded(_)) => {
                match installer_job(
                    self.spec.provider,
                    self.spec.java.as_str(),
                    self.spec.game_version.as_str(),
                    self.spec.destination.as_str(),
                ) {
                    Some(job) => {
                        self.stage = Stage::AwaitInstall;
                        Action::Install(job)
                    },
                    None => {
                        self.stage = Stage::Finished;
                        Action::Done
                    },
                }
            },
            (Stage::AwaitInstall, Event::Exited(code)) => {
                match check_install_exit(code) {
                    Ok(()) => {
                        self.stage = Stage::Finished;
                        Action::Done
                    },
                    Err(e) => self.fail(e),
                }
            },
            _ => {
                let e = LibError::Misc(String::from_str("event out of order"));
                match self.stage {
                    Stage::Finished | Stage::Failed => Action::Fail(e),
                    _ => self.fail(e),
                }
            },
        }
    }
}

/// Along any run of the machine, stages never go back.
proof fn lemma_rank_monotone(stages: Seq<Stage>, i: int, j: int)
    requires
        forall|k: int| 0 <= k < stages.len() - 1 ==> advances(#[trigger] stages[k], stages[k + 1]),
        0 <= i <= j < stages.len(),
    ensures
        rank(stages[i]) <= rank(stages[j]),
    decreases j - i,
{
    if i < j {
        lemma_rank_monotone(stages, i, j - 1);
        assert(advances(stages[j - 1], stages[j]));
    }
}

/// An acquisition runs its installer at most once: in any run of the machine
/// (a sequence of stages, each one a permitted successor of the one before),
/// the move from awaiting the download to awaiting the installer happens at
/// most once, and `step` asks for an installer exactly on that move.
pub proof fn lemma_install_at_most_once(stages: Seq<Stage>, i: int, j: int)
    requires
        forall|k: int| 0 <= k < stages.len() - 1 ==> advances(#[trigger] stages[k], stages[k + 1]),
        0 <= i < stages.len() - 1,
        0 <= j < stages.len() - 1,
        stages[i] == Stage::AwaitDownload && stages[i + 1] == Stage::AwaitInstall,
        stages[j] == Stage::AwaitDownload && stages[j + 1] == Stage::AwaitInstall,
    ensures
        i == j,
{
    if i < j {
        lemma_rank_monotone(stages, i + 1, j);
    } else if j < i {
        lemma_rank_monotone(stages, j + 1, i);
    }
}

} // verus!
