//! Mod-loader resolution: Forge build selection from the maven metadata, and
//! the installer addresses of Forge, NeoForge and Fabric.
use vstd::prelude::*;

use crate::error::LibError;
use crate::text::{remove_all, strip_all};
use crate::vanilla::is_version_not_found;

verus! {

/// Address of the Forge maven metadata document.
pub const FORGE_METADATA_URL: &'static str = "https://files.minecraftforge.net/net/minecraftforge/forge/maven-metadata.json";

/// The single Fabric installer version that is offered.
pub const FABRIC_INSTALLER_VERSION: &'static str = "1.0.0";

/// The Forge maven metadata: for each game version, its builds in upstream
/// order (oldest first).
pub struct ForgeMetadata {
    pub minecraft_versions: Vec<ForgeMinecraftVersion>,
}

/// The builds of one game version.
pub struct ForgeMinecraftVersion {
    pub version: String,
    pub builds: Vec<ForgeBuild>,
}

/// One build; its id has the form `<game version>-<loader version>`.
pub struct ForgeBuild {
    pub id: String,
}

impl ForgeMetadata {
    /// Each game version is listed once, as the keys of the metadata
    /// document's object are.
    pub open spec fn versions_unique(self) -> bool {
        versions_unique(self.minecraft_versions@)
    }
}

pub open spec fn versions_unique(entries: Seq<ForgeMinecraftVersion>) -> bool {
    forall|i: int, j: int|
        0 <= i < j < entries.len() ==> entries[i].version@ != entries[j].version@
}

/// The builds listed for game version `ver` (by the last entry of that
/// version), if the version is listed.
pub open spec fn forge_builds_for(entries: Seq<ForgeMinecraftVersion>, ver: Seq<char>) -> Option<
    Seq<ForgeBuild>,
>
    decreases entries.len(),
{
    if entries.len() == 0 {
        None
    } else if entries.last().version@ == ver {
        Some(entries.last().builds@)
    } else {
        forge_builds_for(entries.drop_last(), ver)
    }
}

/// The bare loader version of a build id: the game version and every hyphen
/// removed.
pub open spec fn loader_version_of(build_id: Seq<char>, ver: Seq<char>) -> Seq<char> {
    strip_all(strip_all(build_id, ver), "-"@)
}

/// The three releases whose installers embed the game version three times.
pub open spec fn is_legacy_forge(mc: Seq<char>) -> bool {
    mc == "1.7.10"@ || mc == "1.8.9"@ || mc == "1.9.4"@
}

/// The Forge installer address for game version `mc` and loader version `f`.
pub open spec fn forge_installer_url_spec(mc: Seq<char>, f: Seq<char>) -> Seq<char> {
    if is_legacy_forge(mc) {
        "https://maven.minecraftforge.net/net/minecraftforge/forge/"@ + mc + "-"@ + f + "-"@ + mc
            + "/forge-"@ + mc + "-"@ + f + "-"@ + mc + "-installer.jar"@
    } else {
        "https://maven.minecraftforge.net/net/minecraftforge/forge/"@ + mc + "-"@ + f + "/forge-"@
            + mc + "-"@ + f + "-installer.jar"@
    }
}

/// The NeoForge installer address for loader version `v`.
pub open spec fn neoforge_installer_url_spec(v: Seq<char>) -> Seq<char> {
    "https://maven.neoforged.net/releases/net/neoforged/neoforge/"@ + v + "/neoforge-"@ + v
        + "-installer.jar"@
}

/// The Fabric installer address for installer version `v`.
pub open spec fn fabric_installer_url_spec(v: Seq<char>) -> Seq<char> {
    "https://maven.fabricmc.net/net/fabricmc/fabric-installer/"@ + v + "/fabric-installer-"@ + v
        + ".jar"@
}

/// Whether `e` is the error for a listed version without any build.
pub open spec fn is_no_build(e: LibError, ver: Seq<char>) -> bool {
    e is NoBuild && e->NoBuild_0@ == ver
}

/// Selects the build id of game version `ver`: the last one listed, trusting
/// the upstream order over any lexical or numeric order.
pub fn forge_select_build(meta: &ForgeMetadata, ver: &str) -> (r: Result<String, LibError>)
    ensures
        match forge_builds_for(meta.minecraft_versions@, ver@) {
            None => r is Err && is_version_not_found(r->Err_0, ver@),
            Some(b) => if b.len() == 0 {
                r is Err && is_no_build(r->Err_0, ver@)
            } else {
                r is Ok && r->Ok_0@ == b.last().id@
            },
        },
{
    let wanted = ver.to_owned();
    let mut found: Option<usize> = None;
    let mut i: usize = 0;
    while i < meta.minecraft_versions.len()
        invariant
            i <= meta.minecraft_versions@.len(),
            wanted@ == ver@,
            match forge_builds_for(meta.minecraft_versions@.take(i as int), ver@) {
                Some(b) => found is Some && found->0 < i && meta.minecraft_versions@[found->0 as int].builds@ == b,
                None => found is None,
            },
        decreases meta.minecraft_versions@.len() - i,
    {
        assert(meta.minecraft_versions@.take(i + 1).drop_last() =~= meta.minecraft_versions@.take(i as int));
        if meta.minecraft_versions[i].version == wanted {
            found = Some(i);
        }
        i = i + 1;
    }
    assert(meta.minecraft_versions@.take(i as int) =~= meta.minecraft_versions@);
    match found {
        None => Err(LibError::Ver(wanted)),
        Some(k) => {
            let builds = &meta.minecraft_versions[k].builds;
            if builds.len() == 0 {
                Err(LibError::NoBuild(wanted))
            } else {
                Ok(builds[builds.len() - 1].id.clone())
            }
        },
    }
}

/// The bare loader version of `build_id`: `build_id` with every occurrence of
/// the game version `ver`, then every hyphen, removed.
pub fn forge_loader_version(build_id: &str, ver: &str) -> (r: String)
    ensures
        r@ == loader_version_of(build_id@, ver@),
{
    let without_game = remove_all(build_id, ver);
    remove_all(without_game.as_str(), "-")
}

/// Resolves the Forge loader version to install for game version `ver`: the
/// last listed build, reduced to its bare loader version.
pub fn meta_get_forge_version_for_corresponding_mc_version(
    meta: &ForgeMetadata,
    ver: &str,
) -> (r: Result<String, LibError>)
    ensures
        match forge_builds_for(meta.minecraft_versions@, ver@) {
            None => r is Err && is_version_not_found(r->Err_0, ver@),
            Some(b) => if b.len() == 0 {
                r is Err && is_no_build(r->Err_0, ver@)
            } else {
                r is Ok && r->Ok_0@ == loader_version_of(b.last().id@, ver@)
            },
        },
{
    match forge_select_build(meta, ver) {
        Ok(id) => Ok(forge_loader_version(id.as_str(), ver)),
        Err(e) => Err(e),
    }
}

/// Whether `mc` is one of the three legacy releases, by exact comparison.
pub fn is_legacy_forge_version(mc: &str) -> (r: bool)
    ensures
        r == is_legacy_forge(mc@),
{
    let m = mc.to_owned();
    m == String::from_str("1.7.10") || m == String::from_str("1.8.9") || m == String::from_str(
        "1.9.4",
    )
}

/// The Forge installer address; the legacy template is chosen by exact match
/// of the game version against the three legacy releases.
pub fn forge_installer_url(mc: &str, forge: &str) -> (r: String)
    ensures
        r@ == forge_installer_url_spec(mc@, forge@),
{
    let mut url = String::from_str("https://maven.minecraftforge.net/net/minecraftforge/forge/");
    if is_legacy_forge_version(mc) {
        url.append(mc);
        url.append("-");
        url.append(forge);
        url.append("-");
        url.append(mc);
        url.append("/forge-");
        url.append(mc);
        url.append("-");
        url.append(forge);
        url.append("-");
        url.append(mc);
        url.append("-installer.jar");
    } else {
        url.append(mc);
        url.append("-");
        url.append(forge);
        url.append("/forge-");
        url.append(mc);
        url.append("-");
        url.append(forge);
        url.append("-installer.jar");
    }
    url
}

/// The NeoForge installer address; the loader version is used verbatim.
pub fn neoforge_installer_url(neoforge_ver: &str) -> (r: String)
    ensures
        r@ == neoforge_installer_url_spec(neoforge_ver@),
{
    let mut url = String::from_str("https://maven.neoforged.net/releases/net/neoforged/neoforge/");
    url.append(neoforge_ver);
    url.append("/neoforge-");
    url.append(neoforge_ver);
    url.append("-installer.jar");
    url
}

/// The Fabric installer version: a fixed one, with no network lookup.
pub fn resolve_fabric() -> (r: String)
    ensures
        r@ == FABRIC_INSTALLER_VERSION@,
{
    String::from_str(FABRIC_INSTALLER_VERSION)
}

/// The Fabric installer address.
pub fn fabric_installer_url() -> (r: String)
    ensures
        r@ == fabric_installer_url_spec(FABRIC_INSTALLER_VERSION@),
{
    let v = resolve_fabric();
    let mut url = String::from_str("https://maven.fabricmc.net/net/fabricmc/fabric-installer/");
    url.append(v.as_str());
    url.append("/fabric-installer-");
    url.append(v.as_str());
    url.append(".jar");
    url
}

/// With each version listed once, the builds found for a version are those of
/// the entry that carries it, wherever that entry stands.
pub proof fn lemma_forge_builds_of_entry(entries: Seq<ForgeMinecraftVersion>, i: int)
    requires
        versions_unique(entries),
        0 <= i < entries.len(),
    ensures
        forge_builds_for(entries, entries[i].version@) == Some(entries[i].builds@),
    decreases entries.len(),
{
    if i < entries.len() - 1 {
        let rest = entries.drop_last();
        assert(rest[i] == entries[i]);
        assert(entries.last().version@ != entries[i].version@);
        assert forall|a: int, b: int| 0 <= a < b < rest.len() implies rest[a].version@
            != rest[b].version@ by {
            assert(rest[a] == entries[a] && rest[b] == entries[b]);
        }
        lemma_forge_builds_of_entry(rest, i);
    }
}

/// Forge resolution does not depend on the order of the entries: two listings
/// with each version once and the same entries resolve every version alike.
pub proof fn lemma_forge_order_independent(
    a: Seq<ForgeMinecraftVersion>,
    b: Seq<ForgeMinecraftVersion>,
    ver: Seq<char>,
)
    requires
        versions_unique(a),
        versions_unique(b),
        forall|x: ForgeMinecraftVersion| a.contains(x) <==> b.contains(x),
    ensures
        forge_builds_for(a, ver) == forge_builds_for(b, ver),
{
    if exists|i: int| 0 <= i < a.len() && a[i].version@ == ver {
        let i = choose|i: int| 0 <= i < a.len() && a[i].version@ == ver;
        assert(a.contains(a[i]));
        let j = choose|j: int| 0 <= j < b.len() && b[j] == a[i];
        lemma_forge_builds_of_entry(a, i);
        lemma_forge_builds_of_entry(b, j);
    } else if exists|j: int| 0 <= j < b.len() && b[j].version@ == ver {
        let j = choose|j: int| 0 <= j < b.len() && b[j].version@ == ver;
        assert(b.contains(b[j]));
        let i = choose|i: int| 0 <= i < a.len() && a[i] == b[j];
        assert(a[i].version@ == ver);
    } else {
        lemma_absent_forge_version(a, ver);
        lemma_absent_forge_version(b, ver);
    }
}

/// A game version that the metadata does not list never resolves.
pub proof fn lemma_absent_forge_version(entries: Seq<ForgeMinecraftVersion>, ver: Seq<char>)
    requires
        forall|j: int| 0 <= j < entries.len() ==> entries[j].version@ != ver,
    ensures
        forge_builds_for(entries, ver) is None,
    decreases entries.len(),
{
    if entries.len() > 0 {
        let rest = entries.drop_last();
        assert forall|j: int| 0 <= j < rest.len() implies rest[j].version@ != ver by {
            assert(rest[j] == entries[j]);
        }
        lemma_absent_forge_version(rest, ver);
    }
}

} // verus!
