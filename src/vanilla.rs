//! The vanilla release index: finding a release's metadata document and its
//! server binary.
use vstd::prelude::*;

use crate::error::LibError;

verus! {

/// Address of the global release manifest.
pub const VANILLA_MANIFEST_URL: &'static str = "https://piston-meta.mojang.com/mc/game/version_manifest_v2.json";

/// The global release manifest.
pub struct MojangVersionManifest {
    pub latest: Latest,
    pub versions: Vec<MojangVersionEntry>,
}

/// The newest release and snapshot ids.
pub struct Latest {
    pub release: String,
    pub snapshot: String,
}

/// One version listed by the manifest.
pub struct MojangVersionEntry {
    pub id: String,
    /// `"release"`, `"snapshot"`, `"old_beta"`, ...
    pub kind: String,
    /// Address of this version's own metadata document.
    pub url: String,
    pub time: String,
    pub release_time: String,
    pub sha1: String,
    pub compliance_level: i32,
}

/// The part of a version's metadata document that locates its server binary.
pub struct MojangMinecraftVersion {
    pub downloads: MojangDownloads,
}

pub struct MojangDownloads {
    pub server: MojangServerDownload,
}

pub struct MojangServerDownload {
    pub url: String,
}

/// The metadata address of the last entry whose id is `ver`, if any.
pub open spec fn vanilla_data_url(entries: Seq<MojangVersionEntry>, ver: Seq<char>) -> Option<
    Seq<char>,
>
    decreases entries.len(),
{
    if entries.len() == 0 {
        None
    } else if entries.last().id@ == ver {
        Some(entries.last().url@)
    } else {
        vanilla_data_url(entries.drop_last(), ver)
    }
}

/// The ids of the release-type entries, in manifest order.
pub open spec fn release_ids(entries: Seq<MojangVersionEntry>) -> Seq<Seq<char>>
    decreases entries.len(),
{
    if entries.len() == 0 {
        Seq::empty()
    } else if entries.last().kind@ == "release"@ {
        release_ids(entries.drop_last()).push(entries.last().id@)
    } else {
        release_ids(entries.drop_last())
    }
}

/// Whether `e` is the error for a version that the provider does not list.
pub open spec fn is_version_not_found(e: LibError, ver: Seq<char>) -> bool {
    e is Ver && e->Ver_0@ == ver
}

/// Finds the metadata document address of game version `version` in the
/// manifest; a version that is not listed is `LibError::Ver`.
pub fn download_vanilla_get_version_data_url(
    manifest: &MojangVersionManifest,
    version: &str,
) -> (r: Result<String, LibError>)
    ensures
        match vanilla_data_url(manifest.versions@, version@) {
            Some(u) => r is Ok && r->Ok_0@ == u,
            None => r is Err && is_version_not_found(r->Err_0, version@),
        },
{
    let wanted = version.to_owned();
    let mut found: Option<String> = None;
    let mut i: usize = 0;
    while i < manifest.versions.len()
        invariant
            i <= manifest.versions@.len(),
            wanted@ == version@,
            match vanilla_data_url(manifest.versions@.take(i as int), version@) {
                Some(u) => found is Some && found->0@ == u,
                None => found is None,
            },
        decreases manifest.versions@.len() - i,
    {
        let entry = &manifest.versions[i];
        assert(manifest.versions@.take(i + 1).drop_last() =~= manifest.versions@.take(i as int));
        if entry.id == wanted {
            found = Some(entry.url.clone());
        }
        i = i + 1;
    }
    assert(manifest.versions@.take(i as int) =~= manifest.versions@);
    match found {
        Some(u) => Ok(u),
        None => Err(LibError::Ver(wanted)),
    }
}

/// The server binary's address in a version's metadata document.
pub fn download_vanilla_get_version_download_url(doc: &MojangMinecraftVersion) -> (r: String)
    ensures
        r@ == doc.downloads.server.url@,
{
    doc.downloads.server.url.clone()
}

/// The ids of the manifest's release-type entries, in manifest order.
pub fn meta_fetch_game_versions(manifest: &MojangVersionManifest) -> (r: Vec<String>)
    ensures
        r@.map_values(|s: String| s@) == release_ids(manifest.versions@),
{
    let release = String::from_str("release");
    let mut out: Vec<String> = Vec::new();
    let mut i: usize = 0;
    while i < manifest.versions.len()
        invariant
            i <= manifest.versions@.len(),
            release@ == "release"@,
            out@.map_values(|s: String| s@) == release_ids(manifest.versions@.take(i as int)),
        decreases manifest.versions@.len() - i,
    {
        let entry = &manifest.versions[i];
        assert(manifest.versions@.take(i + 1).drop_last() =~= manifest.versions@.take(i as int));
        if entry.kind == release {
            out.push(entry.id.clone());
            assert(out@.map_values(|s: String| s@) =~= release_ids(
                manifest.versions@.take(i as int),
            ).push(entry.id@));
        }
        i = i + 1;
    }
    assert(manifest.versions@.take(i as int) =~= manifest.versions@);
    out
}

/// Every release-type entry of a manifest whose ids are distinct is listed
/// among the release ids, and resolving its id yields that entry's own
/// metadata address.
pub proof fn lemma_release_entry_resolves(entries: Seq<MojangVersionEntry>, i: int)
    requires
        0 <= i < entries.len(),
        entries[i].kind@ == "release"@,
        forall|j: int| 0 <= j < entries.len() && j != i ==> entries[j].id@ != entries[i].id@,
    ensures
        vanilla_data_url(entries, entries[i].id@) == Some(entries[i].url@),
        release_ids(entries).contains(entries[i].id@),
    decreases entries.len(),
{
    if i == entries.len() - 1 {
        let ids = release_ids(entries);
        assert(ids[ids.len() - 1] == entries[i].id@);
    } else {
        let rest = entries.drop_last();
        assert(rest[i] == entries[i]);
        assert forall|j: int| 0 <= j < rest.len() && j != i implies rest[j].id@ != rest[i].id@ by {
            assert(rest[j] == entries[j]);
        }
        lemma_release_entry_resolves(rest, i);
        let ids = release_ids(rest);
        let k = choose|k: int| 0 <= k < ids.len() && ids[k] == entries[i].id@;
        if entries.last().kind@ == "release"@ {
            assert(release_ids(entries)[k] == entries[i].id@);
        }
    }
}

/// A version that no entry of the manifest carries never resolves.
pub proof fn lemma_absent_vanilla_version(entries: Seq<MojangVersionEntry>, ver: Seq<char>)
    requires
        forall|j: int| 0 <= j < entries.len() ==> entries[j].id@ != ver,
    ensures
        vanilla_data_url(entries, ver) is None,
    decreases entries.len(),
{
    if entries.len() > 0 {
        let rest = entries.drop_last();
        assert forall|j: int| 0 <= j < rest.len() implies rest[j].id@ != ver by {
            assert(rest[j] == entries[j]);
        }
        lemma_absent_vanilla_version(rest, ver);
    }
}

} // verus!
