//! Paper and Folia resolution through the build-listing service.
use vstd::prelude::*;

use crate::error::LibError;
use crate::forge::is_no_build;
use crate::text::{decimal, decimal_string};
use crate::vanilla::is_version_not_found;

verus! {

/// A project's listing: the game versions it supports.
pub struct PaperProjectVersions {
    pub project_id: String,
    pub project_name: String,
    pub versions: Vec<String>,
    pub builds: Option<Vec<u32>>,
}

/// The builds of one game version, oldest first.
pub struct PaperProjectBuilds {
    pub project_id: String,
    pub project_name: String,
    pub builds: Option<Vec<u32>>,
}

/// The project's name in addresses.
pub open spec fn paper_project(folia: bool) -> Seq<char> {
    if folia {
        "folia"@
    } else {
        "paper"@
    }
}

/// Address of the project's listing.
pub open spec fn paper_project_url_spec(folia: bool) -> Seq<char> {
    "https://api.papermc.io/v2/projects/"@ + paper_project(folia)
}

/// Address of the build list of game version `ver`, if the listing has it.
pub open spec fn paper_builds_url_spec(versions: Seq<String>, ver: Seq<char>, folia: bool) -> Option<
    Seq<char>,
> {
    if exists|i: int| 0 <= i < versions.len() && versions[i]@ == ver {
        Some(paper_project_url_spec(folia) + "/versions/"@ + ver)
    } else {
        None
    }
}

/// The newest build of a build list: its last element, if there is one.
pub open spec fn paper_latest(builds: Option<Vec<u32>>) -> Option<u32> {
    match builds {
        Some(b) => if b@.len() > 0 {
            Some(b@.last())
        } else {
            None
        },
        None => None,
    }
}

/// Address of the server binary of build `build` of game version `ver`.
pub open spec fn paper_download_url_spec(ver: Seq<char>, build: u32, folia: bool) -> Seq<char> {
    paper_project_url_spec(folia) + "/versions/"@ + ver + "/builds/"@ + decimal(build as nat)
        + "/downloads/"@ + paper_project(folia) + "-"@ + ver + "-"@ + decimal(build as nat)
        + ".jar"@
}

fn append_project(url: &mut String, folia: bool)
    ensures
        final(url)@ == old(url)@ + paper_project(folia),
{
    if folia {
        url.append("folia");
    } else {
        url.append("paper");
    }
}

/// Address of the project's listing.
pub fn paper_project_url(folia: bool) -> (r: String)
    ensures
        r@ == paper_project_url_spec(folia),
{
    let mut url = String::from_str("https://api.papermc.io/v2/projects/");
    append_project(&mut url, folia);
    url
}

/// Confirms that the listing has game version `ver` and gives the address of
/// its build list; an unlisted version is `LibError::Ver`.
pub fn paper_builds_url(project: &PaperProjectVersions, ver: &str, folia: bool) -> (r: Result<
    String,
    LibError,
>)
    ensures
        match paper_builds_url_spec(project.versions@, ver@, folia) {
            Some(u) => r is Ok && r->Ok_0@ == u,
            None => r is Err && is_version_not_found(r->Err_0, ver@),
        },
{
    let wanted = ver.to_owned();
    let mut i: usize = 0;
    while i < project.versions.len()
        invariant
            i <= project.versions@.len(),
            wanted@ == ver@,
            forall|j: int| 0 <= j < i ==> project.versions@[j]@ != ver@,
        decreases project.versions@.len() - i,
    {
        if project.versions[i] == wanted {
            let mut url = paper_project_url(folia);
            url.append("/versions/");
            url.append(ver);
            return Ok(url);
        }
        i = i + 1;
    }
    Err(LibError::Ver(wanted))
}

/// The newest build of game version `ver`: the last listed one, whatever its
/// number; an absent or empty list is `LibError::NoBuild`.
pub fn paper_latest_build(list: &PaperProjectBuilds, ver: &str) -> (r: Result<u32, LibError>)
    ensures
        match paper_latest(list.builds) {
            Some(b) => r == Ok::<u32, LibError>(b),
            None => r is Err && is_no_build(r->Err_0, ver@),
        },
{
    match &list.builds {
        Some(b) => {
            if b.len() > 0 {
                Ok(b[b.len() - 1])
            } else {
                Err(LibError::NoBuild(ver.to_owned()))
            }
        },
        None => Err(LibError::NoBuild(ver.to_owned())),
    }
}

/// Address of the server binary of build `build` of game version `ver`.
pub fn paper_download_url(ver: &str, build: u32, folia: bool) -> (r: String)
    ensures
        r@ == paper_download_url_spec(ver@, build, folia),
{
    let number = decimal_string(build as u64);
    let mut url = paper_project_url(folia);
    url.append("/versions/");
    url.append(ver);
    url.append("/builds/");
    url.append(number.as_str());
    url.append("/downloads/");
    append_project(&mut url, folia);
    url.append("-");
    url.append(ver);
    url.append("-");
    url.append(number.as_str());
    url.append(".jar");
    url
}

/// A game version that the listing does not have never resolves.
pub proof fn lemma_absent_paper_version(versions: Seq<String>, ver: Seq<char>, folia: bool)
    requires
        forall|j: int| 0 <= j < versions.len() ==> versions[j]@ != ver,
    ensures
        paper_builds_url_spec(versions, ver, folia) is None,
{
}

} // verus!
