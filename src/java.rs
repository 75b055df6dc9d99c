//! Runtime toolchain archives: where they come from, where they go, and the
//! integrity check that must pass before anything uses them.
use vstd::prelude::*;

use crate::download::DownloadResult;
use crate::error::LibError;

verus! {

pub const LINUX_JAVA_8_URL: &'static str = "https://corretto.aws/downloads/latest/amazon-corretto-8-x64-linux-jdk.tar.gz";
pub const LINUX_JAVA_17_URL: &'static str = "https://corretto.aws/downloads/latest/amazon-corretto-17-x64-linux-jdk.tar.gz";
pub const LINUX_JAVA_21_URL: &'static str = "https://corretto.aws/downloads/latest/amazon-corretto-21-x64-linux-jdk.tar.gz";
pub const LINUX_JAVA_25_URL: &'static str = "https://corretto.aws/downloads/latest/amazon-corretto-25-x64-linux-jdk.tar.gz";

pub const LINUX_JAVA_8_SHA256: &'static str = "https://corretto.aws/downloads/latest_sha256/amazon-corretto-8-x64-linux-jdk.tar.gz";
pub const LINUX_JAVA_17_SHA256: &'static str = "https://corretto.aws/downloads/latest_sha256/amazon-corretto-17-x64-linux-jdk.tar.gz";
pub const LINUX_JAVA_21_SHA256: &'static str = "https://corretto.aws/downloads/latest_sha256/amazon-corretto-21-x64-linux-jdk.tar.gz";
pub const LINUX_JAVA_25_SHA256: &'static str = "https://corretto.aws/downloads/latest_sha256/amazon-corretto-25-x64-linux-jdk.tar.gz";

/// The supported major versions of the runtime toolchain.
#[derive(Debug, Clone, Copy, PartialEq, Eq, Structural)]
pub enum JavaVersion {
    Java8,
    Java17,
    Java21,
    Java25,
}

/// The hexadecimal SHA-256 digest of `data`, as the `sha256` crate renders it.
pub uninterp spec fn sha256_hex(data: Seq<u8>) -> Seq<char>;

/// Relies on `sha256::digest` for a byte slice: the hex encoding (`hex::encode`)
/// of the 32-byte SHA-256 hash, hence 64 characters, depending on the bytes alone.
#[verifier::external_body]
fn sha256_digest(data: &[u8]) -> (r: String)
    ensures
        r@ == sha256_hex(data@),
        r@.len() == 64,
{
    sha256::digest(data)
}

impl JavaVersion {
    pub open spec fn label_spec(self) -> Seq<char> {
        match self {
            JavaVersion::Java8 => "Java8"@,
            JavaVersion::Java17 => "Java17"@,
            JavaVersion::Java21 => "Java21"@,
            JavaVersion::Java25 => "Java25"@,
        }
    }

    /// The variant's name, which also names its directory.
    pub fn label(&self) -> (r: String)
        ensures
            r@ == self.label_spec(),
    {
        match self {
            JavaVersion::Java8 => String::from_str("Java8"),
            JavaVersion::Java17 => String::from_str("Java17"),
            JavaVersion::Java21 => String::from_str("Java21"),
            JavaVersion::Java25 => String::from_str("Java25"),
        }
    }

    pub open spec fn urls_spec(self) -> (Seq<char>, Seq<char>) {
        match self {
            JavaVersion::Java8 => (LINUX_JAVA_8_URL@, LINUX_JAVA_8_SHA256@),
            JavaVersion::Java17 => (LINUX_JAVA_17_URL@, LINUX_JAVA_17_SHA256@),
            JavaVersion::Java21 => (LINUX_JAVA_21_URL@, LINUX_JAVA_21_SHA256@),
            JavaVersion::Java25 => (LINUX_JAVA_25_URL@, LINUX_JAVA_25_SHA256@),
        }
    }

    /// The archive address and the address of its published digest (Linux, x64).
    pub fn linux_urls(&self) -> (r: (String, String))
        ensures
            (r.0@, r.1@) == self.urls_spec(),
    {
        match self {
            JavaVersion::Java8 => (String::from_str(LINUX_JAVA_8_URL), String::from_str(LINUX_JAVA_8_SHA256)),
            JavaVersion::Java17 => (String::from_str(LINUX_JAVA_17_URL), String::from_str(LINUX_JAVA_17_SHA256)),
            JavaVersion::Java21 => (String::from_str(LINUX_JAVA_21_URL), String::from_str(LINUX_JAVA_21_SHA256)),
            JavaVersion::Java25 => (String::from_str(LINUX_JAVA_25_URL), String::from_str(LINUX_JAVA_25_SHA256)),
        }
    }

    /// Where the archive goes, relative to the toolchain directory.
    pub fn archive_path(&self) -> (r: String)
        ensures
            r@ == self.label_spec() + "/java.tar.gz"@,
    {
        let mut p = self.label();
        p.append("/java.tar.gz");
        p
    }
}

/// Whether `e` reports that a digest `actual` was found where `expected` was
/// published.
pub open spec fn is_integrity_mismatch(e: LibError, expected: Seq<char>, actual: Seq<char>) -> bool {
    e is Integrity && e->expected@ == expected && e->actual@ == actual
}

/// Compares a published digest with a computed one, case-sensitively.
pub fn check_digest(expected: &str, actual: &str) -> (r: Result<(), LibError>)
    ensures
        r is Ok <==> expected@ == actual@,
        r is Err ==> is_integrity_mismatch(r->Err_0, expected@, actual@),
{
    let e = expected.to_owned();
    let a = actual.to_owned();
    if e == a {
        Ok(())
    } else {
        Err(LibError::Integrity { expected: e, actual: a })
    }
}

/// Checks a downloaded archive against its published hexadecimal SHA-256
/// digest; a mismatch is `LibError::Integrity`, to be handled before the
/// archive is used.
pub fn verify_archive(data: &[u8], expected: &str) -> (r: Result<(), LibError>)
    ensures
        r is Ok <==> expected@ == sha256_hex(data@),
        r is Err ==> is_integrity_mismatch(r->Err_0, expected@, sha256_hex(data@)),
{
    let actual = sha256_digest(data);
    check_digest(expected, actual.as_str())
}

/// Where a toolchain acquisition stands.
#[derive(Debug, Clone, Copy, PartialEq, Eq, Structural)]
pub enum ToolchainStage {
    AwaitArchive,
    AwaitDigest,
    Verified,
    Failed,
}

/// The outcome of the last toolchain action.
pub enum ToolchainEvent {
    /// The archive was streamed to disk.
    Downloaded(DownloadResult),
    /// The published digest document, and the archive's bytes as read back.
    Digest { published: String, archive: Vec<u8> },
}

/// The next thing for the caller to do.
pub enum ToolchainAction {
    /// Stream this address to this path under the toolchain directory.
    Download { url: String, path: String },
    /// Fetch the published digest at this address, and read the archive back.
    FetchDigest(String),
    /// The archive is in place and verified.
    Done,
    /// The acquisition failed with this error.
    Fail(LibError),
}

/// One toolchain acquisition: download, then integrity check.
pub struct ToolchainFetch {
    pub version: JavaVersion,
    /// Address of the archive for the platform at hand.
    pub archive_url: String,
    /// Address of the archive's published digest.
    pub digest_url: String,
    pub stage: ToolchainStage,
}

impl ToolchainFetch {
    /// Begins acquiring `version` from the given archive and digest
    /// addresses (one pair per platform): stream the archive.
    pub fn start_with(version: JavaVersion, archive_url: String, digest_url: String) -> (r: (
        ToolchainFetch,
        ToolchainAction,
    ))
        ensures
            r.0.version == version,
            r.0.archive_url == archive_url,
            r.0.digest_url == digest_url,
            r.0.stage == ToolchainStage::AwaitArchive,
            r.1 is Download && r.1->url@ == archive_url@ && r.1->path@ == version.label_spec()
                + "/java.tar.gz"@,
    {
        let url = archive_url.clone();
        let path = version.archive_path();
        (
            ToolchainFetch { version, archive_url, digest_url, stage: ToolchainStage::AwaitArchive },
            ToolchainAction::Download { url, path },
        )
    }

    /// Begins acquiring `version` from its Linux x64 addresses.
    pub fn start(version: JavaVersion) -> (r: (ToolchainFetch, ToolchainAction))
        ensures
            r.0.version == version,
            (r.0.archive_url@, r.0.digest_url@) == version.urls_spec(),
            r.0.stage == ToolchainStage::AwaitArchive,
            r.1 is Download && r.1->url@ == version.urls_spec().0 && r.1->path@
                == version.label_spec() + "/java.tar.gz"@,
    {
        let (url, digest) = version.linux_urls();
        ToolchainFetch::start_with(version, url, digest)
    }

    /// Takes the outcome of the last action and decides the next one: after
    /// the download, fetch the digest; then succeed only if the archive has
    /// the published digest. An event out of order fails the acquisition
    /// (`LibError::Misc`); after the end nothing changes.
    pub fn step(&mut self, event: ToolchainEvent) -> (r: ToolchainAction)
        ensures
            final(self).version == old(self).version,
            final(self).archive_url == old(self).archive_url,
            final(self).digest_url == old(self).digest_url,
            match (old(self).stage, event) {
                (ToolchainStage::AwaitArchive, ToolchainEvent::Downloaded(_)) => final(self).stage
                    == ToolchainStage::AwaitDigest && r is FetchDigest && r->FetchDigest_0@
                    == old(self).digest_url@,
                (ToolchainStage::AwaitDigest, ToolchainEvent::Digest { published, archive }) => if published@
                    == sha256_hex(archive@) {
                    final(self).stage == ToolchainStage::Verified && r is Done
                } else {
                    final(self).stage == ToolchainStage::Failed && r is Fail
                        && is_integrity_mismatch(r->Fail_0, published@, sha256_hex(archive@))
                },
                _ => r is Fail && r->Fail_0 is Misc && final(self).stage == (if old(self).stage
                    is Verified {
                    ToolchainStage::Verified
                } else {
                    ToolchainStage::Failed
                }),
            },
    {
        match (self.stage, event) {
            (ToolchainStage::AwaitArchive, ToolchainEvent::Downloaded(_)) => {
                self.stage = ToolchainStage::AwaitDigest;
                ToolchainAction::FetchDigest(self.digest_url.clone())
            },
            (ToolchainStage::AwaitDigest, ToolchainEvent::Digest { published, archive }) => {
                match verify_archive(archive.as_slice(), published.as_str()) {
                    Ok(()) => {
                        self.stage = ToolchainStage::Verified;
                        ToolchainAction::Done
                    },
                    Err(e) => {
                        self.stage = ToolchainStage::Failed;
                        ToolchainAction::Fail(e)
                    },
                }
            },
            _ => {
                match self.stage {
                    ToolchainStage::Verified => {},
                    _ => {
                        self.stage = ToolchainStage::Failed;
                    },
                }
                ToolchainAction::Fail(LibError::Misc(String::from_str("event out of order")))
            },
        }
    }
}

} // verus!
