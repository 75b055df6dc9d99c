use vstd::prelude::*;

verus! {

/// Every failure the library reports.
#[derive(Debug, PartialEq, Eq)]
pub enum LibError {
    /// A file-system or configuration read/write failed.
    Io(String),
    /// A number in a metadata document could not be parsed.
    Parse(String),
    /// A transport failure while talking to an upstream service.
    Net(String),
    /// The requested game version is not listed by the provider.
    Ver(String),
    /// The game version is listed, but the provider has no build for it.
    NoBuild(String),
    /// A metadata document did not have the expected shape.
    Json(String),
    /// A downloaded archive does not have the published digest.
    Integrity { expected: String, actual: String },
    /// The body of a download did not have the advertised size, or was empty.
    Size { advertised: Option<u64>, received: u64 },
    /// An installer or server process could not be started.
    Spawn(String),
    /// An installer exited with a nonzero status (`None`: killed by a signal).
    Exit(Option<i32>),
    /// No managed process is registered under this name.
    UnknownProcess(String),
    /// The managed process of this name has already exited.
    ProcessExited(String),
    /// A managed process of this name is still running.
    ProcessRunning(String),
    /// An environment variable could not be read.
    Var(String),
    /// Anything else.
    Misc(String),
}

} // verus!
