//! Providers, the artifact each one downloads, and the installer process that
//! the mod-loader providers need afterwards.
use vstd::prelude::*;

use crate::error::LibError;

verus! {

/// The distribution sources a server can be obtained from.
#[derive(Debug, Clone, Copy, PartialEq, Eq, Structural)]
pub enum Modloaders {
    Vanilla,
    Forge,
    NeoForge,
    Fabric,
    Paper,
    Folia,
}

impl Modloaders {
    /// Whether the downloaded artifact is an installer that must be run.
    pub open spec fn installs_spec(self) -> bool {
        self is Forge || self is NeoForge || self is Fabric
    }

    /// Whether the downloaded artifact is an installer that must be run.
    pub fn installs(&self) -> (r: bool)
        ensures
            r == self.installs_spec(),
    {
        match self {
            Modloaders::Forge | Modloaders::NeoForge | Modloaders::Fabric => true,
            _ => false,
        }
    }

    /// The file name the artifact is saved under in the destination directory.
    pub fn artifact_file_name(&self) -> (r: String)
        ensures
            r@ == (if self.installs_spec() {
                "installer.jar"@
            } else {
                "server.jar"@
            }),
    {
        if self.installs() {
            String::from_str("installer.jar")
        } else {
            String::from_str("server.jar")
        }
    }
}

/// One installer run: the program, its arguments and its working directory.
pub struct InstallJob {
    pub program: String,
    pub args: Vec<String>,
    pub working_dir: String,
}

/// The installer arguments for `provider`, if its artifact is an installer.
pub open spec fn installer_args(provider: Modloaders, game_version: Seq<char>, dest: Seq<char>) -> Option<
    Seq<Seq<char>>,
> {
    match provider {
        Modloaders::Forge | Modloaders::NeoForge => Some(
            seq!["-jar"@, "installer.jar"@, "--installServer"@],
        ),
        Modloaders::Fabric => Some(
            seq!["-jar"@, "installer.jar"@, "server"@, "-mcversion"@, game_version, "-dir"@, dest],
        ),
        _ => None,
    }
}

fn push_str(v: &mut Vec<String>, s: &str)
    ensures
        final(v)@.map_values(|x: String| x@) == old(v)@.map_values(|x: String| x@).push(s@),
{
    v.push(String::from_str(s));
    assert(final(v)@.map_values(|x: String| x@) =~= old(v)@.map_values(|x: String| x@).push(s@));
}

/// The installer run for `provider`: `java` on the downloaded `installer.jar`
/// in the destination directory `dest`; `None` for providers that download a
/// ready server.
pub fn installer_job(provider: Modloaders, java: &str, game_version: &str, dest: &str) -> (r: Option<
    InstallJob,
>)
    ensures
        r is Some <==> provider.installs_spec(),
        r is Some ==> {
            &&& Some(r->0.args@.map_values(|x: String| x@)) == installer_args(
                provider,
                game_version@,
                dest@,
            )
            &&& r->0.program@ == java@
            &&& r->0.working_dir@ == dest@
        },
{
    if !provider.installs() {
        return None;
    }
    let mut args: Vec<String> = Vec::new();
    assert(args@.map_values(|x: String| x@) =~= Seq::<Seq<char>>::empty());
    push_str(&mut args, "-jar");
    push_str(&mut args, "installer.jar");
    match provider {
        Modloaders::Fabric => {
            push_str(&mut args, "server");
            push_str(&mut args, "-mcversion");
            push_str(&mut args, game_version);
            push_str(&mut args, "-dir");
            push_str(&mut args, dest);
        },
        _ => {
            push_str(&mut args, "--installServer");
        },
    }
    proof {
        let got = args@.map_values(|x: String| x@);
        let want = installer_args(provider, game_version@, dest@)->0;
        assert(got =~= want);
    }
    Some(
        InstallJob {
            program: String::from_str(java),
            args,
            working_dir: String::from_str(dest),
        },
    )
}

/// Judges an installer's exit: success only on status zero; any other status,
/// or none (killed by a signal), is `LibError::Exit`.
pub fn check_install_exit(code: Option<i32>) -> (r: Result<(), LibError>)
    ensures
        r is Ok <==> code == Some(0i32),
        r is Err ==> r->Err_0 == LibError::Exit(code),
{
    match code {
        Some(c) => if c == 0 {
            Ok(())
        } else {
            Err(LibError::Exit(code))
        },
        None => Err(LibError::Exit(code)),
    }
}

} // verus!
