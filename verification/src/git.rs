//! Where git runs for a repository, and how the output of a command that ran
//! on a remote host is turned into the same result a local run gives.
use vstd::prelude::*;
use vstd::string::*;
use vstd::utf8::*;

use crate::shell::{arg_views, build_remote_git_command, remote_git_command_line};

verus! {

/// The text that `String::from_utf8_lossy` makes of `bytes`.
pub uninterp spec fn utf8_lossy(bytes: Seq<u8>) -> Seq<char>;

/// Calls `String::from_utf8_lossy`, which decodes valid UTF-8 as it is and
/// replaces each invalid sequence with U+FFFD. The contract names the result
/// and states the valid case; what invalid input becomes is left unsaid.
#[verifier::external_body]
fn decode_lossy(bytes: &[u8]) -> (r: String)
    ensures
        r@ == utf8_lossy(bytes@),
        valid_utf8(bytes@) ==> r@ == decode_utf8(bytes@),
{
    String::from_utf8_lossy(bytes).into_owned()
}

/// Whether a command that exited with `exit_code` and printed `stdout`
/// counts as a success: exit status 0, or exit status 1 with output (how
/// `git diff` reports that differences were found). A command killed by a
/// signal has no exit status and fails.
pub open spec fn remote_output_succeeds(stdout: Seq<u8>, exit_code: Option<i32>) -> bool {
    exit_code == Some(0i32) || (exit_code == Some(1i32) && stdout.len() > 0)
}

/// A command that ran on the remote host and failed.
#[derive(Debug)]
pub struct RemoteCommandError {
    /// The program's name as the failure message words it (`Git`, `gh`).
    pub label: String,
    /// The exit status, or `None` when the command was killed by a signal.
    pub exit_code: Option<i32>,
    /// What the command wrote to standard error.
    pub stderr: String,
}

impl RemoteCommandError {
    /// The failure message: `<label> command failed: <stderr>`.
    pub fn message(&self) -> (r: String)
        ensures
            r@ == self.label@ + " command failed: "@ + self.stderr@,
    {
        let mut out = self.label.clone();
        out.append(" command failed: ");
        out.append(self.stderr.as_str());
        out
    }
}

/// Maps the output of a command that ran on the remote host with the rules a
/// local run follows: success gives standard output, byte for byte where it
/// is valid UTF-8; failure gives an error that carries `label`, the exit
/// status and standard error.
pub fn map_remote_output(label: &str, stdout: &[u8], stderr: &[u8], exit_code: Option<i32>) -> (r:
    Result<String, RemoteCommandError>)
    ensures
        r is Ok <==> remote_output_succeeds(stdout@, exit_code),
        r matches Ok(out) ==> out@ == utf8_lossy(stdout@) && (valid_utf8(stdout@) ==> out@
            == decode_utf8(stdout@)),
        r matches Err(e) ==> {
            &&& e.label@ == label@
            &&& e.exit_code == exit_code
            &&& e.stderr@ == utf8_lossy(stderr@)
        },
{
    let succeeded = match exit_code {
        Some(0) => true,
        Some(1) => stdout.len() > 0,
        _ => false,
    };
    if succeeded {
        Ok(decode_lossy(stdout))
    } else {
        Err(RemoteCommandError { label: label.to_owned(), exit_code, stderr: decode_lossy(stderr) })
    }
}

/// The repository a git command runs against, and over which transport.
pub enum GitExecTarget {
    /// A repository on this machine, reached by spawning `git`.
    Local { repo_path: String },
    /// A repository on a remote host, reached through the remote server
    /// session `session_id`.
    Remote { session_id: u64, repo_path: String, host: String },
}

/// How one git invocation is carried out.
pub enum GitInvocation {
    /// Spawn `git` with `args` in `repo_path`.
    Local { repo_path: String, args: Vec<String> },
    /// Run the shell command line `command` in `repo_path` on the remote
    /// session, with the variables `env` set in its environment.
    Remote { session_id: u64, repo_path: String, command: String, env: Vec<(String, String)> },
}

/// The views of a vector of strings.
pub open spec fn string_views(v: Seq<String>) -> Seq<Seq<char>> {
    v.map_values(|s: String| s@)
}

/// The views of a vector of name and value pairs.
pub open spec fn env_views(v: Seq<(String, String)>) -> Seq<(Seq<char>, Seq<char>)> {
    v.map_values(|p: (String, String)| (p.0@, p.1@))
}

/// The environment of a git command run on a remote host: optional locks
/// off, so the remote git takes no lock that would race with other git
/// processes there.
pub open spec fn remote_git_env() -> Seq<(Seq<char>, Seq<char>)> {
    seq![("GIT_OPTIONAL_LOCKS"@, "0"@)]
}

/// Owned copies of `args`, in order.
fn owned_args(args: &[&str]) -> (r: Vec<String>)
    ensures
        string_views(r@) == arg_views(args@),
{
    let mut out: Vec<String> = Vec::new();
    let mut i: usize = 0;
    while i < args.len()
        invariant
            i <= args@.len(),
            string_views(out@) =~= arg_views(args@).take(i as int),
        decreases args@.len() - i,
    {
        let ghost before = out@;
        let owned = args[i].to_owned();
        out.push(owned);
        proof {
            assert(out@ =~= before.push(owned));
            assert(string_views(before.push(owned)) =~= string_views(before).push(owned@));
            assert(arg_views(args@).take(i + 1) =~= arg_views(args@).take(i as int).push(
                args@[i as int]@,
            ));
        }
        i = i + 1;
    }
    proof {
        assert(arg_views(args@).take(i as int) =~= arg_views(args@));
    }
    out
}

impl GitExecTarget {
    /// A target for the local repository at `repo_path`.
    pub fn local(repo_path: String) -> (r: GitExecTarget)
        ensures
            r matches GitExecTarget::Local { repo_path: p } && p@ == repo_path@,
    {
        GitExecTarget::Local { repo_path }
    }

    /// The repository's path, on whichever machine holds it.
    pub fn repo_path(&self) -> (r: &str)
        ensures
            r@ == match self {
                GitExecTarget::Local { repo_path } => repo_path@,
                GitExecTarget::Remote { repo_path, .. } => repo_path@,
            },
    {
        match self {
            GitExecTarget::Local { repo_path } => repo_path.as_str(),
            GitExecTarget::Remote { repo_path, .. } => repo_path.as_str(),
        }
    }

    /// Whether git runs on a remote host.
    pub fn is_remote(&self) -> (r: bool)
        ensures
            r == (self is Remote),
    {
        match self {
            GitExecTarget::Local { .. } => false,
            GitExecTarget::Remote { .. } => true,
        }
    }

    /// How to run `git` with `args` against this target: locally in the
    /// repository with the arguments as they are, or as a quoted command
    /// line on the remote session with optional locks off.
    pub fn git_invocation(&self, args: &[&str]) -> (r: GitInvocation)
        ensures
            match self {
                GitExecTarget::Local { repo_path } => r matches GitInvocation::Local {
                    repo_path: p,
                    args: a,
                } && p@ == repo_path@ && string_views(a@) == arg_views(args@),
                GitExecTarget::Remote { session_id, repo_path, .. } => r matches GitInvocation::Remote {
                    session_id: s,
                    repo_path: p,
                    command: c,
                    env: e,
                } && s == *session_id && p@ == repo_path@ && c@ == remote_git_command_line(
                    arg_views(args@),
                ) && env_views(e@) == remote_git_env(),
            },
    {
        match self {
            GitExecTarget::Local { repo_path } => GitInvocation::Local {
                repo_path: repo_path.clone(),
                args: owned_args(args),
            },
            GitExecTarget::Remote { session_id, repo_path, .. } => {
                let mut env: Vec<(String, String)> = Vec::new();
                env.push(("GIT_OPTIONAL_LOCKS".to_owned(), "0".to_owned()));
                proof {
                    assert(env_views(env@) =~= remote_git_env());
                }
                GitInvocation::Remote {
                    session_id: *session_id,
                    repo_path: repo_path.clone(),
                    command: build_remote_git_command(args),
                    env,
                }
            },
        }
    }
}

} // verus!
