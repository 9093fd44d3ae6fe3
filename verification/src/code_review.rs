//! Per-file invalidation in the code review panel: a queued task that
//! recomputes the diff of one file against the transport it was queued for.
use vstd::prelude::*;

use crate::git::GitExecTarget;

verus! {

/// What a diff is taken against.
pub enum DiffMode {
    /// The working tree against `HEAD`.
    Head,
    /// The working tree against the main branch.
    MainBranch,
    /// The working tree against the named branch.
    OtherBranch(String),
}

impl DiffMode {
    /// A copy of this mode.
    pub fn duplicate(&self) -> (r: DiffMode)
        ensures
            r == *self,
    {
        match self {
            DiffMode::Head => DiffMode::Head,
            DiffMode::MainBranch => DiffMode::MainBranch,
            DiffMode::OtherBranch(branch) => DiffMode::OtherBranch(branch.clone()),
        }
    }
}

impl GitExecTarget {
    /// A copy of this target.
    pub fn duplicate(&self) -> (r: GitExecTarget)
        ensures
            r == *self,
    {
        match self {
            GitExecTarget::Local { repo_path } => GitExecTarget::Local { repo_path: repo_path.clone() },
            GitExecTarget::Remote { session_id, repo_path, host } => GitExecTarget::Remote {
                session_id: *session_id,
                repo_path: repo_path.clone(),
                host: host.clone(),
            },
        }
    }
}

/// Why invalidating a file failed.
pub struct FileInvalidationError {
    pub message: String,
}

impl FileInvalidationError {
    /// Whether the queue should retry the task: every failure counts as
    /// transient.
    pub fn is_transient(&self) -> (r: bool)
        ensures
            r,
    {
        true
    }
}

/// A queued task that recomputes the diff of one file.
pub struct FileInvalidationTask {
    /// The file whose diff is recomputed.
    pub file: String,
    /// The transport the diff is computed against, taken from the active diff
    /// state when the task was queued, so a remote session recomputes on the
    /// remote host.
    pub exec_target: GitExecTarget,
    pub mode: DiffMode,
    pub merge_base: Option<String>,
}

/// The diff retrieval that a run of the task performs.
pub struct FileDiffRequest {
    pub exec_target: GitExecTarget,
    pub file: String,
    pub mode: DiffMode,
    pub merge_base: Option<String>,
}

impl FileInvalidationTask {
    /// What a run of the task retrieves: the diff of its file, against its
    /// target, mode and merge base as they stand when the run starts.
    pub fn run(&self) -> (r: FileDiffRequest)
        ensures
            r.exec_target == self.exec_target,
            r.file@ == self.file@,
            r.mode == self.mode,
            r.merge_base == self.merge_base,
    {
        let merge_base = match &self.merge_base {
            Some(base) => Some(base.clone()),
            None => None,
        };
        FileDiffRequest {
            exec_target: self.exec_target.duplicate(),
            file: self.file.clone(),
            mode: self.mode.duplicate(),
            merge_base,
        }
    }
}

/// The result of a run of the task from the outcome of the diff retrieval:
/// a retrieved diff is passed on as it is, and a failure becomes a
/// `FileInvalidationError` carrying its message, which the queue treats as
/// transient.
pub fn map_retrieval_outcome<T>(outcome: Result<T, String>) -> (r: Result<T, FileInvalidationError>)
    ensures
        match outcome {
            Ok(v) => r matches Ok(w) && w == v,
            Err(m) => r matches Err(e) && e.message == m,
        },
{
    match outcome {
        Ok(v) => Ok(v),
        Err(message) => Err(FileInvalidationError { message }),
    }
}

} // verus!
