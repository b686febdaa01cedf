//! The fallback policy that names a repository's default branch.
//!
//! In order:
//! 1. the remote-tracking `refs/remotes/<remote>/HEAD`: where it exists it
//!    decides, naming the branch that follows `refs/remotes/<remote>/` in
//!    its symbolic target, or failing where it names none;
//! 2. where that reference is missing, the caller refreshes it once from the
//!    remote (`git remote set-head <remote> --auto`) and it is looked up again;
//! 3. where it is still missing, a local branch `main`, then a local branch
//!    `master`; else the resolution fails.
//!
//! The refresh is outside work: [`first_attempt`] says when it is due, and
//! [`after_refresh`] finishes the resolution once it has been done.

use crate::git::discover;
use crate::git::find_reference;
use crate::git::utf8_text;
use crate::git::RefTarget;
use crate::names::branch_ref;
use crate::names::remote_head_ref;
use crate::names::strip_remote;
use crate::names::strip_remote_prefix;
use vstd::prelude::*;
use vstd::utf8::decode_utf8;
use vstd::utf8::valid_utf8;

verus! {

/// Why no default branch could be named.
#[derive(Clone, Copy, Debug, PartialEq, Eq, Structural)]
pub enum ResolveError {
    /// No repository at the path or above it.
    NotARepository,
    /// The remote-tracking `HEAD` points directly at an object.
    NotSymbolic,
    /// The remote-tracking `HEAD` points to a name that is not UTF-8.
    NotUtf8,
    /// The remote-tracking `HEAD` points outside `refs/remotes/<remote>/`.
    UnexpectedPrefix,
    /// Neither a remote-tracking `HEAD` nor a `main` or `master` branch.
    NoDefaultBranch,
}

/// The next thing to do after the first lookup of the remote-tracking `HEAD`.
#[derive(Debug)]
pub enum Step {
    /// The resolution is over, with this outcome.
    Done(Result<String, ResolveError>),
    /// The remote-tracking `HEAD` is missing: refresh it from the remote,
    /// then call [`after_refresh`].
    Refresh,
}

pub open spec fn result_view(r: Result<String, ResolveError>) -> Result<Seq<char>, ResolveError> {
    match r {
        Ok(s) => Ok(s@),
        Err(e) => Err(e),
    }
}

pub open spec fn option_result_view(r: Option<Result<String, ResolveError>>) -> Option<
    Result<Seq<char>, ResolveError>,
> {
    match r {
        Some(x) => Some(result_view(x)),
        None => None,
    }
}

/// What the remote-tracking `HEAD` of `remote` says, given what its lookup
/// found: `None` when it is missing, else the branch it names or why it
/// names none.
pub open spec fn remote_head_outcome(found: Option<RefTarget>, remote: Seq<char>) -> Option<
    Result<Seq<char>, ResolveError>,
> {
    match found {
        None => None,
        Some(RefTarget::Object) => Some(Err(ResolveError::NotSymbolic)),
        Some(RefTarget::Symbolic(name)) => Some(
            if !valid_utf8(name@) {
                Err(ResolveError::NotUtf8)
            } else {
                match strip_remote_prefix(decode_utf8(name@), remote) {
                    Some(branch) => Ok(branch),
                    None => Err(ResolveError::UnexpectedPrefix),
                }
            },
        ),
    }
}

/// The local fallback: `main` where it exists, else `master`, else failure.
pub open spec fn local_branch_outcome(has_main: bool, has_master: bool) -> Result<
    Seq<char>,
    ResolveError,
> {
    if has_main {
        Ok("main"@)
    } else if has_master {
        Ok("master"@)
    } else {
        Err(ResolveError::NoDefaultBranch)
    }
}

/// The resolution once the remote-tracking `HEAD` has been refreshed: what
/// it says where it is there, else the local fallback.
pub open spec fn refreshed_outcome(
    found: Option<RefTarget>,
    has_main: bool,
    has_master: bool,
    remote: Seq<char>,
) -> Result<Seq<char>, ResolveError> {
    match remote_head_outcome(found, remote) {
        Some(outcome) => outcome,
        None => local_branch_outcome(has_main, has_master),
    }
}

/// Reads the remote-tracking `HEAD` of `remote` out of what its lookup found.
pub fn interpret_remote_head(found: &Option<RefTarget>, remote: &str) -> (r: Option<
    Result<String, ResolveError>,
>)
    ensures
        option_result_view(r) == remote_head_outcome(*found, remote@),
{
    match found {
        None => None,
        Some(RefTarget::Object) => Some(Err(ResolveError::NotSymbolic)),
        Some(RefTarget::Symbolic(name)) => match utf8_text(name.as_slice()) {
            None => Some(Err(ResolveError::NotUtf8)),
            Some(target) => match strip_remote(target, remote) {
                Some(branch) => Some(Ok(branch)),
                None => Some(Err(ResolveError::UnexpectedPrefix)),
            },
        },
    }
}

/// Picks the local fallback branch from which of `main` and `master` exist.
pub fn choose_local_branch(has_main: bool, has_master: bool) -> (r: Result<String, ResolveError>)
    ensures
        result_view(r) == local_branch_outcome(has_main, has_master),
{
    if has_main {
        Ok(String::from_str("main"))
    } else if has_master {
        Ok(String::from_str("master"))
    } else {
        Err(ResolveError::NoDefaultBranch)
    }
}

impl ResolveError {
    /// A one-line description for people.
    pub fn message(&self) -> (r: String)
        ensures
            r@ == self.message_text(),
    {
        match self {
            ResolveError::NotARepository => String::from_str("not a git repository"),
            ResolveError::NotSymbolic => String::from_str("HEAD is not symbolic"),
            ResolveError::NotUtf8 => String::from_str("HEAD names a reference that is not UTF-8"),
            ResolveError::UnexpectedPrefix => String::from_str("Invalid ref format"),
            ResolveError::NoDefaultBranch => String::from_str("could not determine default branch."),
        }
    }

    pub open spec fn message_text(&self) -> Seq<char> {
        match self {
            ResolveError::NotARepository => "not a git repository"@,
            ResolveError::NotSymbolic => "HEAD is not symbolic"@,
            ResolveError::NotUtf8 => "HEAD names a reference that is not UTF-8"@,
            ResolveError::UnexpectedPrefix => "Invalid ref format"@,
            ResolveError::NoDefaultBranch => "could not determine default branch."@,
        }
    }
}

/// The outcome of a discovery: the repository where one was found, else
/// [`ResolveError::NotARepository`].
pub fn discovered(found: Result<gix::Repository, gix::Error>) -> (r: Result<
    gix::Repository,
    ResolveError,
>)
    ensures
        r is Err <==> found is Err,
        r matches Err(e) ==> e == ResolveError::NotARepository,
{
    match found {
        Ok(repo) => Ok(repo),
        Err(_) => Err(ResolveError::NotARepository),
    }
}

/// Opens the repository at `path` or at the nearest directory above it.
pub fn open_repository(path: &str) -> (r: Result<gix::Repository, ResolveError>)
    ensures
        r matches Err(e) ==> e == ResolveError::NotARepository,
{
    discovered(discover(path))
}

/// Whether the local branch `branch` exists.
fn has_branch(repo: &gix::Repository, branch: &str) -> (r: bool) {
    let name = branch_ref(branch);
    find_reference(repo, name.as_str()).is_some()
}

/// The step that follows a first lookup of the remote-tracking `HEAD` that
/// found `found`: a refresh where it is missing, else the end, with what it
/// says.
pub open spec fn first_step(r: Step, found: Option<RefTarget>, remote: Seq<char>) -> bool {
    match remote_head_outcome(found, remote) {
        None => r is Refresh,
        Some(outcome) => r matches Step::Done(done) && result_view(done) == outcome,
    }
}

/// Decides what follows the first lookup of the remote-tracking `HEAD`,
/// from what it found: a refresh where it is missing, else the end, with
/// the branch it names or why it names none.
pub fn next_step(found: &Option<RefTarget>, remote: &str) -> (r: Step)
    ensures
        first_step(r, *found, remote@),
{
    match interpret_remote_head(found, remote) {
        Some(outcome) => Step::Done(outcome),
        None => Step::Refresh,
    }
}

/// Settles the resolution after the refresh, from what the second lookup of
/// the remote-tracking `HEAD` found and which local branches exist: the
/// remote-tracking `HEAD` decides where it is there, else `main`, else
/// `master`, else [`ResolveError::NoDefaultBranch`].
pub fn settle(found: &Option<RefTarget>, has_main: bool, has_master: bool, remote: &str) -> (r:
    Result<String, ResolveError>)
    ensures
        result_view(r) == refreshed_outcome(*found, has_main, has_master, remote@),
{
    match interpret_remote_head(found, remote) {
        Some(outcome) => outcome,
        None => choose_local_branch(has_main, has_master),
    }
}

/// The first lookup of `refs/remotes/<remote>/HEAD`: its outcome where the
/// reference is there, else [`Step::Refresh`].
pub fn first_attempt(repo: &gix::Repository, remote: &str) -> (r: Step)
    ensures
        exists|found: Option<RefTarget>| #[trigger] first_step(r, found, remote@),
{
    let name = remote_head_ref(remote);
    let found = find_reference(repo, name.as_str());
    next_step(&found, remote)
}

/// The resolution after the remote-tracking `HEAD` has been refreshed: what
/// it says where it is there now, else the local fallback. The local
/// branches are looked up only where it is missing, `master` only where
/// `main` is missing too.
pub fn after_refresh(repo: &gix::Repository, remote: &str) -> (r: Result<String, ResolveError>)
    ensures
        exists|found: Option<RefTarget>, has_main: bool, has_master: bool|
            #[trigger] refreshed_outcome(found, has_main, has_master, remote@) == result_view(r),
{
    let name = remote_head_ref(remote);
    let found = find_reference(repo, name.as_str());
    let (has_main, has_master) = if found.is_some() {
        (false, false)
    } else {
        let has_main = has_branch(repo, "main");
        (has_main, !has_main && has_branch(repo, "master"))
    };
    settle(&found, has_main, has_master, remote)
}

} // verus!
