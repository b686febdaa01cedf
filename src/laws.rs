//! The policy's laws, over the outcomes that the resolution's contracts use.

use crate::git::RefTarget;
use crate::names::remote_prefix;
use crate::resolve::refreshed_outcome;
use crate::resolve::remote_head_outcome;
use crate::resolve::ResolveError;
use vstd::prelude::*;
use vstd::utf8::encode_utf8;
use vstd::utf8::encode_utf8_decode_utf8;
use vstd::utf8::encode_utf8_valid_utf8;

verus! {

/// With no remote-tracking `HEAD`, even after the refresh, a local `main`
/// is the default branch, whether or not `master` exists too.
pub proof fn law_main_without_remote_head(has_master: bool, remote: Seq<char>)
    ensures
        refreshed_outcome(None, true, has_master, remote) == Ok::<Seq<char>, ResolveError>(
            "main"@,
        ),
{
}

/// With no remote-tracking `HEAD` and no `main`, a local `master` is the
/// default branch.
pub proof fn law_master_without_main(remote: Seq<char>)
    ensures
        refreshed_outcome(None, false, true, remote) == Ok::<Seq<char>, ResolveError>(
            "master"@,
        ),
{
}

/// With neither a remote-tracking `HEAD` nor a `main` or `master` branch,
/// the resolution fails with [`ResolveError::NoDefaultBranch`].
pub proof fn law_nothing_to_go_by(remote: Seq<char>)
    ensures
        refreshed_outcome(None, false, false, remote) == Err::<Seq<char>, ResolveError>(
            ResolveError::NoDefaultBranch,
        ),
{
}

/// A remote-tracking `HEAD` that points to `refs/remotes/<remote>/<branch>`
/// names `branch`, and wins over the local branches, whichever exist.
pub proof fn law_remote_head_names_branch(
    name: Vec<u8>,
    branch: Seq<char>,
    remote: Seq<char>,
    has_main: bool,
    has_master: bool,
)
    requires
        name@ == encode_utf8(remote_prefix(remote) + branch),
    ensures
        remote_head_outcome(Some(RefTarget::Symbolic(name)), remote) == Some(
            Ok::<Seq<char>, ResolveError>(branch),
        ),
        refreshed_outcome(Some(RefTarget::Symbolic(name)), has_main, has_master, remote) == Ok::<
            Seq<char>,
            ResolveError,
        >(branch),
{
    let target = remote_prefix(remote) + branch;
    encode_utf8_valid_utf8(target);
    encode_utf8_decode_utf8(target);
    assert(remote_prefix(remote).is_prefix_of(target));
    assert(target.skip(remote_prefix(remote).len() as int) =~= branch);
}

/// A remote-tracking `HEAD` that points directly at an object names no
/// branch, whatever the local branches are.
pub proof fn law_direct_remote_head(remote: Seq<char>, has_main: bool, has_master: bool)
    ensures
        refreshed_outcome(Some(RefTarget::Object), has_main, has_master, remote) == Err::<
            Seq<char>,
            ResolveError,
        >(ResolveError::NotSymbolic),
{
}

} // verus!
