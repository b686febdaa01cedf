//! Reference names: building them, and reading a branch name back out of
//! the target of a remote-tracking `HEAD`.

use vstd::prelude::*;
use vstd::string::StringExecFns;
use vstd::string::StringSliceAdditionalSpecFns;
use vstd::utf8::decode_utf8;
use vstd::utf8::decode_utf8_split;
use vstd::utf8::encode_utf8;
use vstd::utf8::encode_utf8_decode_utf8;
use vstd::utf8::encode_utf8_valid_utf8;
use vstd::utf8::is_char_boundary;
use vstd::utf8::length_of_first_scalar;
use vstd::utf8::pop_first_scalar;
use vstd::utf8::valid_utf8;

verus! {

/// `refs/remotes/<remote>/`: the namespace of a remote's tracking references.
pub open spec fn remote_prefix(remote: Seq<char>) -> Seq<char> {
    "refs/remotes/"@ + remote + "/"@
}

/// `refs/remotes/<remote>/HEAD`: the remote's recorded default branch.
pub open spec fn remote_head_name(remote: Seq<char>) -> Seq<char> {
    remote_prefix(remote) + "HEAD"@
}

/// `refs/heads/<branch>`: a local branch.
pub open spec fn branch_ref_name(branch: Seq<char>) -> Seq<char> {
    "refs/heads/"@ + branch
}

/// The branch that a remote-tracking target names: what follows
/// `refs/remotes/<remote>/`, or nothing when the target lies elsewhere.
pub open spec fn strip_remote_prefix(target: Seq<char>, remote: Seq<char>) -> Option<Seq<char>> {
    let prefix = remote_prefix(remote);
    if prefix.is_prefix_of(target) {
        Some(target.skip(prefix.len() as int))
    } else {
        None
    }
}

/// Builds `refs/remotes/<remote>/`.
pub fn remote_prefix_string(remote: &str) -> (r: String)
    ensures
        r@ == remote_prefix(remote@),
{
    let mut s = String::from_str("refs/remotes/");
    s.append(remote);
    s.append("/");
    s
}

/// Builds `refs/remotes/<remote>/HEAD`.
pub fn remote_head_ref(remote: &str) -> (r: String)
    ensures
        r@ == remote_head_name(remote@),
{
    let mut s = remote_prefix_string(remote);
    s.append("HEAD");
    s
}

/// Builds `refs/heads/<branch>`.
pub fn branch_ref(branch: &str) -> (r: String)
    ensures
        r@ == branch_ref_name(branch@),
{
    let mut s = String::from_str("refs/heads/");
    s.append(branch);
    s
}

proof fn lemma_encode_concat(a: Seq<char>, b: Seq<char>)
    ensures
        encode_utf8(a + b) == encode_utf8(a) + encode_utf8(b),
    decreases a.len(),
{
    if a.len() == 0 {
        assert(a + b =~= b);
        assert(encode_utf8(a) + encode_utf8(b) =~= encode_utf8(b));
    } else {
        lemma_encode_concat(a.drop_first(), b);
        assert((a + b).drop_first() =~= a.drop_first() + b);
        assert(encode_utf8(a + b) =~= encode_utf8(a) + encode_utf8(b));
    }
}

/// A text that starts with `prefix` has an encoding that starts with the
/// encoding of `prefix`.
proof fn lemma_char_prefix_gives_byte_prefix(prefix: Seq<char>, text: Seq<char>)
    ensures
        prefix.is_prefix_of(text) ==> encode_utf8(prefix).is_prefix_of(encode_utf8(text)),
{
    if prefix.is_prefix_of(text) {
        let rest = text.skip(prefix.len() as int);
        assert(text =~= prefix + rest);
        lemma_encode_concat(prefix, rest);
        assert(encode_utf8(text).subrange(0, encode_utf8(prefix).len() as int) =~= encode_utf8(
            prefix,
        ));
    }
}

/// Where valid UTF-8 is followed by more bytes and the whole is valid, the
/// join is a character boundary.
proof fn lemma_boundary_after_valid(head: Seq<u8>, tail: Seq<u8>)
    requires
        valid_utf8(head),
        valid_utf8(head + tail),
    ensures
        is_char_boundary(head + tail, head.len() as int),
    decreases head.len(),
{
    if head.len() > 0 {
        let whole = head + tail;
        assert(whole[0] == head[0]);
        assert(length_of_first_scalar(whole) == length_of_first_scalar(head));
        assert(pop_first_scalar(whole) =~= pop_first_scalar(head) + tail);
        lemma_boundary_after_valid(pop_first_scalar(head), tail);
    }
}

/// The branch named by a remote-tracking target: `target` with the prefix
/// `refs/remotes/<remote>/` taken off, or `None` where it does not start so.
pub fn strip_remote(target: &str, remote: &str) -> (r: Option<String>)
    ensures
        match strip_remote_prefix(target@, remote@) {
            Some(branch) => r matches Some(s) && s@ == branch,
            None => r is None,
        },
{
    let prefix = remote_prefix_string(remote);
    let pb = prefix.as_str().as_bytes();
    let tb = target.as_bytes();
    let n = pb.len();
    if n > tb.len() {
        proof {
            lemma_char_prefix_gives_byte_prefix(prefix@, target@);
        }
        return None;
    }
    let mut i: usize = 0;
    while i < n
        invariant
            n == pb@.len(),
            n <= tb@.len(),
            prefix@ == remote_prefix(remote@),
            pb@ == encode_utf8(prefix@),
            tb@ == encode_utf8(target@),
            0 <= i <= n,
            tb@.subrange(0, i as int) =~= pb@.subrange(0, i as int),
        decreases n - i,
    {
        if pb[i] != tb[i] {
            proof {
                lemma_char_prefix_gives_byte_prefix(prefix@, target@);
            }
            return None;
        }
        i = i + 1;
    }
    let ghost tail = tb@.subrange(n as int, tb@.len() as int);
    proof {
        encode_utf8_valid_utf8(prefix@);
        encode_utf8_valid_utf8(target@);
        assert(pb@.subrange(0, n as int) =~= pb@);
        assert(tb@ =~= pb@ + tail);
        lemma_boundary_after_valid(pb@, tail);
    }
    let (_, rest) = target.split_at(n);
    proof {
        decode_utf8_split(tb@, n as int);
        assert(tb@.subrange(0, n as int) =~= pb@);
        encode_utf8_decode_utf8(prefix@);
        encode_utf8_decode_utf8(target@);
        encode_utf8_decode_utf8(rest@);
        assert(target@ =~= prefix@ + rest@);
        assert(target@.skip(prefix@.len() as int) =~= rest@);
    }
    Some(rest.to_owned())
}

} // verus!
