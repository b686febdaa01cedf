//! The calls into gix and bstr that the resolution makes, each behind a
//! wrapper whose contract states what holds of every outcome.

use gix::bstr::ByteSlice;
use vstd::prelude::*;
use vstd::utf8::decode_utf8;
use vstd::utf8::valid_utf8;

verus! {

/// `gix::Repository`, carried through opaque.
#[verifier::external_type_specification]
#[verifier::external_body]
pub struct ExRepository(gix::Repository);

/// `gix::Error`, the error of `gix::discover`, carried through opaque.
#[verifier::external_type_specification]
#[verifier::external_body]
pub struct ExError(gix::Error);

/// What a reference points at, as read from the repository.
#[derive(Clone, Debug, PartialEq, Eq)]
pub enum RefTarget {
    /// A direct reference to an object.
    Object,
    /// A symbolic reference: the full name of the reference it points to,
    /// as the bytes stored in the repository.
    Symbolic(Vec<u8>),
}

/// Relies on `gix::discover`: opens the repository at `path` or at the
/// nearest directory above it. What it finds depends on the disk, so
/// nothing is promised of the outcome.
#[verifier::external_body]
pub(crate) fn discover(path: &str) -> (r: Result<gix::Repository, gix::Error>) {
    gix::discover(path)
}

/// Relies on `gix::Repository::find_reference`, `Reference::target`,
/// `TargetRef::try_name` and `FullNameRef::as_bstr`: looks the reference
/// `name` up without following it, and reports whether it is symbolic and,
/// if so, the name it points to. `None` where the lookup failed. What it
/// finds depends on the disk, so nothing is promised of the outcome.
#[verifier::external_body]
pub(crate) fn find_reference(repo: &gix::Repository, name: &str) -> (r: Option<RefTarget>) {
    match repo.find_reference(name) {
        Ok(reference) => Some(
            match reference.target().try_name() {
                Some(full) => RefTarget::Symbolic(full.as_bstr().to_vec()),
                None => RefTarget::Object,
            },
        ),
        Err(_) => None,
    }
}

/// Relies on bstr's `ByteSlice::to_str`: succeeds exactly on valid UTF-8,
/// and then gives the text that the bytes encode.
#[verifier::external_body]
pub(crate) fn utf8_text(bytes: &[u8]) -> (r: Option<&str>)
    ensures
        r is Some <==> valid_utf8(bytes@),
        r matches Some(text) ==> text@ == decode_utf8(bytes@),
{
    match bytes.to_str() {
        Ok(text) => Some(text),
        Err(_) => None,
    }
}

} // verus!
