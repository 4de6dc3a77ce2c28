//! The calls into git2 that the handles rely on, and the git2 types that
//! they carry. Verus takes the contracts below on trust.
use vstd::prelude::*;

verus! {

#[verifier::external_type_specification]
#[verifier::external_body]
pub struct ExOid(git2::Oid);

#[verifier::external_type_specification]
#[verifier::external_body]
pub struct ExError(git2::Error);

#[verifier::external_type_specification]
#[verifier::external_body]
pub struct ExReference<'repo>(git2::Reference<'repo>);

#[verifier::external_type_specification]
#[verifier::external_body]
pub struct ExCommit<'repo>(git2::Commit<'repo>);

#[verifier::external_type_specification]
#[verifier::external_body]
pub struct ExTree<'repo>(git2::Tree<'repo>);

/// The raw bytes of an object id, as `git2::Oid::as_bytes` gives them.
pub uninterp spec fn oid_bytes_of(oid: git2::Oid) -> Seq<u8>;

/// The libgit2 error code of a failure, as `git2::Error::raw_code` gives it.
pub uninterp spec fn error_code_of(error: git2::Error) -> i32;

/// The full name of a reference, as `git2::Reference::name_bytes` gives it.
pub uninterp spec fn reference_name_of(reference: git2::Reference) -> Seq<u8>;

/// The raw bytes of the id that a reference points at directly, as
/// `git2::Reference::target` gives it; `None` for a symbolic reference.
pub uninterp spec fn reference_target_of(reference: git2::Reference) -> Option<Seq<u8>>;

/// The raw bytes of a commit's id, as `git2::Commit::id` gives it.
pub uninterp spec fn commit_id_of(commit: git2::Commit) -> Seq<u8>;

/// The raw bytes of the id of a commit's tree, as `git2::Commit::tree_id`
/// gives it.
pub uninterp spec fn commit_tree_id_of(commit: git2::Commit) -> Seq<u8>;

/// The raw bytes of a tree's id, as `git2::Tree::id` gives it.
pub uninterp spec fn tree_id_of(tree: git2::Tree) -> Seq<u8>;

/// Relies on `git2::Oid::as_bytes`: the raw bytes of an object id, 20 of
/// them for the SHA-1 ids that this build of git2 uses.
#[verifier::external_body]
pub(crate) fn oid_bytes(oid: &git2::Oid) -> (r: Vec<u8>)
    ensures
        r@ == oid_bytes_of(*oid),
        r@.len() == 20,
{
    oid.as_bytes().to_vec()
}

/// Relies on `git2::Error::raw_code`: the libgit2 error code of a failure.
#[verifier::external_body]
pub(crate) fn error_code(error: &git2::Error) -> (r: i32)
    ensures
        r == error_code_of(*error),
{
    error.raw_code()
}

/// Relies on `git2::Reference::name_bytes`: the full name of a reference,
/// as the store holds it.
#[verifier::external_body]
pub(crate) fn reference_name_bytes(reference: &git2::Reference) -> (r: Vec<u8>)
    ensures
        r@ == reference_name_of(*reference),
{
    reference.name_bytes().to_vec()
}

/// Relies on `git2::Reference::target` and `git2::Oid::as_bytes`: the raw
/// bytes of the id that a direct reference points at, 20 of them; `None`
/// for a symbolic reference.
#[verifier::external_body]
pub(crate) fn reference_target(reference: &git2::Reference) -> (r: Option<Vec<u8>>)
    ensures
        match r {
            Some(v) => reference_target_of(*reference) == Some(v@) && v@.len() == 20,
            None => reference_target_of(*reference) is None,
        },
{
    match reference.target() {
        Some(oid) => Some(oid.as_bytes().to_vec()),
        None => None,
    }
}

/// Relies on `git2::Reference::peel_to_commit`: follows the reference and
/// any tags until a commit is reached, or reports the store's error.
#[verifier::external_body]
pub(crate) fn reference_peel_to_commit<'repo>(
    reference: &git2::Reference<'repo>,
) -> Result<git2::Commit<'repo>, git2::Error> {
    reference.peel_to_commit()
}

/// Relies on `git2::Reference::peel_to_tree`: follows the reference, any
/// tags and a commit until a tree is reached, or reports the store's error.
#[verifier::external_body]
pub(crate) fn reference_peel_to_tree<'repo>(
    reference: &git2::Reference<'repo>,
) -> Result<git2::Tree<'repo>, git2::Error> {
    reference.peel_to_tree()
}

/// Relies on `git2::Commit::id` and `git2::Oid::as_bytes`: the raw bytes
/// of a commit's id, 20 of them.
#[verifier::external_body]
pub(crate) fn commit_id(commit: &git2::Commit) -> (r: Vec<u8>)
    ensures
        r@ == commit_id_of(*commit),
        r@.len() == 20,
{
    commit.id().as_bytes().to_vec()
}

/// Relies on `git2::Commit::tree_id` and `git2::Oid::as_bytes`: the raw
/// bytes of the id of the tree that a commit records, 20 of them.
#[verifier::external_body]
pub(crate) fn commit_tree_id(commit: &git2::Commit) -> (r: Vec<u8>)
    ensures
        r@ == commit_tree_id_of(*commit),
        r@.len() == 20,
{
    commit.tree_id().as_bytes().to_vec()
}

/// Relies on `git2::Tree::id` and `git2::Oid::as_bytes`: the raw bytes of
/// a tree's id, 20 of them.
#[verifier::external_body]
pub(crate) fn tree_id(tree: &git2::Tree) -> (r: Vec<u8>)
    ensures
        r@ == tree_id_of(*tree),
        r@.len() == 20,
{
    tree.id().as_bytes().to_vec()
}

/// Relies on `std::str::from_utf8`: the bytes read as text when they are
/// valid UTF-8, `None` otherwise.
#[verifier::external_body]
pub(crate) fn utf8_text(bytes: &[u8]) -> (r: Option<&str>)
    ensures
        r is Some <==> vstd::utf8::valid_utf8(bytes@),
        r matches Some(s) ==> vstd::utf8::encode_utf8(s@) == bytes@,
{
    std::str::from_utf8(bytes).ok()
}

} // verus!
