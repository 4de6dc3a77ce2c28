//! A handle on a named reference of the store: a branch, a tag, or a
//! symbolic reference such as `HEAD`.
use vstd::prelude::*;
use vstd::utf8::{decode_utf8, encode_utf8, encode_utf8_decode_utf8, encode_utf8_valid_utf8, valid_utf8};

use crate::object_id::ObjectId;
use crate::objects::{resolved_commit, resolved_tree, CommitHandle, ResolutionError, TreeHandle};
use crate::store::{
    commit_id_of, commit_tree_id_of, reference_name_bytes, reference_name_of,
    reference_peel_to_commit, reference_peel_to_tree, reference_target, reference_target_of,
    tree_id_of, utf8_text,
};

verus! {

/// The name that a reference reports for the given raw name: its text when
/// the bytes are valid UTF-8, nothing otherwise.
pub open spec fn name_text(bytes: Seq<u8>) -> Option<Seq<char>> {
    if valid_utf8(bytes) {
        Some(decode_utf8(bytes))
    } else {
        None
    }
}

/// A named pointer into the store, borrowed from the repository that it
/// was read from. Its name and its direct target are read once, when the
/// handle is made.
pub struct ReferenceHandle<'repo> {
    reference: git2::Reference<'repo>,
    name: Vec<u8>,
    target: Option<ObjectId>,
}

impl<'repo> ReferenceHandle<'repo> {
    /// The reference's full name, as raw bytes.
    pub closed spec fn spec_name_bytes(&self) -> Seq<u8> {
        self.name@
    }

    /// The id that the reference points at directly, `None` when it is
    /// symbolic.
    pub closed spec fn spec_target(&self) -> Option<Seq<u8>> {
        match self.target {
            Some(id) => Some(id@),
            None => None,
        }
    }

    /// The store's reference value.
    pub closed spec fn spec_inner(&self) -> git2::Reference<'repo> {
        self.reference
    }

    /// The name that `name` reports.
    pub open spec fn spec_name(&self) -> Option<Seq<char>> {
        name_text(self.spec_name_bytes())
    }

    /// The name and target are the store's for the wrapped reference, and a
    /// direct target is a well-formed id.
    pub open spec fn wf(&self) -> bool {
        &&& self.spec_name_bytes() == reference_name_of(self.spec_inner())
        &&& self.spec_target() == reference_target_of(self.spec_inner())
        &&& self.spec_target() matches Some(id) ==> id.len() == 20
    }

    /// Wraps a reference of the store, reading its name and direct target.
    pub fn from_store(reference: git2::Reference<'repo>) -> (r: ReferenceHandle<'repo>)
        ensures
            r.wf(),
            r.spec_inner() == reference,
            r.spec_name_bytes() == reference_name_of(reference),
            r.spec_target() == reference_target_of(reference),
    {
        let name = reference_name_bytes(&reference);
        let target = match reference_target(&reference) {
            Some(bytes) => Some(ObjectId::from_vec(bytes)),
            None => None,
        };
        ReferenceHandle { reference, name, target }
    }

    /// The reference's full name (such as `refs/heads/main`) when it is
    /// valid UTF-8; `None` otherwise.
    pub fn name(&self) -> (r: Option<&str>)
        ensures
            r is Some <==> valid_utf8(self.spec_name_bytes()),
            r matches Some(s) ==> encode_utf8(s@) == self.spec_name_bytes(),
            r matches Some(s) ==> self.spec_name() == Some(s@),
            r is None ==> self.spec_name() is None,
    {
        let r = utf8_text(self.name.as_slice());
        proof {
            broadcast use vstd::utf8::decode_utf8_encode_utf8, encode_utf8_decode_utf8;

            if let Some(s) = r {
                assert(decode_utf8(encode_utf8(s@)) == s@);
            }
        }
        r
    }

    /// The reference's full name as raw bytes, whatever they hold.
    pub fn name_bytes(&self) -> (r: &[u8])
        ensures
            r@ == self.spec_name_bytes(),
    {
        self.name.as_slice()
    }

    /// The id that a direct reference points at; `None` for a symbolic
    /// reference.
    pub fn target(&self) -> (r: Option<ObjectId>)
        ensures
            r is Some <==> self.spec_target() is Some,
            r matches Some(id) ==> self.spec_target() == Some(id@),
    {
        match &self.target {
            Some(id) => Some(id.duplicate()),
            None => None,
        }
    }

    /// Follows the reference, and any tags on the way, to a commit; the
    /// store's error when no commit is reached.
    pub fn peel_to_commit(&self) -> (r: Result<CommitHandle<'repo>, ResolutionError>)
        ensures
            r matches Ok(c) ==> c.wf() && c.spec_id() == commit_id_of(c.spec_inner())
                && c.spec_tree_id() == commit_tree_id_of(c.spec_inner()),
    {
        resolved_commit(reference_peel_to_commit(&self.reference))
    }

    /// Follows the reference, any tags and a commit on the way, to a tree;
    /// the store's error when no tree is reached.
    pub fn peel_to_tree(&self) -> (r: Result<TreeHandle<'repo>, ResolutionError>)
        ensures
            r matches Ok(t) ==> t.wf() && t.spec_id() == tree_id_of(t.spec_inner()),
    {
        resolved_tree(reference_peel_to_tree(&self.reference))
    }

    /// The store's reference value.
    pub fn as_store(&self) -> (r: &git2::Reference<'repo>)
        ensures
            *r == self.spec_inner(),
    {
        &self.reference
    }
}

impl<'repo> From<git2::Reference<'repo>> for ReferenceHandle<'repo> {
    fn from(reference: git2::Reference<'repo>) -> ReferenceHandle<'repo> {
        ReferenceHandle::from_store(reference)
    }
}

impl<'repo> vstd::std_specs::convert::FromSpecImpl<git2::Reference<'repo>> for ReferenceHandle<'repo> {
    /// What a handle reports is read from the store when it is made, so no
    /// spec function of the store value gives it.
    open spec fn obeys_from_spec() -> bool {
        false
    }

    open spec fn from_spec(v: git2::Reference<'repo>) -> ReferenceHandle<'repo> {
        vstd::pervasive::arbitrary()
    }
}

/// A handle on a reference whose name in the store is the text `text`
/// reports exactly that text as its name.
pub proof fn lemma_text_name_reported(handle: ReferenceHandle, text: Seq<char>)
    requires
        handle.wf(),
        reference_name_of(handle.spec_inner()) == encode_utf8(text),
    ensures
        handle.spec_name() == Some(text),
{
    encode_utf8_valid_utf8(text);
    encode_utf8_decode_utf8(text);
}

/// A handle on a reference whose name in the store is not valid UTF-8
/// reports no name.
pub proof fn lemma_invalid_name_absent(handle: ReferenceHandle)
    requires
        handle.wf(),
        !valid_utf8(reference_name_of(handle.spec_inner())),
    ensures
        handle.spec_name() is None,
{
}

} // verus!
