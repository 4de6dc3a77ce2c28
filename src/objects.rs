//! The commits and trees that a reference peels to, and the error that
//! peeling reports.
use vstd::prelude::*;

use crate::object_id::ObjectId;
use crate::store::{
    commit_id, commit_id_of, commit_tree_id, commit_tree_id_of, error_code, error_code_of, tree_id,
    tree_id_of,
};

verus! {

/// libgit2's code for an object that the store does not hold.
pub const NOT_FOUND_CODE: i32 = -3;

/// libgit2's code for an object that can never be peeled to the requested
/// kind (a blob or a tree asked to become a commit).
pub const INVALID_SPEC_CODE: i32 = -12;

/// libgit2's code for a peel that ends on an object of another kind.
pub const PEEL_CODE: i32 = -19;

/// A failure of the store while resolving a reference, kept as the store
/// reported it.
pub struct ResolutionError {
    code: i32,
    source: git2::Error,
}

impl ResolutionError {
    /// The libgit2 error code of the failure.
    pub closed spec fn spec_code(&self) -> i32 {
        self.code
    }

    /// The store's own error value.
    pub closed spec fn spec_source(&self) -> git2::Error {
        self.source
    }

    /// Keeps the store's error together with its code.
    pub fn from_store(source: git2::Error) -> (r: ResolutionError)
        ensures
            r.spec_source() == source,
            r.spec_code() == error_code_of(source),
    {
        let code = error_code(&source);
        ResolutionError { code, source }
    }

    /// The libgit2 error code of the failure.
    pub fn code(&self) -> (r: i32)
        ensures
            r == self.spec_code(),
    {
        self.code
    }

    /// Whether the store found no object to resolve to.
    pub fn is_not_found(&self) -> (r: bool)
        ensures
            r == (self.spec_code() == NOT_FOUND_CODE),
    {
        self.code == NOT_FOUND_CODE
    }

    /// Whether the object reached is of a kind that cannot be peeled to
    /// the requested one.
    pub fn is_wrong_kind(&self) -> (r: bool)
        ensures
            r == (self.spec_code() == INVALID_SPEC_CODE || self.spec_code() == PEEL_CODE),
    {
        self.code == INVALID_SPEC_CODE || self.code == PEEL_CODE
    }

    /// The store's own error value.
    pub fn into_source(self) -> (r: git2::Error)
        ensures
            r == self.spec_source(),
    {
        self.source
    }
}

/// A commit of the store, with its id and the id of its tree.
pub struct CommitHandle<'repo> {
    commit: git2::Commit<'repo>,
    id: ObjectId,
    tree_id: ObjectId,
}

impl<'repo> CommitHandle<'repo> {
    /// The commit's id.
    pub closed spec fn spec_id(&self) -> Seq<u8> {
        self.id@
    }

    /// The id of the commit's tree.
    pub closed spec fn spec_tree_id(&self) -> Seq<u8> {
        self.tree_id@
    }

    /// The store's commit value.
    pub closed spec fn spec_inner(&self) -> git2::Commit<'repo> {
        self.commit
    }

    /// Both ids are the store's ids for the wrapped commit, and well formed.
    pub open spec fn wf(&self) -> bool {
        &&& self.spec_id() == commit_id_of(self.spec_inner())
        &&& self.spec_tree_id() == commit_tree_id_of(self.spec_inner())
        &&& self.spec_id().len() == 20
        &&& self.spec_tree_id().len() == 20
    }

    /// Wraps a commit of the store, reading its two ids.
    pub fn from_store(commit: git2::Commit<'repo>) -> (r: CommitHandle<'repo>)
        ensures
            r.wf(),
            r.spec_inner() == commit,
            r.spec_id() == commit_id_of(commit),
            r.spec_tree_id() == commit_tree_id_of(commit),
    {
        let id = ObjectId::from_vec(commit_id(&commit));
        let tree_id = ObjectId::from_vec(commit_tree_id(&commit));
        CommitHandle { commit, id, tree_id }
    }

    /// The commit's id.
    pub fn id(&self) -> (r: ObjectId)
        ensures
            r@ == self.spec_id(),
    {
        self.id.duplicate()
    }

    /// The id of the tree that the commit records.
    pub fn tree_id(&self) -> (r: ObjectId)
        ensures
            r@ == self.spec_tree_id(),
    {
        self.tree_id.duplicate()
    }

    /// The store's commit value.
    pub fn as_store(&self) -> (r: &git2::Commit<'repo>)
        ensures
            *r == self.spec_inner(),
    {
        &self.commit
    }
}

/// A tree of the store, with its id.
pub struct TreeHandle<'repo> {
    tree: git2::Tree<'repo>,
    id: ObjectId,
}

impl<'repo> TreeHandle<'repo> {
    /// The tree's id.
    pub closed spec fn spec_id(&self) -> Seq<u8> {
        self.id@
    }

    /// The store's tree value.
    pub closed spec fn spec_inner(&self) -> git2::Tree<'repo> {
        self.tree
    }

    /// The id is the store's id for the wrapped tree, and well formed.
    pub open spec fn wf(&self) -> bool {
        &&& self.spec_id() == tree_id_of(self.spec_inner())
        &&& self.spec_id().len() == 20
    }

    /// Wraps a tree of the store, reading its id.
    pub fn from_store(tree: git2::Tree<'repo>) -> (r: TreeHandle<'repo>)
        ensures
            r.wf(),
            r.spec_inner() == tree,
            r.spec_id() == tree_id_of(tree),
    {
        let id = ObjectId::from_vec(tree_id(&tree));
        TreeHandle { tree, id }
    }

    /// The tree's id.
    pub fn id(&self) -> (r: ObjectId)
        ensures
            r@ == self.spec_id(),
    {
        self.id.duplicate()
    }

    /// The store's tree value.
    pub fn as_store(&self) -> (r: &git2::Tree<'repo>)
        ensures
            *r == self.spec_inner(),
    {
        &self.tree
    }
}

/// Turns the store's answer to a commit peel into a handle or an error,
/// keeping whichever the store gave.
pub fn resolved_commit<'repo>(peeled: Result<git2::Commit<'repo>, git2::Error>) -> (r: Result<
    CommitHandle<'repo>,
    ResolutionError,
>)
    ensures
        r is Ok <==> peeled is Ok,
        r matches Ok(c) ==> c.wf() && (peeled matches Ok(p) && c.spec_inner() == p
            && c.spec_id() == commit_id_of(p) && c.spec_tree_id() == commit_tree_id_of(p)),
        r matches Err(e) ==> (peeled matches Err(p) && e.spec_source() == p
            && e.spec_code() == error_code_of(p)),
{
    match peeled {
        Ok(commit) => Ok(CommitHandle::from_store(commit)),
        Err(error) => Err(ResolutionError::from_store(error)),
    }
}

/// Turns the store's answer to a tree peel into a handle or an error,
/// keeping whichever the store gave.
pub fn resolved_tree<'repo>(peeled: Result<git2::Tree<'repo>, git2::Error>) -> (r: Result<
    TreeHandle<'repo>,
    ResolutionError,
>)
    ensures
        r is Ok <==> peeled is Ok,
        r matches Ok(t) ==> t.wf() && (peeled matches Ok(p) && t.spec_inner() == p
            && t.spec_id() == tree_id_of(p)),
        r matches Err(e) ==> (peeled matches Err(p) && e.spec_source() == p
            && e.spec_code() == error_code_of(p)),
{
    match peeled {
        Ok(tree) => Ok(TreeHandle::from_store(tree)),
        Err(error) => Err(ResolutionError::from_store(error)),
    }
}

} // verus!
