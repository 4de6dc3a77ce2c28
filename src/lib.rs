//! Read-only handles over the references, commits and trees of a git
//! repository.
//!
//! Every handle borrows the repository it came from. The values that the
//! handles report (names and object ids) are taken from the repository when
//! the handle is made and are modelled as plain byte sequences.
mod object_id;
mod objects;
mod reference;
mod store;

pub use object_id::ObjectId;
pub use objects::{
    resolved_commit, resolved_tree, CommitHandle, ResolutionError, TreeHandle,
    INVALID_SPEC_CODE, NOT_FOUND_CODE, PEEL_CODE,
};
pub use reference::{
    lemma_invalid_name_absent, lemma_text_name_reported, name_text, ReferenceHandle,
};
