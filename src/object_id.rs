//! Object ids as plain byte sequences.
use vstd::prelude::*;

use crate::store::{oid_bytes, oid_bytes_of};

verus! {

/// Copies the bytes of `src` into a new vector.
fn copy_bytes(src: &[u8]) -> (r: Vec<u8>)
    ensures
        r@ == src@,
{
    let mut r: Vec<u8> = Vec::new();
    let mut i: usize = 0;
    while i < src.len()
        invariant
            i <= src@.len(),
            r@ == src@.subrange(0, i as int),
        decreases src@.len() - i,
    {
        r.push(src[i]);
        i = i + 1;
        assert(r@ =~= src@.subrange(0, i as int));
    }
    assert(r@ =~= src@);
    r
}

/// The content-derived identifier of an object in the store.
pub struct ObjectId {
    bytes: Vec<u8>,
}

impl View for ObjectId {
    type V = Seq<u8>;

    closed spec fn view(&self) -> Seq<u8> {
        self.bytes@
    }
}

impl ObjectId {
    /// Well-formed ids hold exactly 20 bytes.
    pub open spec fn wf(&self) -> bool {
        self@.len() == 20
    }

    /// Makes an id from its 20 raw bytes; `None` for any other length.
    pub fn from_bytes(bytes: &[u8]) -> (r: Option<ObjectId>)
        ensures
            r is Some <==> bytes@.len() == 20,
            r matches Some(id) ==> id@ == bytes@ && id.wf(),
    {
        if bytes.len() == 20 {
            Some(ObjectId { bytes: copy_bytes(bytes) })
        } else {
            None
        }
    }

    /// Keeps the given bytes as an id.
    pub(crate) fn from_vec(bytes: Vec<u8>) -> (r: ObjectId)
        ensures
            r@ == bytes@,
    {
        ObjectId { bytes }
    }

    /// Takes the raw bytes of a store's object id.
    pub fn from_oid(oid: &git2::Oid) -> (r: ObjectId)
        ensures
            r.wf(),
            r@ == oid_bytes_of(*oid),
    {
        ObjectId { bytes: oid_bytes(oid) }
    }

    /// The raw bytes of the id.
    pub fn as_bytes(&self) -> (r: &[u8])
        ensures
            r@ == self@,
    {
        self.bytes.as_slice()
    }

    /// A second id equal to this one.
    pub fn duplicate(&self) -> (r: ObjectId)
        ensures
            r@ == self@,
    {
        ObjectId { bytes: copy_bytes(self.bytes.as_slice()) }
    }

    /// Whether two ids name the same object.
    pub fn same_as(&self, other: &ObjectId) -> (r: bool)
        ensures
            r == (self@ == other@),
    {
        if self.bytes.len() != other.bytes.len() {
            return false;
        }
        let mut i: usize = 0;
        while i < self.bytes.len()
            invariant
                self@.len() == other@.len(),
                i <= self@.len(),
                forall|j: int| 0 <= j < i ==> self@[j] == other@[j],
            decreases self@.len() - i,
        {
            if self.bytes[i] != other.bytes[i] {
                return false;
            }
            i = i + 1;
        }
        assert(self@ =~= other@);
        true
    }
}

} // verus!
