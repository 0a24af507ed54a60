//! Sets of document types.

use crate::api::{DocumentType, DOCUMENT_TYPE_COUNT};
use std::collections::BTreeSet;
use vstd::prelude::*;

verus! {

/// A set of document types, kept in the order of their declaration.
///
/// The set stores the position of each member, so that two sets with the
/// same members are equal and hash alike.
#[derive(Debug, PartialEq, Eq, Hash)]
pub struct DocumentTypeSet {
    ordinals: BTreeSet<u8>,
}

impl View for DocumentTypeSet {
    type V = Set<DocumentType>;

    closed spec fn view(&self) -> Set<DocumentType> {
        Set::new(|t: DocumentType| self.ordinals@.contains(t.ordinal()))
    }
}

impl Clone for DocumentTypeSet {
    fn clone(&self) -> (copy: DocumentTypeSet)
        ensures
            copy@ == self@,
    {
        proof {
            use_type_invariant(self);
        }
        DocumentTypeSet { ordinals: self.ordinals.clone() }
    }
}

impl DocumentTypeSet {
    #[verifier::type_invariant]
    spec fn in_range(self) -> bool {
        forall|k: u8| self.ordinals@.contains(k) ==> k < DOCUMENT_TYPE_COUNT
    }

    /// The empty set.
    pub fn new() -> (set: DocumentTypeSet)
        ensures
            set@ == Set::<DocumentType>::empty(),
    {
        DocumentTypeSet { ordinals: BTreeSet::new() }
    }

    /// Whether `t` is a member.
    pub fn contains(&self, t: DocumentType) -> (found: bool)
        ensures
            found == self@.contains(t),
    {
        let k: u8 = t.position();
        self.ordinals.contains(&k)
    }

    /// Adds `t` to the set, and says whether it was new.
    pub fn insert(&mut self, t: DocumentType) -> (added: bool)
        ensures
            final(self)@ == old(self)@.insert(t),
            added == !old(self)@.contains(t),
    {
        let k: u8 = t.position();
        let mut taken = DocumentTypeSet::new();
        std::mem::swap(self, &mut taken);
        proof {
            use_type_invariant(&taken);
        }
        let DocumentTypeSet { ordinals: mut ordinals } = taken;
        let added = ordinals.insert(k);
        *self = DocumentTypeSet { ordinals };
        proof {
            assert forall|u: DocumentType| final(self)@.contains(u) == old(self)@.insert(
                t,
            ).contains(u) by {
                u.lemma_ordinal_round_trip();
                t.lemma_ordinal_round_trip();
            }
        }
        added
    }

    /// Whether the set has no member.
    pub fn is_empty(&self) -> (empty: bool)
        ensures
            empty == (self@ == Set::<DocumentType>::empty()),
    {
        proof {
            use_type_invariant(self);
            if !self.ordinals@.is_empty() {
                let k = choose|k: u8| self.ordinals@.contains(k);
                DocumentType::lemma_at_round_trip(k);
                assert(self@.contains(DocumentType::at(k).unwrap()));
            } else {
                assert(self@ =~= Set::<DocumentType>::empty());
            }
        }
        self.ordinals.is_empty()
    }

    /// The members, in the order of their declaration.
    pub fn to_vec(&self) -> (members: Vec<DocumentType>)
        ensures
            forall|t: DocumentType| members@.contains(t) <==> self@.contains(t),
            forall|i: int, j: int|
                0 <= i < j < members@.len() ==> members@[i].ordinal() < members@[j].ordinal(),
    {
        let mut members: Vec<DocumentType> = Vec::new();
        let mut k: u8 = 0;
        while k < DOCUMENT_TYPE_COUNT
            invariant
                k <= DOCUMENT_TYPE_COUNT,
                forall|i: int| 0 <= i < members@.len() ==> members@[i].ordinal() < k && self@.contains(
                    members@[i]),
                forall|t: DocumentType|
                    self@.contains(t) && t.ordinal() < k ==> members@.contains(t),
                forall|i: int, j: int|
                    0 <= i < j < members@.len() ==> members@[i].ordinal() < members@[j].ordinal(),
            decreases DOCUMENT_TYPE_COUNT - k,
        {
            let ghost before = members@;
            if self.ordinals.contains(&k) {
                proof {
                    DocumentType::lemma_at_round_trip(k);
                }
                match DocumentType::from_position(k) {
                    Some(t) => {
                        members.push(t);
                        proof {
                            assert(members@[before.len() as int] == t);
                            assert forall|u: DocumentType|
                                self@.contains(u) && u.ordinal() < k + 1 implies members@.contains(
                                u,
                            ) by {
                                if u.ordinal() < k {
                                    let i = choose|i: int| 0 <= i < before.len() && before[i] == u;
                                    assert(members@[i] == u);
                                } else {
                                    u.lemma_ordinal_round_trip();
                                    assert(u == t);
                                }
                            }
                        }
                    },
                    None => {},
                }
            } else {
                proof {
                    assert forall|u: DocumentType|
                        self@.contains(u) && u.ordinal() < k + 1 implies members@.contains(u) by {
                        assert(u.ordinal() != k);
                    }
                }
            }
            k = k + 1;
        }
        proof {
            assert forall|t: DocumentType| members@.contains(t) <==> self@.contains(t) by {
                t.lemma_ordinal_round_trip();
                if members@.contains(t) {
                    let i = choose|i: int| 0 <= i < members@.len() && members@[i] == t;
                    assert(self@.contains(members@[i]));
                }
            }
        }
        members
    }

    /// The set of the document types in `types`.
    pub fn from_slice(types: &[DocumentType]) -> (set: DocumentTypeSet)
        ensures
            forall|t: DocumentType| set@.contains(t) <==> types@.contains(t),
    {
        let mut set = DocumentTypeSet::new();
        let n: usize = types.len();
        let mut i: usize = 0;
        while i < n
            invariant
                n == types@.len(),
                i <= n,
                forall|t: DocumentType| set@.contains(t) <==> types@.take(i as int).contains(t),
            decreases n - i,
        {
            let ghost before = set@;
            set.insert(types[i]);
            proof {
                let done = types@.take(i as int);
                let next = types@.take(i + 1);
                assert(next =~= done.push(types@[i as int]));
                assert forall|t: DocumentType| set@.contains(t) <==> next.contains(t) by {
                    if next.contains(t) {
                        let j = choose|j: int| 0 <= j < next.len() && next[j] == t;
                        if j < i {
                            assert(done[j] == t);
                        }
                    }
                    if done.contains(t) {
                        let j = choose|j: int| 0 <= j < done.len() && done[j] == t;
                        assert(next[j] == t);
                    }
                    assert(next[i as int] == types@[i as int]);
                }
            }
            i = i + 1;
        }
        assert(types@.take(n as int) =~= types@);
        set
    }

    /// The members that `self` and `other` have in common.
    pub fn intersection(&self, other: &DocumentTypeSet) -> (common: DocumentTypeSet)
        ensures
            common@ == self@.intersect(other@),
    {
        let mut ordinals: BTreeSet<u8> = BTreeSet::new();
        let mut k: u8 = 0;
        while k < DOCUMENT_TYPE_COUNT
            invariant
                k <= DOCUMENT_TYPE_COUNT,
                forall|j: u8|
                    ordinals@.contains(j) <==> j < k && self.ordinals@.contains(j)
                        && other.ordinals@.contains(j),
            decreases DOCUMENT_TYPE_COUNT - k,
        {
            if self.ordinals.contains(&k) && other.ordinals.contains(&k) {
                ordinals.insert(k);
            }
            k = k + 1;
        }
        let common = DocumentTypeSet { ordinals };
        proof {
            assert forall|t: DocumentType| common@.contains(t) == self@.intersect(other@).contains(
                t,
            ) by {
                t.lemma_ordinal_round_trip();
            }
        }
        common
    }
}

} // verus!
