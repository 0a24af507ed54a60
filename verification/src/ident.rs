//! Identifiers of baskets, profiles, checks, recipients and document requests.

use vstd::prelude::*;

verus! {

/// A 128-bit identifier. Two identifiers name the same thing exactly when
/// their values are equal.
#[derive(Clone, Copy, Debug, PartialEq, Eq, Structural, Hash, PartialOrd, Ord)]
pub struct Id(pub u128);

impl Id {
    /// The identifier whose value is zero.
    pub fn nil() -> (id: Id)
        ensures
            id == Id(0),
    {
        Id(0)
    }

    /// Whether `self` and `other` name the same thing.
    pub fn same_as(&self, other: &Id) -> (same: bool)
        ensures
            same == (*self == *other),
    {
        self.0 == other.0
    }
}

impl Default for Id {
    fn default() -> (id: Id)
        ensures
            id == Id(0),
    {
        Id(0)
    }
}

} // verus!
