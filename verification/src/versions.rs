//! Versions of a stored document, and the chain of upgrades between them.

use vstd::prelude::*;

verus! {

/// Why a version could not be upgraded.
#[derive(Debug, Clone, Copy, PartialEq, Eq, Structural)]
pub enum UpgradeError {
    /// The value is of the latest version already: there is no next one.
    AlreadyLatest,
}

/// One version of a document in a chain of versions.
///
/// Every version but the latest names the next version as its `Target` and
/// says how a value is carried over to it. The latest version is its own
/// `Target`. `Wrapper` is the type that the rest of the program works with:
/// it holds a value of the latest version.
pub trait Upgrade: Sized {
    type Wrapper;

    type Target;

    /// Whether this is the latest version of its chain.
    spec fn is_latest() -> bool;

    /// The value carried over to the next version.
    spec fn upgraded(self) -> Self::Target;

    /// The value carried over to the latest version, and wrapped.
    spec fn fully_upgraded(self) -> Self::Wrapper;

    /// Carries the value over to the next version. The latest version has
    /// none, and says so.
    fn upgrade(self) -> (next: Result<Self::Target, UpgradeError>)
        ensures
            Self::is_latest() ==> next == Err::<Self::Target, UpgradeError>(
                UpgradeError::AlreadyLatest,
            ),
            !Self::is_latest() ==> next == Ok::<Self::Target, UpgradeError>(self.upgraded()),
    ;

    /// Carries the value over to the latest version, and wraps it.
    fn upgrade_full(self) -> (latest: Self::Wrapper)
        ensures
            latest == self.fully_upgraded(),
    ;
}

/// A version that has a successor in the same chain.
pub trait UpgradeStep: Upgrade where Self::Target: Upgrade<Wrapper = Self::Wrapper> {
    /// A version with a successor is not the latest.
    proof fn lemma_has_successor()
        ensures
            !Self::is_latest(),
    ;

    /// The full upgrade of a value is the full upgrade of what one upgrade
    /// makes of it.
    proof fn lemma_full_upgrade_is_chain(self)
        ensures
            self.fully_upgraded() == self.upgraded().fully_upgraded(),
    ;
}

/// Upgrades `value` once, and what that gives all the way: the full upgrade
/// of any version that has a successor.
pub fn upgrade_through<V>(value: V) -> (latest: V::Wrapper) where
    V: UpgradeStep,
    V::Target: Upgrade<Wrapper = V::Wrapper>,

    ensures
        latest == value.fully_upgraded(),
{
    proof {
        V::lemma_has_successor();
        value.lemma_full_upgrade_is_chain();
    }
    match value.upgrade() {
        Ok(next) => next.upgrade_full(),
        Err(_) => vstd::pervasive::unreached(),
    }
}

} // verus!
