//! The contents of a basket: profiles with their checks, the recipients that
//! can be asked for information, and the communications sent to them.

use crate::api::{CheckType, CollectionStep, DatePrecision, StepModel, TaskType};
use crate::ident::Id;
use crate::merge::{
    covers, deduplicated, lemma_merge_all_concat, lemma_merge_all_covers_every_step,
    lemma_merge_all_keeps_deduplicated, merge_all, merged_all, models,
};
use crate::versions::{Upgrade, UpgradeError};
use vstd::prelude::*;

verus! {

/// A request to run one check in service of a task.
#[derive(Debug, Clone, Copy, PartialEq, Eq, Structural)]
pub struct Check {
    pub id: Id,
    pub task: TaskType,
    pub check: CheckType,
}

/// The answer to a check for which no collection steps are defined.
#[derive(Debug, Clone, Copy, PartialEq, Eq, Structural)]
pub struct UnsupportedCheck {
    /// The type of the check that could not be served.
    pub check: CheckType,
}

impl CheckType {
    /// The steps that a check of this type implies, where any are defined.
    pub open spec fn implied_steps(self) -> Option<Seq<StepModel>> {
        match self {
            CheckType::IdentityCheck => Some(
                seq![
                    StepModel::FullName,
                    StepModel::Dob { precision: DatePrecision::YearMonthDay },
                    StepModel::AddressHistory { months: 0 },
                ],
            ),
            CheckType::PepsAndSanctionsScreen | CheckType::PepsScreen | CheckType::SanctionsScreen => Some(
                seq![
                    StepModel::FullName,
                    StepModel::Dob { precision: DatePrecision::YearMonthDay },
                    StepModel::Nationality,
                ],
            ),
            CheckType::DocumentVerification => Some(seq![StepModel::Nationality]),
            _ => None,
        }
    }
}

impl Check {
    /// The collection steps that this check implies. A check of a type for
    /// which none are defined is refused; it never yields an empty list.
    pub fn calculate_collection_steps(&self) -> (result: Result<Vec<CollectionStep>, UnsupportedCheck>)
        ensures
            match result {
                Ok(steps) => self.check.implied_steps() == Some(models(steps@)),
                Err(e) => self.check.implied_steps() is None && e.check == self.check,
            },
    {
        let mut steps: Vec<CollectionStep> = Vec::new();
        match self.check {
            CheckType::IdentityCheck => {
                steps.push(CollectionStep::FullName {  });
                steps.push(CollectionStep::Dob { precision: DatePrecision::YearMonthDay });
                steps.push(CollectionStep::AddressHistory { months: 0 });
            },
            CheckType::PepsAndSanctionsScreen | CheckType::PepsScreen | CheckType::SanctionsScreen => {
                steps.push(CollectionStep::FullName {  });
                steps.push(CollectionStep::Dob { precision: DatePrecision::YearMonthDay });
                steps.push(CollectionStep::Nationality {  });
            },
            CheckType::DocumentVerification => {
                steps.push(CollectionStep::Nationality {  });
            },
            _ => {
                return Err(UnsupportedCheck { check: self.check });
            },
        }
        assert(models(steps@) =~= self.check.implied_steps().unwrap());
        Ok(steps)
    }
}

/// Whether collection steps are defined for every one of `checks`.
pub open spec fn all_supported(checks: Seq<Check>) -> bool {
    forall|i: int| 0 <= i < checks.len() ==> (#[trigger] checks[i]).check.implied_steps() is Some
}

/// The steps implied by `checks`, check after check. A check without
/// defined steps adds nothing here; `all_supported` says whether there is
/// one.
pub open spec fn implied_by(checks: Seq<Check>) -> Seq<StepModel>
    decreases checks.len(),
{
    if checks.len() == 0 {
        Seq::empty()
    } else {
        implied_by(checks.drop_last()) + match checks.last().check.implied_steps() {
            Some(steps) => steps,
            None => Seq::empty(),
        }
    }
}

/// A subject to be checked, with the information that its checks call for.
#[derive(Debug, Clone, PartialEq, Eq)]
pub struct Profile {
    pub id: Id,
    pub possible_recipients: Vec<Id>,
    pub checks: Vec<Check>,
    pub selected_recipient: Option<Id>,
    /// Steps added by hand, beyond those that the checks imply.
    pub extra_collection_steps: Vec<CollectionStep>,
    /// The merged steps, as last recalculated. This is a cache: it is valid
    /// only while `checks` and `extra_collection_steps` are as they were
    /// when it was filled.
    pub calculated_collection_steps: Vec<CollectionStep>,
}

impl Default for Profile {
    fn default() -> (profile: Profile)
        ensures
            profile.id == Id(0),
            profile.possible_recipients@.len() == 0,
            profile.checks@.len() == 0,
            profile.selected_recipient is None,
            profile.extra_collection_steps@.len() == 0,
            profile.calculated_collection_steps@.len() == 0,
    {
        Profile {
            id: Id(0),
            possible_recipients: Vec::new(),
            checks: Vec::new(),
            selected_recipient: None,
            extra_collection_steps: Vec::new(),
            calculated_collection_steps: Vec::new(),
        }
    }
}

impl Profile {
    /// The steps that this profile calls for: those implied by its checks,
    /// in the order of the checks, then the extra steps, all merged.
    pub open spec fn merged_steps(self) -> Seq<StepModel> {
        merged_all(
            Seq::empty(),
            implied_by(self.checks@) + models(self.extra_collection_steps@),
        )
    }

    /// Whether the cache holds what the checks and the extra steps call for.
    pub open spec fn is_current(self) -> bool {
        models(self.calculated_collection_steps@) == self.merged_steps()
    }

    /// What a profile calls for holds each requirement once, and covers
    /// every step that one of its checks implies or that was added by hand.
    pub proof fn lemma_merged_steps_are_minimal_and_complete(self, i: int)
        requires
            0 <= i < (implied_by(self.checks@) + models(self.extra_collection_steps@)).len(),
        ensures
            deduplicated(self.merged_steps()),
            covers(
                self.merged_steps(),
                (implied_by(self.checks@) + models(self.extra_collection_steps@))[i],
            ),
    {
        let steps = implied_by(self.checks@) + models(self.extra_collection_steps@);
        lemma_merge_all_keeps_deduplicated(Seq::empty(), steps);
        lemma_merge_all_covers_every_step(Seq::empty(), steps, i);
    }

    /// Fills `calculated_collection_steps` anew from the checks and the extra
    /// steps. Where a check has no defined steps, the first such check is
    /// reported and the profile stays as it was.
    pub fn recalculate_collection_steps(&mut self) -> (result: Result<(), UnsupportedCheck>)
        ensures
            result is Ok <==> all_supported(old(self).checks@),
            result is Ok ==> final(self).is_current(),
            result is Ok ==> final(self).id == old(self).id,
            result is Ok ==> final(self).possible_recipients == old(self).possible_recipients,
            result is Ok ==> final(self).checks == old(self).checks,
            result is Ok ==> final(self).selected_recipient == old(self).selected_recipient,
            result is Ok ==> final(self).extra_collection_steps == old(self).extra_collection_steps,
            result is Err ==> *final(self) == *old(self),
            result matches Err(e) ==> exists|i: int|
                0 <= i < old(self).checks@.len() && e.check == (#[trigger] old(self).checks@[i]).check
                    && e.check.implied_steps() is None && all_supported(old(self).checks@.take(i)),
    {
        let mut calculated: Vec<CollectionStep> = Vec::new();
        let n: usize = self.checks.len();
        let mut i: usize = 0;
        assert(self.checks@.take(0) =~= Seq::<Check>::empty());
        assert(models(calculated@) =~= Seq::<StepModel>::empty());
        while i < n
            invariant
                n == self.checks@.len(),
                i <= n,
                *self == *old(self),
                all_supported(self.checks@.take(i as int)),
                models(calculated@) == merged_all(
                    Seq::empty(),
                    implied_by(self.checks@.take(i as int)),
                ),
            decreases n - i,
        {
            let ghost done = self.checks@.take(i as int);
            let ghost next = self.checks@.take(i + 1);
            proof {
                assert(next.drop_last() =~= done);
                assert(next.last() == self.checks@[i as int]);
            }
            match self.checks[i].calculate_collection_steps() {
                Ok(steps) => {
                    proof {
                        lemma_merge_all_concat(Seq::empty(), implied_by(done), models(steps@));
                        assert forall|k: int| 0 <= k < next.len() implies (
                        #[trigger] next[k]).check.implied_steps() is Some by {
                            if k < i {
                                assert(next[k] == done[k]);
                            }
                        }
                    }
                    merge_all(&mut calculated, steps.as_slice());
                },
                Err(e) => {
                    return Err(e);
                },
            }
            i = i + 1;
        }
        proof {
            assert(self.checks@.take(n as int) =~= self.checks@);
            lemma_merge_all_concat(
                Seq::empty(),
                implied_by(self.checks@),
                models(self.extra_collection_steps@),
            );
        }
        merge_all(&mut calculated, self.extra_collection_steps.as_slice());
        self.calculated_collection_steps = calculated;
        Ok(())
    }

    /// Whether anything is still to be collected for this profile, by the
    /// steps as last recalculated.
    pub fn needs_information(&self) -> (needed: bool)
        ensures
            needed == (self.calculated_collection_steps@.len() > 0),
    {
        self.calculated_collection_steps.len() > 0
    }
}

/// The arguments of a communication that the front end may set.
#[derive(Debug, Clone, PartialEq, Eq)]
pub struct PublicArgs {
    pub from: Option<String>,
    pub bcc: Vec<String>,
}

impl Default for PublicArgs {
    fn default() -> (args: PublicArgs)
        ensures
            args.from is None,
            args.bcc@.len() == 0,
    {
        PublicArgs { from: None, bcc: Vec::new() }
    }
}

/// The arguments of a communication that are handed on as they are.
#[derive(Debug, Clone, PartialEq, Eq)]
pub struct PrivateArgs {
    pub from: Option<String>,
    pub bcc: Vec<String>,
}

impl Default for PrivateArgs {
    fn default() -> (args: PrivateArgs)
        ensures
            args.from is None,
            args.bcc@.len() == 0,
    {
        PrivateArgs { from: None, bcc: Vec::new() }
    }
}

/// A message to a recipient.
#[derive(Debug, Clone, PartialEq, Eq)]
pub struct Communication {
    pub recipient: Id,
    pub public_args: PublicArgs,
    pub private_args: PrivateArgs,
}

impl Default for Communication {
    fn default() -> (communication: Communication)
        ensures
            communication.recipient == Id(0),
            communication.public_args.from is None,
            communication.public_args.bcc@.len() == 0,
            communication.private_args.from is None,
            communication.private_args.bcc@.len() == 0,
    {
        Communication {
            recipient: Id(0),
            public_args: PublicArgs::default(),
            private_args: PrivateArgs::default(),
        }
    }
}

/// How a recipient is reached.
#[derive(Debug, Clone, PartialEq, Eq)]
pub enum ContactMethod {
    /// By e-mail, with the subject line and a note to go with the message.
    Email { address: String, subject: String, note: String },
    /// By text message.
    Sms { phone_number: String },
}

/// Someone who can be asked for the information that a profile needs.
#[derive(Debug, Clone, PartialEq, Eq)]
pub struct Recipient {
    pub id: Id,
    pub name: String,
    pub contact_method: ContactMethod,
}

impl Recipient {
    /// Whether this recipient is reached by e-mail.
    pub fn is_email(&self) -> (email: bool)
        ensures
            email == (self.contact_method is Email),
    {
        match self.contact_method {
            ContactMethod::Email { .. } => true,
            ContactMethod::Sms { .. } => false,
        }
    }

    /// Whether this recipient is reached by text message.
    pub fn is_sms(&self) -> (sms: bool)
        ensures
            sms == (self.contact_method is Sms),
    {
        match self.contact_method {
            ContactMethod::Email { .. } => false,
            ContactMethod::Sms { .. } => true,
        }
    }
}

/// The first version of a basket's contents.
#[derive(Debug, Clone, PartialEq, Eq)]
pub struct BasketContentsV1 {
    pub profiles_to_check: Vec<Profile>,
    pub communications: Vec<Communication>,
    pub recipients: Vec<Recipient>,
}

impl Default for BasketContentsV1 {
    fn default() -> (contents: BasketContentsV1)
        ensures
            contents.is_empty(),
    {
        BasketContentsV1 {
            profiles_to_check: Vec::new(),
            communications: Vec::new(),
            recipients: Vec::new(),
        }
    }
}

/// A profile identifier that no profile of the basket carries.
#[derive(Debug, Clone, Copy, PartialEq, Eq, Structural)]
pub struct ProfileNotFound {
    pub profile_id: Id,
}

/// The index of the first of `profiles` that carries `id`.
pub open spec fn first_with_id(profiles: Seq<Profile>, id: Id) -> Option<int>
    decreases profiles.len(),
{
    if profiles.len() == 0 {
        None
    } else if profiles.first().id == id {
        Some(0)
    } else {
        match first_with_id(profiles.drop_first(), id) {
            Some(i) => Some(i + 1),
            None => None,
        }
    }
}

/// `first_with_id` finds a profile with the identifier, and none stands
/// before it; it finds none only where no profile carries the identifier.
pub proof fn lemma_first_with_id(profiles: Seq<Profile>, id: Id)
    ensures
        match first_with_id(profiles, id) {
            Some(i) => 0 <= i < profiles.len() && profiles[i].id == id && forall|j: int|
                0 <= j < i ==> (#[trigger] profiles[j]).id != id,
            None => forall|j: int| 0 <= j < profiles.len() ==> (#[trigger] profiles[j]).id != id,
        },
    decreases profiles.len(),
{
    if profiles.len() > 0 && profiles.first().id != id {
        let rest = profiles.drop_first();
        lemma_first_with_id(rest, id);
        match first_with_id(rest, id) {
            Some(i) => {
                assert(rest[i] == profiles[i + 1]);
                assert forall|j: int| 0 <= j < i + 1 implies (#[trigger] profiles[j]).id != id by {
                    if j > 0 {
                        assert(rest[j - 1] == profiles[j]);
                    }
                }
            },
            None => {
                assert forall|j: int| 0 <= j < profiles.len() implies (#[trigger] profiles[j]).id
                    != id by {
                    if j > 0 {
                        assert(rest[j - 1] == profiles[j]);
                    }
                }
            },
        }
    }
}

impl BasketContentsV1 {
    /// Whether the contents hold nothing at all.
    pub open spec fn is_empty(self) -> bool {
        &&& self.profiles_to_check@.len() == 0
        &&& self.communications@.len() == 0
        &&& self.recipients@.len() == 0
    }

    /// The position of the first profile that carries `profile_id`, if there
    /// is one.
    pub fn find_profile(&self, profile_id: Id) -> (found: Option<usize>)
        ensures
            match found {
                Some(i) => first_with_id(self.profiles_to_check@, profile_id) == Some(i as int),
                None => first_with_id(self.profiles_to_check@, profile_id) is None,
            },
    {
        let n: usize = self.profiles_to_check.len();
        let mut i: usize = 0;
        proof {
            lemma_first_with_id(self.profiles_to_check@, profile_id);
        }
        while i < n
            invariant
                n == self.profiles_to_check@.len(),
                i <= n,
                forall|j: int| 0 <= j < i ==> (#[trigger] self.profiles_to_check@[j]).id != profile_id,
                match first_with_id(self.profiles_to_check@, profile_id) {
                    Some(k) => 0 <= k < n && self.profiles_to_check@[k].id == profile_id
                        && forall|j: int|
                        0 <= j < k ==> (#[trigger] self.profiles_to_check@[j]).id != profile_id,
                    None => forall|j: int|
                        0 <= j < n ==> (#[trigger] self.profiles_to_check@[j]).id != profile_id,
                },
            decreases n - i,
        {
            if self.profiles_to_check[i].id.same_as(&profile_id) {
                return Some(i);
            }
            i = i + 1;
        }
        None
    }

    /// Selects `recipient_id` for the first profile that carries `profile_id`,
    /// or clears its selection where `recipient_id` is `None`. Where no
    /// profile carries `profile_id`, nothing changes and the identifier is
    /// handed back.
    pub fn set_recipient_on_profile(&mut self, profile_id: Id, recipient_id: Option<Id>) -> (result:
        Result<(), ProfileNotFound>)
        ensures
            match first_with_id(old(self).profiles_to_check@, profile_id) {
                Some(i) => result is Ok && final(self).profiles_to_check@ == old(
                    self).profiles_to_check@.update(
                    i,
                    (Profile {
                        selected_recipient: recipient_id,
                        ..old(self).profiles_to_check@[i]
                    }),
                ) && final(self).communications == old(self).communications && final(
                    self).recipients == old(self).recipients,
                None => result == Err::<(), ProfileNotFound>(ProfileNotFound { profile_id })
                    && *final(self) == *old(self),
            },
    {
        match self.find_profile_mut(profile_id) {
            Some(profile) => {
                profile.selected_recipient = recipient_id;
                Ok(())
            },
            None => Err(ProfileNotFound { profile_id }),
        }
    }

    /// The first profile that carries `profile_id`, for changing in place.
    pub fn find_profile_mut(&mut self, profile_id: Id) -> (found: Option<&mut Profile>)
        ensures
            match found {
                Some(profile) => first_with_id(old(self).profiles_to_check@, profile_id) matches Some(i)
                    && *profile == old(self).profiles_to_check@[i] && final(self).profiles_to_check@
                    == old(self).profiles_to_check@.update(i, *final(profile)) && final(
                    self).communications == old(self).communications && final(self).recipients == old(
                    self).recipients,
                None => first_with_id(old(self).profiles_to_check@, profile_id) is None && *final(self)
                    == *old(self),
            },
    {
        match self.find_profile(profile_id) {
            Some(i) => {
                proof {
                    lemma_first_with_id(self.profiles_to_check@, profile_id);
                }
                Some(&mut self.profiles_to_check[i])
            },
            None => None,
        }
    }
}

/// The contents of a basket, in the latest version.
#[derive(Debug, Clone, PartialEq, Eq)]
pub struct BasketContents(pub BasketContentsV1);

impl Default for BasketContents {
    fn default() -> (contents: BasketContents)
        ensures
            contents.0.is_empty(),
    {
        BasketContents(BasketContentsV1::default())
    }
}

impl Upgrade for BasketContentsV1 {
    type Wrapper = BasketContents;

    type Target = BasketContentsV1;

    open spec fn is_latest() -> bool {
        true
    }

    open spec fn upgraded(self) -> BasketContentsV1 {
        self
    }

    open spec fn fully_upgraded(self) -> BasketContents {
        BasketContents(self)
    }

    fn upgrade(self) -> (next: Result<BasketContentsV1, UpgradeError>) {
        Err(UpgradeError::AlreadyLatest)
    }

    fn upgrade_full(self) -> (latest: BasketContents) {
        BasketContents(self)
    }
}

/// Stored contents of a basket, of whichever version they were written in.
#[derive(Debug, Clone, PartialEq, Eq)]
pub enum Version {
    V1(BasketContentsV1),
}

impl Version {
    /// Whether the contents are of the latest version.
    pub open spec fn is_latest(self) -> bool {
        self is V1
    }

    /// The contents carried over to the latest version.
    pub open spec fn latest(self) -> BasketContents {
        match self {
            Version::V1(contents) => contents.fully_upgraded(),
        }
    }

    /// Carries the contents over to the latest version, whichever version
    /// they were stored in.
    pub fn upgrade_full(self) -> (contents: BasketContents)
        ensures
            contents == self.latest(),
    {
        match self {
            Version::V1(contents) => contents.upgrade_full(),
        }
    }

    /// The stored form of `contents`. It is of the latest version always:
    /// nothing is ever written in an older one.
    pub fn of(contents: BasketContents) -> (stored: Version)
        ensures
            stored == Version::V1(contents.0),
            stored.is_latest(),
            stored.latest() == contents,
    {
        Version::V1(contents.0)
    }
}

/// A basket: the unit that is stored and updated as a whole.
#[derive(Debug, Clone, PartialEq, Eq)]
pub struct Basket {
    pub id: Id,
    pub contents: BasketContents,
}

impl Default for Basket {
    fn default() -> (basket: Basket)
        ensures
            basket.is_new(Id(0)),
    {
        Basket { id: Id(0), contents: BasketContents::default() }
    }
}

impl Basket {
    /// Whether this is the basket that stands for `id` before anything was
    /// stored under it: that identifier, and nothing in it.
    pub open spec fn is_new(self, id: Id) -> bool {
        self.id == id && self.contents.0.is_empty()
    }

    /// The basket that stands for `id` before anything was stored under it.
    pub fn new(id: Id) -> (basket: Basket)
        ensures
            basket.is_new(id),
    {
        Basket { id, contents: BasketContents::default() }
    }
}

} // verus!
