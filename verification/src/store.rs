//! The decisions of an update: a basket is read, changed and written back in
//! one transaction, and the whole cycle is repeated when the store fails.
//!
//! The session in this module decides; a driver acts. The driver carries out
//! each [`Command`] against the store, reports what came of it as an
//! [`Event`], and is told the next command. A session never touches the
//! store itself.

use crate::envelope::{decode_envelope, encode_envelope, envelope_of, payload_of, DecodeError};
use crate::ident::Id;
use crate::retry::RetryPolicy;
use crate::schema::{Basket, BasketContents, Version};
use vstd::prelude::*;

verus! {

/// Why an update came to nothing.
#[derive(Debug, Clone, Copy, PartialEq, Eq, Structural)]
pub enum UpdateError {
    /// The stored bytes could not be read as a basket. The store holds
    /// something that this program did not write, or can no longer read.
    Decode(DecodeError),
    /// The change was turned down by the caller's own rules. Nothing was
    /// written, and the update was not tried again.
    Rejected,
    /// The store failed on the first attempt and on every repetition that
    /// the policy allows.
    RetriesExhausted,
    /// The driver reported something that the session was not waiting for.
    OutOfTurn,
}

/// What a session is waiting for.
#[derive(Debug, Clone, PartialEq, Eq)]
pub enum Phase {
    /// For the row to be looked up.
    Loading,
    /// For the stored payload to be parsed.
    Parsing,
    /// For the change to be made. `is_new` says that no row was found, so
    /// that the basket is a fresh one.
    Mutating { is_new: bool },
    /// For `basket` to be written and the transaction committed.
    Writing { basket: Basket },
    /// For the wait before the next attempt to pass.
    Waiting,
    /// For nothing: the update has ended.
    Finished,
}

/// What the driver reports.
#[derive(Debug, Clone, PartialEq, Eq)]
pub enum Event {
    /// The row was found; `bytes` are its contents as stored.
    RowFound { bytes: Vec<u8> },
    /// There is no row under the identifier.
    RowMissing,
    /// The payload holds `contents`.
    Parsed { contents: Version },
    /// The payload holds no document of a known version.
    Unparsable,
    /// The change was made; `basket` is the basket after it and `payload`
    /// its contents in stored form, without the envelope.
    Mutated { basket: Basket, payload: Vec<u8> },
    /// The change was turned down.
    Rejected,
    /// The row was written and the transaction committed.
    Committed,
    /// The store failed, at whatever point of the transaction.
    StoreFailed,
    /// The wait has passed.
    Waited,
}

/// What the driver is to do next.
#[derive(Debug, Clone, PartialEq, Eq)]
pub enum Command {
    /// Open a transaction and look up the row under `id`.
    Load { id: Id },
    /// Parse `payload` as a document of any known version.
    Parse { payload: Vec<u8> },
    /// Hand `basket` to the caller's change, and put its contents into
    /// stored form.
    Mutate { basket: Basket },
    /// Insert a row with `bytes` under `id`, and commit.
    Insert { id: Id, bytes: Vec<u8> },
    /// Replace the contents of the row under `id` by `bytes`, and commit.
    Update { id: Id, bytes: Vec<u8> },
    /// Roll the transaction back and wait for `millis` milliseconds.
    Wait { millis: u64 },
    /// End the update: `basket` is what was stored.
    Succeed { basket: Basket },
    /// Roll back whatever is open and end the update with `error`.
    Fail { error: UpdateError },
}

/// One update of one basket, as far as it has come.
#[derive(Debug, Clone, PartialEq, Eq)]
pub struct UpdateSession {
    /// The identifier of the basket.
    pub id: Id,
    /// The policy by which failed attempts are repeated.
    pub policy: RetryPolicy,
    /// How many attempts have been repeated so far.
    pub retries: u32,
    /// What the session is waiting for.
    pub phase: Phase,
}

/// Whether `basket` and `is_new` are what an update of the basket under `id`
/// starts from: the stored contents where there are any, and else a fresh
/// basket, which is marked as new.
pub open spec fn is_created_or_loaded(
    id: Id,
    stored: Option<BasketContents>,
    basket: Basket,
    is_new: bool,
) -> bool {
    match stored {
        Some(contents) => basket == (Basket { id, contents }) && !is_new,
        None => basket.is_new(id) && is_new,
    }
}

/// The basket that an update of `id` starts from, and whether it is new.
/// Where nothing is stored under `id` the update does not fail: it starts
/// from a fresh basket, which is created when the update is written.
pub fn create_or_load_for_update(id: Id, stored: Option<BasketContents>) -> (start: (Basket, bool))
    ensures
        is_created_or_loaded(id, stored, start.0, start.1),
{
    match stored {
        Some(contents) => (Basket { id, contents }, false),
        None => (Basket::new(id), true),
    }
}

impl UpdateSession {
    /// The session as it is but for its phase.
    pub open spec fn at(self, phase: Phase) -> UpdateSession {
        UpdateSession { phase, ..self }
    }

    /// Whether the session is in the middle of a transaction.
    pub open spec fn in_transaction(self) -> bool {
        self.phase is Loading || self.phase is Parsing || self.phase is Mutating
            || self.phase is Writing
    }

    /// Whether `next` and `command` are the answer to a failure of the
    /// store: another attempt after the wait that the policy gives, as long
    /// as it allows one, and the end of the update after that.
    pub open spec fn answers_failure(self, next: UpdateSession, command: Command) -> bool {
        if self.retries < self.policy.max_retries {
            &&& next == (UpdateSession {
                retries: (self.retries + 1) as u32,
                phase: Phase::Waiting,
                ..self
            })
            &&& command == (Command::Wait { millis: self.policy.delay(self.retries as nat) as u64 })
        } else {
            &&& next == self.at(Phase::Finished)
            &&& command == (Command::Fail { error: UpdateError::RetriesExhausted })
        }
    }

    /// Whether `next` and `command` are the answer of this session to
    /// `event`.
    ///
    /// A row that is found is taken out of its envelope and handed on for
    /// parsing; one that is missing gives a fresh basket. What was parsed is
    /// carried over to the latest version and handed to the change. The
    /// changed basket is put into its envelope and inserted if it was fresh,
    /// else written over the row. A rejected change, and bytes that cannot
    /// be read, end the update at once. A failure of the store in the middle
    /// of a transaction is answered as `answers_failure` says. Anything that
    /// the session was not waiting for ends the update.
    pub open spec fn answers(self, event: Event, next: UpdateSession, command: Command) -> bool {
        match (self.phase, event) {
            (Phase::Loading, Event::RowFound { bytes }) => match payload_of(bytes@) {
                Ok(expected) => {
                    &&& next == self.at(Phase::Parsing)
                    &&& command matches Command::Parse { payload }
                    &&& payload@ == expected
                },
                Err(e) => {
                    &&& next == self.at(Phase::Finished)
                    &&& command == (Command::Fail { error: UpdateError::Decode(e) })
                },
            },
            (Phase::Loading, Event::RowMissing) => {
                &&& next == self.at(Phase::Mutating { is_new: true })
                &&& command matches Command::Mutate { basket }
                &&& is_created_or_loaded(self.id, None, basket, true)
            },
            (Phase::Parsing, Event::Parsed { contents }) => {
                &&& next == self.at(Phase::Mutating { is_new: false })
                &&& command matches Command::Mutate { basket }
                &&& is_created_or_loaded(self.id, Some(contents.latest()), basket, false)
            },
            (Phase::Parsing, Event::Unparsable) => {
                &&& next == self.at(Phase::Finished)
                &&& command == (Command::Fail {
                    error: UpdateError::Decode(DecodeError::MalformedPayload),
                })
            },
            (Phase::Mutating { is_new }, Event::Mutated { basket, payload }) => {
                &&& next == self.at(
                    Phase::Writing { basket: Basket { id: self.id, contents: basket.contents } },
                )
                &&& if is_new {
                    &&& command matches Command::Insert { id, bytes }
                    &&& id == self.id
                    &&& bytes@ == envelope_of(payload@)
                } else {
                    &&& command matches Command::Update { id, bytes }
                    &&& id == self.id
                    &&& bytes@ == envelope_of(payload@)
                }
            },
            (Phase::Mutating { .. }, Event::Rejected) => {
                &&& next == self.at(Phase::Finished)
                &&& command == (Command::Fail { error: UpdateError::Rejected })
            },
            (Phase::Writing { basket }, Event::Committed) => {
                &&& next == self.at(Phase::Finished)
                &&& command == (Command::Succeed { basket })
            },
            (Phase::Waiting, Event::Waited) => {
                &&& next == self.at(Phase::Loading)
                &&& command == (Command::Load { id: self.id })
            },
            (_, Event::StoreFailed) => if self.in_transaction() {
                self.answers_failure(next, command)
            } else {
                &&& next == self.at(Phase::Finished)
                &&& command == (Command::Fail { error: UpdateError::OutOfTurn })
            },
            _ => {
                &&& next == self.at(Phase::Finished)
                &&& command == (Command::Fail { error: UpdateError::OutOfTurn })
            },
        }
    }

    /// Begins an update of the basket under `id`: the first thing to do is to
    /// look up its row.
    pub fn begin(id: Id, policy: RetryPolicy) -> (start: (UpdateSession, Command))
        ensures
            start.0 == (UpdateSession { id, policy, retries: 0, phase: Phase::Loading }),
            start.1 == (Command::Load { id }),
    {
        (UpdateSession { id, policy, retries: 0, phase: Phase::Loading }, Command::Load { id })
    }

    /// Whether the update has ended.
    pub fn is_finished(&self) -> (finished: bool)
        ensures
            finished == (self.phase is Finished),
    {
        match self.phase {
            Phase::Finished => true,
            _ => false,
        }
    }

    /// Ends the update because the driver reported something out of turn.
    fn out_of_turn(id: Id, policy: RetryPolicy, retries: u32) -> (end: (UpdateSession, Command))
        ensures
            end.0 == (UpdateSession { id, policy, retries, phase: Phase::Finished }),
            end.1 == (Command::Fail { error: UpdateError::OutOfTurn }),
    {
        (
            UpdateSession { id, policy, retries, phase: Phase::Finished },
            Command::Fail { error: UpdateError::OutOfTurn },
        )
    }

    /// Takes what the driver reports, and says what it is to do next.
    pub fn handle(self, event: Event) -> (step: (UpdateSession, Command))
        ensures
            self.answers(event, step.0, step.1),
    {
        let UpdateSession { id, policy, retries, phase } = self;
        match event {
            Event::StoreFailed => match phase {
                Phase::Waiting | Phase::Finished => Self::out_of_turn(id, policy, retries),
                _ => {
                    if policy.allows_retry(retries) {
                        let millis = policy.delay_ms(retries);
                        (
                            UpdateSession { id, policy, retries: retries + 1, phase: Phase::Waiting },
                            Command::Wait { millis },
                        )
                    } else {
                        (
                            UpdateSession { id, policy, retries, phase: Phase::Finished },
                            Command::Fail { error: UpdateError::RetriesExhausted },
                        )
                    }
                },
            },
            Event::RowFound { bytes } => match phase {
                Phase::Loading => match decode_envelope(bytes.as_slice()) {
                    Ok(payload) => (
                        UpdateSession { id, policy, retries, phase: Phase::Parsing },
                        Command::Parse { payload },
                    ),
                    Err(e) => (
                        UpdateSession { id, policy, retries, phase: Phase::Finished },
                        Command::Fail { error: UpdateError::Decode(e) },
                    ),
                },
                _ => Self::out_of_turn(id, policy, retries),
            },
            Event::RowMissing => match phase {
                Phase::Loading => {
                    let (basket, is_new) = create_or_load_for_update(id, None);
                    (
                        UpdateSession { id, policy, retries, phase: Phase::Mutating { is_new } },
                        Command::Mutate { basket },
                    )
                },
                _ => Self::out_of_turn(id, policy, retries),
            },
            Event::Parsed { contents } => match phase {
                Phase::Parsing => {
                    let (basket, is_new) = create_or_load_for_update(
                        id,
                        Some(contents.upgrade_full()),
                    );
                    (
                        UpdateSession { id, policy, retries, phase: Phase::Mutating { is_new } },
                        Command::Mutate { basket },
                    )
                },
                _ => Self::out_of_turn(id, policy, retries),
            },
            Event::Unparsable => match phase {
                Phase::Parsing => (
                    UpdateSession { id, policy, retries, phase: Phase::Finished },
                    Command::Fail { error: UpdateError::Decode(DecodeError::MalformedPayload) },
                ),
                _ => Self::out_of_turn(id, policy, retries),
            },
            Event::Mutated { basket, payload } => match phase {
                Phase::Mutating { is_new } => {
                    let bytes = encode_envelope(payload.as_slice());
                    let stored = Basket { id, contents: basket.contents };
                    let next = UpdateSession {
                        id,
                        policy,
                        retries,
                        phase: Phase::Writing { basket: stored },
                    };
                    if is_new {
                        (next, Command::Insert { id, bytes })
                    } else {
                        (next, Command::Update { id, bytes })
                    }
                },
                _ => Self::out_of_turn(id, policy, retries),
            },
            Event::Rejected => match phase {
                Phase::Mutating { .. } => (
                    UpdateSession { id, policy, retries, phase: Phase::Finished },
                    Command::Fail { error: UpdateError::Rejected },
                ),
                _ => Self::out_of_turn(id, policy, retries),
            },
            Event::Committed => match phase {
                Phase::Writing { basket } => (
                    UpdateSession { id, policy, retries, phase: Phase::Finished },
                    Command::Succeed { basket },
                ),
                _ => Self::out_of_turn(id, policy, retries),
            },
            Event::Waited => match phase {
                Phase::Waiting => (
                    UpdateSession { id, policy, retries, phase: Phase::Loading },
                    Command::Load { id },
                ),
                _ => Self::out_of_turn(id, policy, retries),
            },
        }
    }
}

/// Whether `states`, `events` and `commands` are the course of a session:
/// each event is answered, as `answers` says, by the next state and a
/// command.
pub open spec fn is_run(
    states: Seq<UpdateSession>,
    events: Seq<Event>,
    commands: Seq<Command>,
) -> bool {
    &&& states.len() == events.len() + 1
    &&& commands.len() == events.len()
    &&& forall|k: int|
        0 <= k < events.len() ==> states[k].answers(
            events[k],
            states[k + 1],
            #[trigger] commands[k],
        )
}

/// How many of `commands` tell the driver to wait.
pub open spec fn waits(commands: Seq<Command>) -> nat
    decreases commands.len(),
{
    if commands.len() == 0 {
        0
    } else {
        waits(commands.drop_last()) + if commands.last() is Wait {
            1nat
        } else {
            0nat
        }
    }
}

/// The beginning of a run is a run.
pub proof fn lemma_run_prefix(
    states: Seq<UpdateSession>,
    events: Seq<Event>,
    commands: Seq<Command>,
    n: int,
)
    requires
        is_run(states, events, commands),
        0 <= n <= events.len(),
    ensures
        is_run(states.take(n + 1), events.take(n), commands.take(n)),
{
    let (s, e, c) = (states.take(n + 1), events.take(n), commands.take(n));
    assert forall|k: int| 0 <= k < e.len() implies s[k].answers(
        e[k],
        s[k + 1],
        #[trigger] c[k],
    ) by {
        assert(states[k].answers(events[k], states[k + 1], commands[k]));
    }
}

/// A session keeps its identifier and its policy, and counts one retry for
/// each wait that it orders. It never counts more retries than the policy
/// allows, unless it was started with more.
pub proof fn lemma_run_counts_waits(
    states: Seq<UpdateSession>,
    events: Seq<Event>,
    commands: Seq<Command>,
)
    requires
        is_run(states, events, commands),
    ensures
        states.last().id == states[0].id,
        states.last().policy == states[0].policy,
        states.last().retries == states[0].retries + waits(commands),
        states[0].retries <= states[0].policy.max_retries ==> states.last().retries
            <= states[0].policy.max_retries,
    decreases events.len(),
{
    if events.len() > 0 {
        let n = events.len() - 1;
        lemma_run_prefix(states, events, commands, n);
        lemma_run_counts_waits(states.take(n + 1), events.take(n), commands.take(n));
        assert(commands.take(n) =~= commands.drop_last());
        assert(states.take(n + 1).last() == states[n]);
        assert(states[n].answers(events[n], states[n + 1], commands[n]));
        assert(states.last() == states[n + 1]);
        assert(commands.last() == commands[n]);
    }
}

/// An update repeats its attempt no more often than its policy allows: a
/// session that begins without retries orders at most `max_retries` waits.
pub proof fn lemma_retries_are_bounded(
    states: Seq<UpdateSession>,
    events: Seq<Event>,
    commands: Seq<Command>,
)
    requires
        is_run(states, events, commands),
        states[0].retries == 0,
    ensures
        waits(commands) <= states[0].policy.max_retries,
{
    lemma_run_counts_waits(states, events, commands);
}

/// Each wait is as long as the policy says for the number of waits before
/// it: the first wait of the policy, then twice that, and so on.
pub proof fn lemma_waits_follow_policy(
    states: Seq<UpdateSession>,
    events: Seq<Event>,
    commands: Seq<Command>,
    k: int,
)
    requires
        is_run(states, events, commands),
        states[0].retries == 0,
        0 <= k < commands.len(),
        commands[k] is Wait,
    ensures
        commands[k] == (Command::Wait {
            millis: states[0].policy.delay(waits(commands.take(k))) as u64,
        }),
        waits(commands.take(k)) < states[0].policy.max_retries,
{
    lemma_run_prefix(states, events, commands, k);
    lemma_run_counts_waits(states.take(k + 1), events.take(k), commands.take(k));
    assert(states.take(k + 1).last() == states[k]);
    assert(states[k].answers(events[k], states[k + 1], commands[k]));
}

/// Once an update has ended it stays ended: whatever the driver reports
/// then is out of turn.
pub proof fn lemma_finished_is_final(
    states: Seq<UpdateSession>,
    events: Seq<Event>,
    commands: Seq<Command>,
    j: int,
    k: int,
)
    requires
        is_run(states, events, commands),
        0 <= j <= k < commands.len(),
        states[j].phase is Finished,
    ensures
        states[k + 1].phase is Finished,
        commands[k] == (Command::Fail { error: UpdateError::OutOfTurn }),
    decreases k - j,
{
    if j < k {
        lemma_finished_is_final(states, events, commands, j, k - 1);
    }
    assert(states[k].answers(events[k], states[k + 1], commands[k]));
}

/// A rejected change ends the update, and so do stored bytes that cannot be
/// read: the answer is a failure, and no further attempt follows.
pub proof fn lemma_rejection_and_corruption_are_final(
    states: Seq<UpdateSession>,
    events: Seq<Event>,
    commands: Seq<Command>,
    j: int,
    k: int,
)
    requires
        is_run(states, events, commands),
        0 <= j < k < commands.len(),
        events[j] is Rejected || events[j] is Unparsable || (events[j] matches Event::RowFound {
            bytes,
        } && payload_of(bytes@) is Err),
    ensures
        commands[j] is Fail,
        commands[k] == (Command::Fail { error: UpdateError::OutOfTurn }),
{
    assert(states[j].answers(events[j], states[j + 1], commands[j]));
    lemma_finished_is_final(states, events, commands, j + 1, k);
}

/// A row is inserted only for a basket that was not found, and written over
/// only for one that was: the command that follows a change is `Insert`
/// exactly when the session had begun with a fresh basket.
pub proof fn lemma_missing_row_is_inserted(
    states: Seq<UpdateSession>,
    events: Seq<Event>,
    commands: Seq<Command>,
    k: int,
)
    requires
        is_run(states, events, commands),
        0 <= k,
        k + 1 < commands.len(),
        states[k].phase is Loading,
        events[k] is RowMissing,
        events[k + 1] is Mutated,
    ensures
        commands[k] matches Command::Mutate { basket } && basket.is_new(states[k].id),
        commands[k + 1] matches Command::Insert { id, .. } && id == states[k].id,
{
    assert(states[k].answers(events[k], states[k + 1], commands[k]));
    assert(states[k + 1].answers(events[k + 1], states[k + 2], commands[k + 1]));
}

/// An update that succeeds reports what it wrote: the success follows a
/// commit, the commit follows the writing of the changed basket in its
/// envelope, and the basket that is reported is the changed one under the
/// identifier of the session.
pub proof fn lemma_success_reports_what_was_written(
    states: Seq<UpdateSession>,
    events: Seq<Event>,
    commands: Seq<Command>,
    k: int,
)
    requires
        is_run(states, events, commands),
        !(states[0].phase is Writing),
        0 <= k < commands.len(),
        commands[k] is Succeed,
    ensures
        k >= 1,
        events[k] is Committed,
        events[k - 1] matches Event::Mutated { basket: changed, payload } && commands[k] == (
        Command::Succeed { basket: Basket { id: states[0].id, contents: changed.contents } })
            && match commands[k - 1] {
            Command::Insert { id, bytes } => id == states[0].id && bytes@ == envelope_of(payload@),
            Command::Update { id, bytes } => id == states[0].id && bytes@ == envelope_of(payload@),
            _ => false,
        },
{
    assert(states[k].answers(events[k], states[k + 1], commands[k]));
    assert(states[k].phase is Writing);
    assert(k >= 1);
    assert(states[k - 1].answers(events[k - 1], states[k], commands[k - 1]));
    lemma_run_prefix(states, events, commands, k - 1);
    lemma_run_counts_waits(states.take(k), events.take(k - 1), commands.take(k - 1));
    assert(states.take(k).last() == states[k - 1]);
}

} // verus!
