use checkout::envelope::DecodeError;
use checkout::retry::RetryPolicy;
use checkout::schema::{Basket, BasketContents, BasketContentsV1, Profile, Version};
use checkout::store::{
    create_or_load_for_update, Command, Event, Phase, UpdateError, UpdateSession,
};
use checkout::Id;
use std::collections::HashMap;

/// A store in memory. A write fails when the row has changed since the
/// writer looked it up, or when a failure was ordered.
#[derive(Default)]
struct MemoryStore {
    rows: HashMap<u128, (u64, Vec<u8>)>,
    failures_to_come: u32,
    inserts: u32,
    updates: u32,
}

impl MemoryStore {
    fn revision(&self, id: Id) -> u64 {
        self.rows.get(&id.0).map(|row| row.0).unwrap_or(0)
    }

    fn find(&self, id: Id) -> Option<Vec<u8>> {
        self.rows.get(&id.0).map(|row| row.1.clone())
    }

    fn write(&mut self, id: Id, seen: u64, bytes: Vec<u8>, insert: bool) -> bool {
        if self.failures_to_come > 0 {
            self.failures_to_come -= 1;
            return false;
        }
        if self.revision(id) != seen || insert == self.rows.contains_key(&id.0) {
            return false;
        }
        if insert {
            self.inserts += 1;
        } else {
            self.updates += 1;
        }
        self.rows.insert(id.0, (seen + 1, bytes));
        true
    }
}

fn print(contents: &BasketContents) -> Vec<u8> {
    let ids: Vec<String> =
        contents.0.profiles_to_check.iter().map(|p| format!("{}", p.id.0)).collect();
    format!("V1:{}", ids.join(",")).into_bytes()
}

fn parse(payload: &[u8]) -> Option<Version> {
    let text = std::str::from_utf8(payload).ok()?;
    let list = text.strip_prefix("V1:")?;
    let mut contents = BasketContentsV1::default();
    for part in list.split(',').filter(|part| !part.is_empty()) {
        let id = part.parse::<u128>().ok()?;
        contents.profiles_to_check.push(Profile { id: Id(id), ..Default::default() });
    }
    Some(Version::V1(contents))
}

fn profile_ids(basket: &Basket) -> Vec<u128> {
    basket.contents.0.profiles_to_check.iter().map(|p| p.id.0).collect()
}

fn add_profile(id: u128) -> impl FnMut(&mut Basket) -> Result<(), String> {
    move |basket| {
        basket.contents.0.profiles_to_check.push(Profile { id: Id(id), ..Default::default() });
        Ok(())
    }
}

/// One update, driven step by step so that two of them can be interleaved.
struct Driver<F> {
    session: Option<UpdateSession>,
    command: Option<Command>,
    mutator: F,
    seen: u64,
    waits: Vec<u64>,
    loads: u32,
    mutator_runs: u32,
    baskets_seen: Vec<Basket>,
    rejection: Option<String>,
    outcome: Option<Result<Basket, UpdateError>>,
}

impl<F: FnMut(&mut Basket) -> Result<(), String>> Driver<F> {
    fn new(id: Id, policy: RetryPolicy, mutator: F) -> Self {
        let (session, command) = UpdateSession::begin(id, policy);
        Driver {
            session: Some(session),
            command: Some(command),
            mutator,
            seen: 0,
            waits: Vec::new(),
            loads: 0,
            mutator_runs: 0,
            baskets_seen: Vec::new(),
            rejection: None,
            outcome: None,
        }
    }

    /// Carries out the pending command. Says whether the update goes on.
    fn step(&mut self, store: &mut MemoryStore) -> bool {
        let event = match self.command.take().unwrap() {
            Command::Load { id } => {
                self.loads += 1;
                self.seen = store.revision(id);
                match store.find(id) {
                    Some(bytes) => Event::RowFound { bytes },
                    None => Event::RowMissing,
                }
            }
            Command::Parse { payload } => match parse(&payload) {
                Some(contents) => Event::Parsed { contents },
                None => Event::Unparsable,
            },
            Command::Mutate { mut basket } => {
                self.mutator_runs += 1;
                self.baskets_seen.push(basket.clone());
                match (self.mutator)(&mut basket) {
                    Ok(()) => {
                        let payload = print(&basket.contents);
                        Event::Mutated { basket, payload }
                    }
                    Err(reason) => {
                        self.rejection = Some(reason);
                        Event::Rejected
                    }
                }
            }
            Command::Insert { id, bytes } => {
                if store.write(id, self.seen, bytes, true) {
                    Event::Committed
                } else {
                    Event::StoreFailed
                }
            }
            Command::Update { id, bytes } => {
                if store.write(id, self.seen, bytes, false) {
                    Event::Committed
                } else {
                    Event::StoreFailed
                }
            }
            Command::Wait { millis } => {
                self.waits.push(millis);
                Event::Waited
            }
            Command::Succeed { basket } => {
                self.outcome = Some(Ok(basket));
                return false;
            }
            Command::Fail { error } => {
                self.outcome = Some(Err(error));
                return false;
            }
        };
        let (session, command) = self.session.take().unwrap().handle(event);
        self.session = Some(session);
        self.command = Some(command);
        true
    }

    fn run(&mut self, store: &mut MemoryStore) -> Result<Basket, UpdateError> {
        while self.step(store) {}
        assert!(self.session.as_ref().unwrap().is_finished());
        self.outcome.clone().unwrap()
    }

    fn run_until_write(&mut self, store: &mut MemoryStore) {
        while !matches!(self.command, Some(Command::Insert { .. }) | Some(Command::Update { .. })) {
            assert!(self.step(store));
        }
    }
}

#[test]
fn an_update_of_a_missing_basket_creates_one_row() {
    let mut store = MemoryStore::default();
    let mut driver = Driver::new(Id(77), RetryPolicy::standard(), add_profile(1));

    let basket = driver.run(&mut store).unwrap();

    assert_eq!(driver.baskets_seen, vec![Basket { id: Id(77), contents: Default::default() }]);
    assert_eq!(driver.baskets_seen[0], Basket::new(Id(77)));
    assert_eq!(basket.id, Id(77));
    assert_eq!(profile_ids(&basket), vec![1]);
    assert_eq!(store.rows.len(), 1);
    assert_eq!((store.inserts, store.updates), (1, 0));
    assert_eq!(store.find(Id(77)), Some(b"\x01V1:1".to_vec()));
    assert!(driver.waits.is_empty());
}

#[test]
fn an_update_that_changes_nothing_still_creates_the_row() {
    let mut store = MemoryStore::default();
    let mut driver = Driver::new(Id(5), RetryPolicy::standard(), |_: &mut Basket| Ok(()));
    let basket = driver.run(&mut store).unwrap();
    assert_eq!(basket, Basket::new(Id(5)));
    assert_eq!(store.find(Id(5)), Some(b"\x01V1:".to_vec()));
    assert_eq!((store.inserts, store.updates), (1, 0));
}

#[test]
fn an_update_of_a_stored_basket_writes_over_its_row() {
    let mut store = MemoryStore::default();
    Driver::new(Id(77), RetryPolicy::standard(), add_profile(1)).run(&mut store).unwrap();

    let mut driver = Driver::new(Id(77), RetryPolicy::standard(), add_profile(2));
    let basket = driver.run(&mut store).unwrap();

    assert_eq!(profile_ids(&driver.baskets_seen[0]), vec![1]);
    assert_eq!(profile_ids(&basket), vec![1, 2]);
    assert_eq!(store.rows.len(), 1);
    assert_eq!((store.inserts, store.updates), (1, 1));
    assert_eq!(store.find(Id(77)), Some(b"\x01V1:1,2".to_vec()));
}

#[test]
fn two_updates_at_once_are_both_applied() {
    let mut store = MemoryStore::default();
    Driver::new(Id(9), RetryPolicy::standard(), add_profile(1)).run(&mut store).unwrap();

    let mut first = Driver::new(Id(9), RetryPolicy::standard(), add_profile(2));
    let mut second = Driver::new(Id(9), RetryPolicy::standard(), add_profile(3));
    first.run_until_write(&mut store);
    second.run_until_write(&mut store);

    let first_basket = first.run(&mut store).unwrap();
    let second_basket = second.run(&mut store).unwrap();

    assert_eq!(profile_ids(&first_basket), vec![1, 2]);
    assert_eq!(profile_ids(&second_basket), vec![1, 2, 3]);
    assert_eq!(store.find(Id(9)), Some(b"\x01V1:1,2,3".to_vec()));
    assert_eq!((first.loads, first.mutator_runs), (1, 1));
    assert!(first.waits.is_empty());
    assert_eq!((second.loads, second.mutator_runs), (2, 2));
    assert_eq!(second.waits, vec![10]);
    assert_eq!(profile_ids(&second.baskets_seen[0]), vec![1]);
    assert_eq!(profile_ids(&second.baskets_seen[1]), vec![1, 2]);
}

#[test]
fn two_creations_at_once_end_in_one_row_with_both_changes() {
    let mut store = MemoryStore::default();
    let mut first = Driver::new(Id(9), RetryPolicy::standard(), add_profile(2));
    let mut second = Driver::new(Id(9), RetryPolicy::standard(), add_profile(3));
    first.run_until_write(&mut store);
    second.run_until_write(&mut store);
    assert!(matches!(second.command, Some(Command::Insert { .. })));

    first.run(&mut store).unwrap();
    let basket = second.run(&mut store).unwrap();

    assert_eq!(profile_ids(&basket), vec![2, 3]);
    assert_eq!(store.rows.len(), 1);
    assert_eq!((store.inserts, store.updates), (1, 1));
    assert_eq!(second.waits, vec![10]);
}

#[test]
fn a_failed_write_is_repeated_after_a_wait() {
    let mut store = MemoryStore { failures_to_come: 1, ..Default::default() };
    let mut driver = Driver::new(Id(3), RetryPolicy::standard(), add_profile(8));
    let basket = driver.run(&mut store).unwrap();
    assert_eq!(profile_ids(&basket), vec![8]);
    assert_eq!(driver.waits, vec![10]);
    assert_eq!((driver.loads, driver.mutator_runs), (2, 2));
    assert_eq!(driver.session.unwrap().retries, 1);
}

#[test]
fn the_fifth_repetition_may_still_succeed() {
    let mut store = MemoryStore { failures_to_come: 5, ..Default::default() };
    let mut driver = Driver::new(Id(3), RetryPolicy::standard(), add_profile(8));
    let basket = driver.run(&mut store).unwrap();
    assert_eq!(profile_ids(&basket), vec![8]);
    assert_eq!(driver.waits, vec![10, 20, 40, 80, 160]);
    assert_eq!((driver.loads, driver.mutator_runs), (6, 6));
    assert_eq!(store.rows.len(), 1);
}

#[test]
fn a_store_that_keeps_failing_exhausts_the_retries() {
    let mut store = MemoryStore { failures_to_come: 6, ..Default::default() };
    let mut driver = Driver::new(Id(3), RetryPolicy::standard(), add_profile(8));
    assert_eq!(driver.run(&mut store), Err(UpdateError::RetriesExhausted));
    assert_eq!(driver.waits, vec![10, 20, 40, 80, 160]);
    assert_eq!((driver.loads, driver.mutator_runs), (6, 6));
    assert!(store.rows.is_empty());
    assert_eq!(store.failures_to_come, 0);
}

#[test]
fn a_policy_without_retries_gives_up_at_the_first_failure() {
    let mut store = MemoryStore { failures_to_come: 1, ..Default::default() };
    let policy = RetryPolicy { max_retries: 0, first_delay_ms: 10 };
    let mut driver = Driver::new(Id(3), policy, add_profile(8));
    assert_eq!(driver.run(&mut store), Err(UpdateError::RetriesExhausted));
    assert!(driver.waits.is_empty());
    assert_eq!(driver.loads, 1);
}

#[test]
fn a_rejected_change_is_not_repeated_and_writes_nothing() {
    let mut store = MemoryStore::default();
    Driver::new(Id(4), RetryPolicy::standard(), add_profile(1)).run(&mut store).unwrap();
    let stored = store.find(Id(4));

    let mut driver = Driver::new(Id(4), RetryPolicy::standard(), |basket: &mut Basket| {
        basket.contents.0.profiles_to_check.clear();
        Err(String::from("Profile ID not found"))
    });
    assert_eq!(driver.run(&mut store), Err(UpdateError::Rejected));
    assert_eq!(driver.rejection, Some(String::from("Profile ID not found")));
    assert_eq!((driver.loads, driver.mutator_runs), (1, 1));
    assert!(driver.waits.is_empty());
    assert_eq!(store.find(Id(4)), stored);
    assert_eq!((store.inserts, store.updates), (1, 0));
}

#[test]
fn a_rejected_change_to_a_missing_basket_creates_no_row() {
    let mut store = MemoryStore::default();
    let mut driver = Driver::new(Id(4), RetryPolicy::standard(), |_: &mut Basket| {
        Err(String::from("no"))
    });
    assert_eq!(driver.run(&mut store), Err(UpdateError::Rejected));
    assert!(store.rows.is_empty());
}

#[test]
fn a_row_with_an_unknown_format_tag_fails_the_update() {
    let mut store = MemoryStore::default();
    store.rows.insert(6, (1, vec![2, b'V', b'1', b':']));
    let mut driver = Driver::new(Id(6), RetryPolicy::standard(), add_profile(1));
    assert_eq!(
        driver.run(&mut store),
        Err(UpdateError::Decode(DecodeError::UnsupportedFormat { tag: 2 }))
    );
    assert_eq!((driver.loads, driver.mutator_runs), (1, 0));
    assert!(driver.waits.is_empty());
    assert_eq!(store.find(Id(6)), Some(vec![2, b'V', b'1', b':']));
}

#[test]
fn an_empty_row_fails_the_update() {
    let mut store = MemoryStore::default();
    store.rows.insert(6, (1, vec![]));
    let mut driver = Driver::new(Id(6), RetryPolicy::standard(), add_profile(1));
    assert_eq!(driver.run(&mut store), Err(UpdateError::Decode(DecodeError::Empty)));
    assert_eq!(driver.mutator_runs, 0);
}

#[test]
fn a_row_with_an_unknown_version_fails_the_update() {
    let mut store = MemoryStore::default();
    store.rows.insert(6, (1, b"\x01V7:1".to_vec()));
    let mut driver = Driver::new(Id(6), RetryPolicy::standard(), add_profile(1));
    assert_eq!(driver.run(&mut store), Err(UpdateError::Decode(DecodeError::MalformedPayload)));
    assert_eq!((driver.loads, driver.mutator_runs), (1, 0));
    assert_eq!(store.find(Id(6)), Some(b"\x01V7:1".to_vec()));
}

#[test]
fn a_session_begins_by_loading() {
    let (session, command) = UpdateSession::begin(Id(1), RetryPolicy::standard());
    assert_eq!(command, Command::Load { id: Id(1) });
    assert_eq!(
        session,
        UpdateSession {
            id: Id(1),
            policy: RetryPolicy::standard(),
            retries: 0,
            phase: Phase::Loading,
        }
    );
    assert!(!session.is_finished());
}

#[test]
fn each_step_of_a_creation_is_as_described() {
    let (session, _) = UpdateSession::begin(Id(1), RetryPolicy::standard());

    let (session, command) = session.handle(Event::RowMissing);
    assert_eq!(session.phase, Phase::Mutating { is_new: true });
    assert_eq!(command, Command::Mutate { basket: Basket::new(Id(1)) });

    let mut basket = Basket::new(Id(1));
    basket.contents.0.profiles_to_check.push(Profile::default());
    let (session, command) =
        session.handle(Event::Mutated { basket: basket.clone(), payload: vec![7, 8] });
    assert_eq!(session.phase, Phase::Writing { basket: basket.clone() });
    assert_eq!(command, Command::Insert { id: Id(1), bytes: vec![1, 7, 8] });

    let (session, command) = session.handle(Event::Committed);
    assert_eq!(session.phase, Phase::Finished);
    assert_eq!(command, Command::Succeed { basket });
    assert!(session.is_finished());
}

#[test]
fn each_step_of_a_change_to_a_stored_basket_is_as_described() {
    let (session, _) = UpdateSession::begin(Id(1), RetryPolicy::standard());

    let (session, command) = session.handle(Event::RowFound { bytes: vec![1, 7, 8] });
    assert_eq!(session.phase, Phase::Parsing);
    assert_eq!(command, Command::Parse { payload: vec![7, 8] });

    let mut contents = BasketContentsV1::default();
    contents.profiles_to_check.push(Profile { id: Id(3), ..Default::default() });
    let (session, command) = session.handle(Event::Parsed { contents: Version::V1(contents.clone()) });
    assert_eq!(session.phase, Phase::Mutating { is_new: false });
    let basket = Basket { id: Id(1), contents: BasketContents(contents) };
    assert_eq!(command, Command::Mutate { basket: basket.clone() });

    let (session, command) =
        session.handle(Event::Mutated { basket: basket.clone(), payload: vec![9] });
    assert_eq!(session.phase, Phase::Writing { basket: basket.clone() });
    assert_eq!(command, Command::Update { id: Id(1), bytes: vec![1, 9] });

    let (session, command) = session.handle(Event::StoreFailed);
    assert_eq!((session.phase.clone(), session.retries), (Phase::Waiting, 1));
    assert_eq!(command, Command::Wait { millis: 10 });

    let (session, command) = session.handle(Event::Waited);
    assert_eq!((session.phase.clone(), session.retries), (Phase::Loading, 1));
    assert_eq!(command, Command::Load { id: Id(1) });
}

#[test]
fn the_stored_basket_carries_the_identifier_of_the_session() {
    let (session, _) = UpdateSession::begin(Id(1), RetryPolicy::standard());
    let (session, _) = session.handle(Event::RowMissing);
    let renamed = Basket { id: Id(2), contents: Default::default() };
    let (session, command) = session.handle(Event::Mutated { basket: renamed, payload: vec![] });
    assert_eq!(command, Command::Insert { id: Id(1), bytes: vec![1] });
    let (_, command) = session.handle(Event::Committed);
    assert_eq!(command, Command::Succeed { basket: Basket::new(Id(1)) });
}

#[test]
fn a_failure_of_the_store_is_answered_in_every_phase_of_a_transaction() {
    let basket = Basket::new(Id(1));
    for phase in [
        Phase::Loading,
        Phase::Parsing,
        Phase::Mutating { is_new: true },
        Phase::Mutating { is_new: false },
        Phase::Writing { basket },
    ] {
        let session =
            UpdateSession { id: Id(1), policy: RetryPolicy::standard(), retries: 2, phase };
        let (next, command) = session.handle(Event::StoreFailed);
        assert_eq!((next.phase, next.retries), (Phase::Waiting, 3));
        assert_eq!(command, Command::Wait { millis: 40 });
    }
}

#[test]
fn what_comes_out_of_turn_ends_the_update() {
    let out_of_turn = Command::Fail { error: UpdateError::OutOfTurn };
    let fresh = || UpdateSession::begin(Id(1), RetryPolicy::standard()).0;

    for event in [
        Event::Parsed { contents: Version::V1(Default::default()) },
        Event::Unparsable,
        Event::Mutated { basket: Basket::new(Id(1)), payload: vec![] },
        Event::Rejected,
        Event::Committed,
        Event::Waited,
    ] {
        let (next, command) = fresh().handle(event);
        assert_eq!(next.phase, Phase::Finished);
        assert_eq!(command, out_of_turn);
    }

    let (waiting, _) = fresh().handle(Event::StoreFailed);
    for event in [Event::StoreFailed, Event::RowMissing, Event::RowFound { bytes: vec![1] }] {
        let (next, command) = waiting.clone().handle(event);
        assert_eq!((next.phase, next.retries), (Phase::Finished, 1));
        assert_eq!(command, out_of_turn);
    }

    let (finished, _) = fresh().handle(Event::Committed);
    for event in [Event::StoreFailed, Event::RowMissing, Event::Waited, Event::Committed] {
        let (next, command) = finished.clone().handle(event);
        assert_eq!(next, finished);
        assert_eq!(command, out_of_turn);
    }
}

#[test]
fn an_update_starts_from_what_is_stored_or_from_a_fresh_basket() {
    assert_eq!(create_or_load_for_update(Id(3), None), (Basket::new(Id(3)), true));

    let mut contents = BasketContentsV1::default();
    contents.profiles_to_check.push(Profile { id: Id(8), ..Default::default() });
    let stored = BasketContents(contents);
    assert_eq!(
        create_or_load_for_update(Id(3), Some(stored.clone())),
        (Basket { id: Id(3), contents: stored }, false)
    );
    assert_eq!(
        create_or_load_for_update(Id(3), Some(BasketContents::default())),
        (Basket::new(Id(3)), false)
    );
}
