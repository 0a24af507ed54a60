use checkout::versions::{upgrade_through, Upgrade, UpgradeError, UpgradeStep};

#[derive(Debug, PartialEq)]
struct CountV1(u32);

#[derive(Debug, PartialEq)]
struct CountV2(u64);

#[derive(Debug, PartialEq)]
struct Count(CountV2);

impl Upgrade for CountV1 {
    type Wrapper = Count;
    type Target = CountV2;

    fn is_latest() -> bool {
        false
    }

    fn upgraded(self) -> CountV2 {
        CountV2(u64::from(self.0) + 10)
    }

    fn fully_upgraded(self) -> Count {
        Count(self.upgraded())
    }

    fn upgrade(self) -> Result<CountV2, UpgradeError> {
        Ok(CountV2(u64::from(self.0) + 10))
    }

    fn upgrade_full(self) -> Count {
        upgrade_through(self)
    }
}

impl UpgradeStep for CountV1 {
    fn lemma_has_successor() {}

    fn lemma_full_upgrade_is_chain(self) {}
}

impl Upgrade for CountV2 {
    type Wrapper = Count;
    type Target = CountV2;

    fn is_latest() -> bool {
        true
    }

    fn upgraded(self) -> CountV2 {
        self
    }

    fn fully_upgraded(self) -> Count {
        Count(self)
    }

    fn upgrade(self) -> Result<CountV2, UpgradeError> {
        Err(UpgradeError::AlreadyLatest)
    }

    fn upgrade_full(self) -> Count {
        Count(self)
    }
}

#[test]
fn version_one_upgrades_by_adding_ten_and_widening() {
    assert_eq!(CountV1(5).upgrade(), Ok(CountV2(15)));
    assert_eq!(CountV1(5).upgrade_full(), Count(CountV2(15)));
}

#[test]
fn latest_version_has_no_upgrade() {
    assert_eq!(CountV2(15).upgrade(), Err(UpgradeError::AlreadyLatest));
    assert_eq!(CountV2(15).upgrade_full(), Count(CountV2(15)));
}
