use dharitri_mock::check::{CheckBytes, CheckBytesList};
use dharitri_mock::tx_input::Address;
use dharitri_mock::tx_log::{CheckLog, CheckLogList, TxLog};

fn addr(fill: u8) -> Address {
    Address { bytes: vec![fill; 32] }
}

fn sample_log() -> TxLog {
    TxLog {
        address: addr(7),
        endpoint: b"transferEvent".to_vec(),
        topics: vec![b"topic0".to_vec(), b"topic1".to_vec()],
        data: b"payload".to_vec(),
    }
}

fn exact_pattern_of(log: &TxLog) -> CheckLog {
    CheckLog {
        address: CheckBytes::Equal(log.address.bytes.clone()),
        endpoint: CheckBytes::Equal(log.endpoint.clone()),
        topics: CheckBytesList::Equal(
            log.topics.iter().map(|t| CheckBytes::Equal(t.clone())).collect(),
        ),
        data: CheckBytes::Equal(log.data.clone()),
    }
}

#[test]
fn test_wildcard_pattern_matches_any_log() {
    let pattern = CheckLog {
        address: CheckBytes::Unspecified,
        endpoint: CheckBytes::Star,
        topics: CheckBytesList::Unspecified,
        data: CheckBytes::Star,
    };
    assert!(sample_log().denali_check(&pattern));
    let other = TxLog {
        address: addr(99),
        endpoint: vec![],
        topics: vec![],
        data: vec![0, 1, 2],
    };
    assert!(other.denali_check(&pattern));
}

#[test]
fn test_exact_pattern_accepts_equal_log() {
    let log = sample_log();
    let pattern = exact_pattern_of(&log);
    assert!(log.denali_check(&pattern));
}

#[test]
fn test_exact_pattern_rejects_single_byte_difference() {
    let log = sample_log();
    let pattern = exact_pattern_of(&log);

    let mut changed = log.duplicate();
    changed.data[0] ^= 1;
    assert!(!changed.denali_check(&pattern));

    let mut changed = log.duplicate();
    changed.endpoint[3] ^= 1;
    assert!(!changed.denali_check(&pattern));

    let mut changed = log.duplicate();
    changed.topics[1][0] ^= 1;
    assert!(!changed.denali_check(&pattern));

    let mut changed = log.duplicate();
    changed.address.bytes[31] ^= 1;
    assert!(!changed.denali_check(&pattern));
}

#[test]
fn test_topic_list_length_must_match_exact_pattern() {
    let log = sample_log();
    let pattern = exact_pattern_of(&log);
    let mut fewer = log.duplicate();
    fewer.topics.pop();
    assert!(!fewer.denali_check(&pattern));
}

#[test]
fn test_log_list_check() {
    let log = sample_log();
    let logs = vec![log.duplicate()];
    assert!(CheckLogList::Unspecified.check(&logs));
    assert!(CheckLogList::Star.check(&logs));
    let exact = CheckLogList::Equal(vec![exact_pattern_of(&log)]);
    assert!(exact.check(&logs));
    // an unmatched actual log fails in exact mode
    let two = vec![log.duplicate(), log.duplicate()];
    assert!(!exact.check(&two));
    // a required pattern with no actual log fails too
    assert!(!exact.check(&vec![]));
}

#[test]
fn test_unordered_log_list_check() {
    let log = sample_log();
    let other = TxLog {
        address: addr(9),
        endpoint: b"otherEvent".to_vec(),
        topics: vec![],
        data: vec![],
    };
    // order does not matter and extra actual logs are tolerated
    let unordered = CheckLogList::Unordered(vec![exact_pattern_of(&other), exact_pattern_of(&log)]);
    let logs = vec![log.duplicate(), other.duplicate(), log.duplicate()];
    assert!(unordered.check(&logs));
    // an unmatched required pattern is a verification failure
    let missing = CheckLogList::Unordered(vec![exact_pattern_of(&other)]);
    assert!(!missing.check(&vec![log.duplicate()]));
}
