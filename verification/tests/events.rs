use alkahest::events::{get_attested_event, AttestedLog, EventError, LogEntry};
use alkahest::primitives::{Address, B256};

fn attested_topic() -> B256 {
    B256(alloy::primitives::keccak256("Attested(address,address,bytes32,bytes32)".as_bytes()).0)
}

fn word_with_address(n: u8) -> B256 {
    let mut w = [0u8; 32];
    w[12..].copy_from_slice(&[n; 20]);
    B256(w)
}

fn attested_log(uid: u8) -> LogEntry {
    LogEntry {
        address: Address([9; 20]),
        topics: vec![attested_topic(), word_with_address(1), word_with_address(2), B256([3; 32])],
        data: vec![uid; 32],
    }
}

#[test]
fn attested_topic_is_the_eas_event_hash() {
    let expected = alloy::hex::decode("8bf46bf4cfd674fa735a3d63ec1c9ad4153f033c290341f3a588b75685141b35").unwrap();
    assert_eq!(attested_topic().0.to_vec(), expected);
}

#[test]
fn finds_the_first_attested_log() {
    let other = LogEntry { address: Address([5; 20]), topics: vec![B256([7; 32])], data: vec![] };
    let logs = vec![other, attested_log(0xaa), attested_log(0xbb)];
    let ev = get_attested_event(&logs).unwrap();
    assert_eq!(
        ev,
        AttestedLog {
            address: Address([9; 20]),
            recipient: Address([1; 20]),
            attester: Address([2; 20]),
            uid: B256([0xaa; 32]),
            schema_uid: B256([3; 32]),
        }
    );
}

#[test]
fn no_attested_log_is_an_error() {
    let logs = vec![LogEntry { address: Address([5; 20]), topics: vec![], data: vec![] }];
    assert_eq!(get_attested_event(&logs), Err(EventError::NoAttestedEvent));
    assert_eq!(get_attested_event(&vec![]), Err(EventError::NoAttestedEvent));
}

#[test]
fn malformed_first_attested_log_is_an_error() {
    let mut bad = attested_log(1);
    bad.data.truncate(31);
    let logs = vec![bad, attested_log(2)];
    assert_eq!(get_attested_event(&logs), Err(EventError::InvalidEventLog));
    let mut bad = attested_log(1);
    bad.topics.pop();
    assert_eq!(get_attested_event(&vec![bad]), Err(EventError::InvalidEventLog));
}
