use alkahest::abi::DecodeError;
use alkahest::obligations::commit_reveal::{
    CommitRevealObligationAddresses, CommitRevealObligationContract, CommitRevealObligationData,
    CommitRevealObligationModule,
};
use alkahest::primitives::{Address, B256};
use alkahest::types::Attestation;

fn word(n: usize) -> Vec<u8> {
    let mut w = vec![0u8; 32];
    let b = (n as u64).to_be_bytes();
    w[24..].copy_from_slice(&b);
    w
}

fn sample() -> CommitRevealObligationData {
    CommitRevealObligationData {
        payload: vec![0xde, 0xad, 0xbe, 0xef],
        salt: B256([0x11; 32]),
        schema: B256([0x44; 32]),
    }
}

#[test]
fn commit_reveal_test_encode_decode_roundtrip() {
    let data = sample();
    let encoded = CommitRevealObligationModule::encode(&data);
    let decoded = CommitRevealObligationModule::decode(&encoded).unwrap();
    assert_eq!(decoded.payload, data.payload);
    assert_eq!(decoded.salt, data.salt);
    assert_eq!(decoded.schema, data.schema);
}

#[test]
fn test_encode_decode_empty_payload() {
    let data = CommitRevealObligationData {
        payload: vec![],
        salt: B256([0x11; 32]),
        schema: B256([0u8; 32]),
    };
    let encoded = CommitRevealObligationModule::encode(&data);
    let decoded = CommitRevealObligationModule::decode(&encoded).unwrap();
    assert_eq!(decoded.payload, data.payload);
    assert_eq!(decoded.salt, data.salt);
    assert_eq!(decoded.schema, data.schema);
}

#[test]
fn test_encode_decode_large_payload() {
    let large_payload = vec![0xab; 1000];
    let data = CommitRevealObligationData {
        payload: large_payload.clone(),
        salt: B256([0x11; 32]),
        schema: B256([0x44; 32]),
    };
    let encoded = CommitRevealObligationModule::encode(&data);
    let decoded = CommitRevealObligationModule::decode(&encoded).unwrap();
    assert_eq!(decoded.payload.as_slice(), large_payload.as_slice());
}

#[test]
fn commit_reveal_test_deterministic_encoding() {
    let data = sample();
    let encoded1 = CommitRevealObligationModule::encode(&data);
    let encoded2 = CommitRevealObligationModule::encode(&data);
    assert_eq!(encoded1, encoded2);
}

#[test]
fn commit_reveal_test_roundtrip_encode_decode_encode() {
    let data = sample();
    let encoded1 = CommitRevealObligationModule::encode(&data);
    let decoded = CommitRevealObligationModule::decode(&encoded1).unwrap();
    let encoded2 = CommitRevealObligationModule::encode(&decoded);
    assert_eq!(encoded1, encoded2);
}

#[test]
fn commit_reveal_encoding_is_the_abi_layout() {
    let data = sample();
    let encoded = CommitRevealObligationModule::encode(&data);
    let mut expected = Vec::new();
    expected.extend(word(32));
    expected.extend(word(96));
    expected.extend([0x11u8; 32]);
    expected.extend([0x44u8; 32]);
    expected.extend(word(4));
    let mut tail = vec![0xde, 0xad, 0xbe, 0xef];
    tail.resize(32, 0);
    expected.extend(tail);
    assert_eq!(encoded, expected);
    assert_eq!(encoded.len(), 192);
}

#[test]
fn commit_reveal_encoding_pads_to_whole_words() {
    let data = CommitRevealObligationData {
        payload: vec![7u8; 33],
        salt: B256([1; 32]),
        schema: B256([2; 32]),
    };
    let encoded = CommitRevealObligationModule::encode(&data);
    assert_eq!(encoded.len(), 32 * 5 + 64);
    assert_eq!(&encoded[128..160], word(33).as_slice());
    assert_eq!(encoded[160 + 32], 7);
    assert!(encoded[160 + 33..].iter().all(|b| *b == 0));
}

#[test]
fn commit_reveal_decode_rejects_short_input() {
    assert_eq!(
        CommitRevealObligationModule::decode(&[0u8; 10]).unwrap_err(),
        DecodeError::InvalidEncoding
    );
}

#[test]
fn commit_reveal_decode_obligation_keeps_attestation() {
    let data = sample();
    let attestation = Attestation {
        uid: B256([9; 32]),
        schema: B256([8; 32]),
        time: 1,
        expiration_time: 2,
        revocation_time: 0,
        ref_uid: B256([0; 32]),
        recipient: Address([3; 20]),
        attester: Address([4; 20]),
        revocable: true,
        data: CommitRevealObligationModule::encode(&data),
    };
    let decoded = CommitRevealObligationModule::decode_obligation(attestation.clone()).unwrap();
    assert_eq!(decoded.attestation, attestation);
    assert_eq!(decoded.data, data);

    let mut bad = attestation;
    bad.data = vec![1, 2, 3];
    assert!(CommitRevealObligationModule::decode_obligation(bad).is_err());
}

#[test]
fn commit_reveal_module_addresses() {
    let module = CommitRevealObligationModule::new(CommitRevealObligationAddresses {
        eas: Address([1; 20]),
        obligation: Address([2; 20]),
    });
    assert_eq!(module.address(CommitRevealObligationContract::Eas), Address([1; 20]));
    assert_eq!(module.address(CommitRevealObligationContract::Obligation), Address([2; 20]));
}

#[test]
fn commit_reveal_do_obligation_call_defaults_ref_uid_to_zero() {
    let call = CommitRevealObligationModule::do_obligation_call(sample(), None);
    assert_eq!(call.ref_uid, B256([0; 32]));
    assert_eq!(call.data, sample());
    let call = CommitRevealObligationModule::do_obligation_call(sample(), Some(B256([5; 32])));
    assert_eq!(call.ref_uid, B256([5; 32]));
}
