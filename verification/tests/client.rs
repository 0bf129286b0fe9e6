use alkahest::client::{ClientError, PyAlkahestClient};
use alkahest::oracle::{demand_from_escrow_data, DemandError};
use alkahest::primitives::{Address, B256};
use alloy::sol_types::SolValue;

fn address_bytes(a: [u8; 20], b: &[u8]) -> Vec<u8> {
    (alloy::primitives::Address::from(a), alloy::primitives::Bytes::from(b.to_vec())).abi_encode()
}

#[test]
fn fulfillment_query_parses_address_then_uid() {
    let addr = format!("0x{}", "11".repeat(20));
    let uid = format!("0x{}", "2a".repeat(32));
    let (a, u) = PyAlkahestClient::fulfillment_query(&addr, &uid).unwrap();
    assert_eq!(a, Address([0x11; 20]));
    assert_eq!(u, B256([0x2a; 32]));
    // Without prefix and in upper case.
    let (a, _) = PyAlkahestClient::fulfillment_query(&"AB".repeat(20), &"00".repeat(32)).unwrap();
    assert_eq!(a, Address([0xab; 20]));
    assert_eq!(
        PyAlkahestClient::fulfillment_query("0x1234", "zz"),
        Err(ClientError::InvalidAddress)
    );
    assert_eq!(
        PyAlkahestClient::fulfillment_query(&addr, &"00".repeat(31)),
        Err(ClientError::InvalidUid)
    );
    assert_eq!(
        PyAlkahestClient::fulfillment_query(&addr, &format!("0x{}g", "0".repeat(63))),
        Err(ClientError::InvalidUid)
    );
}

#[test]
fn escrow_uid_needs_the_attestation_extension() {
    let uid = format!("0x{}", "07".repeat(32));
    let full = PyAlkahestClient::from_client();
    assert_eq!(full.escrow_attestation_uid(&uid), Ok(B256([7; 32])));
    assert_eq!(full.escrow_attestation_uid("0x07"), Err(ClientError::InvalidUid));
    let single = PyAlkahestClient::from_client_with_single_extension("attestation");
    assert_eq!(single.escrow_attestation_uid(&uid), Err(ClientError::AttestationUnavailable));
}

#[test]
fn demand_data_is_read_through_both_layers() {
    let inner = address_bytes([9; 20], b"is it done?");
    let outer = address_bytes([8; 20], &inner);
    let demand = demand_from_escrow_data(&outer).unwrap();
    assert_eq!(demand.oracle, Address([9; 20]));
    assert_eq!(demand.data, b"is it done?".to_vec());

    let client = PyAlkahestClient::from_client();
    let hex_text = format!("0x{}", alloy::hex::encode(&outer));
    assert_eq!(client.extract_demand_data(&hex_text).unwrap(), demand);
    assert_eq!(client.extract_demand_data(&hex_text[2..]).unwrap(), demand);
    assert_eq!(client.extract_demand_data("0xabc"), Err(DemandError::InvalidHex));
    assert_eq!(client.extract_demand_data("0x00"), Err(DemandError::InvalidArbiterDemand));
    let bad_inner = address_bytes([8; 20], &[1, 2, 3]);
    assert_eq!(demand_from_escrow_data(&bad_inner), Err(DemandError::InvalidDemandData));
}

#[test]
fn signers_from_text() {
    let addr = format!("0x{}", "33".repeat(20));
    let signer = PyAlkahestClient::command_signer(
        "waap-cli".to_string(),
        vec!["sign-digest".to_string(), "{digest}".to_string()],
        &addr,
        Some(vec!["--data".to_string(), "{typed_data}".to_string()]),
    )
    .unwrap();
    assert_eq!(signer.address(), Address([0x33; 20]));
    assert!(signer.uses_typed_data_command());
    let plain =
        PyAlkahestClient::command_signer("p".to_string(), vec![], &addr, None).unwrap();
    assert!(!plain.uses_typed_data_command());
    assert!(matches!(
        PyAlkahestClient::command_signer("p".to_string(), vec![], "0x33", None),
        Err(ClientError::InvalidAddress)
    ));

    // The well-known first development key.
    let key = "0xac0974bec39a17e36ba4a6b4d238ff944bacb478cbed5efcae784d7bf4f2ff80";
    let local = PyAlkahestClient::local_signer(key).unwrap();
    let expected: alloy::primitives::Address =
        "0xf39Fd6e51aad88F6F4ce6aB8827279cffFb92266".parse().unwrap();
    assert_eq!(local.address(), Address(expected.0 .0));
    assert_eq!(local.secret_bytes().0[0], 0xac);
    assert!(matches!(
        PyAlkahestClient::local_signer(&"00".repeat(32)),
        Err(ClientError::InvalidPrivateKey)
    ));
    assert!(matches!(PyAlkahestClient::local_signer("0x01"), Err(ClientError::InvalidPrivateKey)));
}
