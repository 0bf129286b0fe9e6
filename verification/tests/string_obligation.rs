use alkahest::obligations::string_obligation::{
    extract_obligation_data, ExtractError, StringObligationAddresses, StringObligationContract,
    StringObligationData, StringObligationModule,
};
use alkahest::primitives::{Address, B256};

fn word(n: usize) -> Vec<u8> {
    let mut w = vec![0u8; 32];
    w[24..].copy_from_slice(&(n as u64).to_be_bytes());
    w
}

#[test]
fn string_test_encode_decode_roundtrip() {
    let data = StringObligationData { item: "hello world".to_string(), schema: B256([0x44; 32]) };
    let encoded = StringObligationModule::encode(&data);
    let decoded = StringObligationModule::decode(&encoded).unwrap();
    assert_eq!(decoded.item, data.item);
    assert_eq!(decoded.schema, data.schema);
}

#[test]
fn test_encode_decode_zero_schema() {
    let data = StringObligationData { item: "test".to_string(), schema: B256([0; 32]) };
    let encoded = StringObligationModule::encode(&data);
    let decoded = StringObligationModule::decode(&encoded).unwrap();
    assert_eq!(decoded.item, "test");
    assert_eq!(decoded.schema, B256([0; 32]));
}

#[test]
fn test_encode_json_roundtrip() {
    let mut map = serde_json::Map::new();
    map.insert("value".to_string(), serde_json::Value::from(42u32));
    map.insert("name".to_string(), serde_json::Value::from("test"));
    let test_data = serde_json::Value::Object(map);

    let schema = B256([0x44; 32]);
    let json = serde_json::to_string(&test_data).unwrap();
    let encoded = StringObligationModule::encode_item(json, Some(schema));
    let decoded = StringObligationModule::decode(&encoded).unwrap();
    let back: serde_json::Value = serde_json::from_str(&decoded.item).unwrap();
    assert_eq!(back, test_data);
    assert_eq!(decoded.schema, schema);
}

#[test]
fn string_test_deterministic_encoding() {
    let data = StringObligationData { item: "hello".to_string(), schema: B256([0x44; 32]) };
    assert_eq!(StringObligationModule::encode(&data), StringObligationModule::encode(&data));
}

#[test]
fn string_test_roundtrip_encode_decode_encode() {
    let data = StringObligationData { item: "roundtrip".to_string(), schema: B256([0x44; 32]) };
    let encoded1 = StringObligationModule::encode(&data);
    let decoded = StringObligationModule::decode(&encoded1).unwrap();
    let encoded2 = StringObligationModule::encode(&decoded);
    assert_eq!(encoded1, encoded2);
}

#[test]
fn string_encoding_is_the_abi_layout() {
    let data = StringObligationData { item: "héllo".to_string(), schema: B256([0x44; 32]) };
    let encoded = StringObligationModule::encode(&data);
    let mut expected = Vec::new();
    expected.extend(word(32));
    expected.extend(word(64));
    expected.extend([0x44u8; 32]);
    expected.extend(word(6));
    let mut tail = "héllo".as_bytes().to_vec();
    tail.resize(32, 0);
    expected.extend(tail);
    assert_eq!(encoded, expected);
}

#[test]
fn encode_item_uses_zero_schema_by_default() {
    let encoded = StringObligationModule::encode_item("x".to_string(), None);
    let decoded = StringObligationModule::decode(&encoded).unwrap();
    assert_eq!(decoded.schema, B256([0; 32]));
    assert_eq!(decoded.item, "x");
}

#[test]
fn extract_obligation_data_reads_hex_with_or_without_prefix() {
    let data = StringObligationData { item: "fulfilled".to_string(), schema: B256([1; 32]) };
    let encoded = StringObligationModule::encode(&data);
    let hex_text = alloy::hex::encode(&encoded);
    assert_eq!(extract_obligation_data(&hex_text).unwrap(), "fulfilled");
    assert_eq!(extract_obligation_data(&format!("0x{}", hex_text)).unwrap(), "fulfilled");
    assert_eq!(extract_obligation_data("0xzz"), Err(ExtractError::InvalidHex));
    assert_eq!(extract_obligation_data("abc"), Err(ExtractError::InvalidHex));
    assert_eq!(extract_obligation_data("0x0102"), Err(ExtractError::InvalidObligation));
}

#[test]
fn string_do_obligation_call_fills_defaults() {
    let call = StringObligationModule::do_obligation_call("item".to_string(), None, None);
    assert_eq!(call.data.item, "item");
    assert_eq!(call.data.schema, B256([0; 32]));
    assert_eq!(call.ref_uid, B256([0; 32]));
    let call =
        StringObligationModule::do_obligation_call("item".to_string(), Some(B256([3; 32])), Some(B256([4; 32])));
    assert_eq!(call.data.schema, B256([3; 32]));
    assert_eq!(call.ref_uid, B256([4; 32]));
}

#[test]
fn string_module_addresses() {
    let module = StringObligationModule::new(StringObligationAddresses {
        eas: Address([1; 20]),
        obligation: Address([2; 20]),
    });
    assert_eq!(module.address(StringObligationContract::Eas), Address([1; 20]));
    assert_eq!(module.address(StringObligationContract::Obligation), Address([2; 20]));
}

#[test]
fn string_do_obligation_calldata_layout() {
    let module = StringObligationModule::new(StringObligationAddresses {
        eas: Address([1; 20]),
        obligation: Address([2; 20]),
    });
    let (target, calldata) =
        module.do_obligation_calldata("abc".to_string(), Some(B256([5; 32])), None);
    assert_eq!(target, Address([2; 20]));
    let hash = alloy::primitives::keccak256("doObligation((string,bytes32),bytes32)".as_bytes());
    let mut expected = hash[..4].to_vec();
    expected.extend(word(64));
    expected.extend([0u8; 32]);
    expected.extend(word(64));
    expected.extend([5u8; 32]);
    expected.extend(word(3));
    let mut tail = b"abc".to_vec();
    tail.resize(32, 0);
    expected.extend(tail);
    assert_eq!(calldata, expected);
}
