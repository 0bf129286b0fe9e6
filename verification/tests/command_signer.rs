use alkahest::command_signer::{
    parse_signature_output, AlkahestSigner, CommandSigner, LocalSigner, SignerError,
};
use alkahest::primitives::{Address, B256};
use alloy::signers::local::PrivateKeySigner;
use alloy::signers::SignerSync;

fn to_address(a: alloy::primitives::Address) -> Address {
    Address(a.0 .0)
}

fn signer() -> CommandSigner {
    CommandSigner::new(
        "waap-cli".to_string(),
        vec!["sign-digest".to_string(), "--digest={digest}".to_string(), "{digest}{digest}".to_string()],
        Address([7; 20]),
    )
}

#[test]
fn alkahest_signer_local_variant_address() {
    let pk = PrivateKeySigner::random();
    let local = LocalSigner::from_secret(B256(pk.to_bytes().0)).unwrap();
    let signer = AlkahestSigner::Local(local);
    assert_eq!(signer.address(), to_address(pk.address()));
}

#[test]
fn local_signer_rejects_zero_secret() {
    assert!(LocalSigner::from_secret(B256([0; 32])).is_none());
}

#[test]
fn digest_invocation_substitutes_every_token() {
    let s = signer();
    let inv = s.digest_invocation(&B256([0xab; 32]));
    let hexd = format!("0x{}", "ab".repeat(32));
    assert_eq!(inv.program, "waap-cli");
    assert_eq!(
        inv.args,
        vec!["sign-digest".to_string(), format!("--digest={}", hexd), format!("{}{}", hexd, hexd)]
    );
}

#[test]
fn typed_data_invocation_only_when_configured() {
    let s = signer();
    assert!(!s.uses_typed_data_command());
    assert!(s.typed_data_invocation("{}").is_none());
    let s = s.with_typed_data_command(vec![
        "sign-typed-data".to_string(),
        "--data".to_string(),
        "{typed_data}".to_string(),
    ]);
    assert!(s.uses_typed_data_command());
    let inv = s.typed_data_invocation("{\"a\":1}").unwrap();
    assert_eq!(inv.program, "waap-cli");
    assert_eq!(
        inv.args,
        vec!["sign-typed-data".to_string(), "--data".to_string(), "{\"a\":1}".to_string()]
    );
}

#[test]
fn chain_id_is_set_and_read_back() {
    let mut s: AlkahestSigner = AlkahestSigner::Command(signer());
    assert_eq!(s.chain_id(), None);
    s.set_chain_id(Some(84532));
    assert_eq!(s.chain_id(), Some(84532));
    assert_eq!(s.address(), Address([7; 20]));
}

#[test]
fn parses_a_printed_signature() {
    let pk = PrivateKeySigner::random();
    let digest = alloy::primitives::B256::repeat_byte(0x11);
    let expected = pk.sign_hash_sync(&digest).unwrap();
    let printed = format!("  0x{}\n", alloy::hex::encode(expected.as_bytes()));
    let got = parse_signature_output(&printed).unwrap();
    assert_eq!(got.r.0, expected.r().to_be_bytes::<32>());
    assert_eq!(got.s.0, expected.s().to_be_bytes::<32>());
    assert_eq!(got.y_parity, expected.v());
}

#[test]
fn parse_signature_output_errors() {
    assert_eq!(parse_signature_output("0xnothex"), Err(SignerError::InvalidHex));
    assert_eq!(parse_signature_output("0x0102"), Err(SignerError::InvalidSignature));
    let mut bad_v = "11".repeat(64);
    bad_v.push_str("05");
    assert_eq!(parse_signature_output(&bad_v), Err(SignerError::InvalidSignature));
    let mut v27 = "22".repeat(64);
    v27.push_str("1b");
    let sig = parse_signature_output(&format!("0x0x{}", v27)).unwrap();
    assert!(!sig.y_parity);
    assert_eq!(sig.r.0, [0x22; 32]);
}

#[test]
fn command_result_reports_failed_commands() {
    let s = signer();
    let r = s.command_result(false, "", "denied");
    assert_eq!(
        r,
        Err(SignerError::CommandFailed { program: "waap-cli".to_string(), stderr: "denied".to_string() })
    );
    let mut v28 = "33".repeat(64);
    v28.push_str("1c");
    let sig = s.command_result(true, &v28, "").unwrap();
    assert!(sig.y_parity);
}

const MAIL_TYPED_DATA: &str = r#"{"types":{"EIP712Domain":[{"name":"name","type":"string"},{"name":"version","type":"string"}],"Mail":[{"name":"contents","type":"string"}]},"primaryType":"Mail","domain":{"name":"Test","version":"1"},"message":{"contents":"hello"}}"#;

#[test]
fn typed_data_signing_falls_back_to_the_eip712_digest() {
    let s = signer();
    let inv = s.typed_data_signing_invocation(MAIL_TYPED_DATA).unwrap();
    let td: alloy_dyn_abi::TypedData = serde_json::from_str(MAIL_TYPED_DATA).unwrap();
    let hash = td.eip712_signing_hash().unwrap();
    let hex_digest = format!("0x{}", alloy::hex::encode(hash.0));
    assert_eq!(inv.program, "waap-cli");
    assert_eq!(
        inv.args,
        vec![
            "sign-digest".to_string(),
            format!("--digest={}", hex_digest),
            format!("{}{}", hex_digest, hex_digest)
        ]
    );
    assert_eq!(s.digest_invocation(&B256(hash.0)), inv);
    assert_eq!(s.typed_data_signing_invocation("not json"), Err(SignerError::InvalidTypedData));
}

#[test]
fn typed_data_signing_prefers_the_typed_data_command() {
    let s = signer().with_typed_data_command(vec!["--data".to_string(), "{typed_data}".to_string()]);
    let inv = s.typed_data_signing_invocation("not json").unwrap();
    assert_eq!(inv.args, vec!["--data".to_string(), "not json".to_string()]);
}

#[test]
fn set_chain_id_keeps_the_command_signer() {
    let mut s: AlkahestSigner = AlkahestSigner::Command(signer());
    s.set_chain_id(Some(1));
    match s {
        AlkahestSigner::Command(c) => {
            assert_eq!(c.digest_invocation(&B256([0; 32])), signer().digest_invocation(&B256([0; 32])));
            assert_eq!(c.chain_id(), Some(1));
        }
        AlkahestSigner::Local(_) => panic!("kind changed"),
    }
}

#[test]
fn printed_signature_round_trip() {
    let r = [0x11u8; 32];
    let s = [0x22u8; 32];
    for (parity, v) in [(false, 27u8), (true, 28u8)] {
        let mut raw = r.to_vec();
        raw.extend_from_slice(&s);
        raw.push(v);
        let printed = format!("0x{}", alloy::hex::encode(&raw));
        let sig = parse_signature_output(&printed).unwrap();
        assert_eq!((sig.r.0, sig.s.0, sig.y_parity), (r, s, parity));
    }
}
