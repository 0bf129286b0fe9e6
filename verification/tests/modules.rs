use alkahest::client::PyAlkahestClient;
use alkahest::obligations::attestation::{AttestationAddresses, AttestationContract, AttestationModule};
use alkahest::obligations::native_token::{NativeTokenAddresses, NativeTokenContract, NativeTokenModule};
use alkahest::primitives::{Address, B256};

fn a(n: u8) -> Address {
    Address([n; 20])
}

#[test]
fn attestation_module_addresses() {
    let m = AttestationModule::new(AttestationAddresses {
        eas: a(1),
        eas_schema_registry: a(2),
        barter_utils: a(3),
        escrow_obligation_nontierable: a(4),
        escrow_obligation_tierable: a(5),
        escrow_obligation_2_nontierable: a(6),
        escrow_obligation_2_tierable: a(7),
    });
    assert_eq!(m.address(AttestationContract::Eas), a(1));
    assert_eq!(m.address(AttestationContract::EasSchemaRegistry), a(2));
    assert_eq!(m.address(AttestationContract::BarterUtils), a(3));
    assert_eq!(m.address(AttestationContract::EscrowObligation), a(4));
    assert_eq!(m.address(AttestationContract::EscrowObligation2), a(6));
    assert_eq!(m.escrow().v2().non_tierable().address(), a(6));
}

#[test]
fn native_token_module_addresses() {
    let m = NativeTokenModule::new(NativeTokenAddresses {
        eas: a(1),
        barter_utils: a(2),
        escrow_obligation_nontierable: a(3),
        escrow_obligation_tierable: a(4),
        payment_obligation: a(5),
    });
    assert_eq!(m.address(NativeTokenContract::Eas), a(1));
    assert_eq!(m.address(NativeTokenContract::BarterUtils), a(2));
    assert_eq!(m.address(NativeTokenContract::EscrowObligation), a(3));
    assert_eq!(m.address(NativeTokenContract::PaymentObligation), a(5));
    assert_eq!(m.barter().module.addresses.barter_utils, a(2));
}

#[test]
fn address_and_word_helpers() {
    assert!(Address::zero().is_zero());
    assert!(!a(1).is_zero());
    assert!(a(1).same(&a(1)));
    assert!(!a(1).same(&a(2)));
    assert!(B256::zero().same(&B256([0; 32])));
    assert!(!B256::zero().same(&B256([1; 32])));
}

#[test]
fn extension_lists_and_lookups() {
    let all = PyAlkahestClient::from_client();
    let names = all.list_extensions();
    assert_eq!(
        names,
        vec!["erc20", "erc721", "erc1155", "token_bundle", "attestation", "string_obligation", "oracle"]
    );
    for n in &names {
        assert!(all.has_extension(n.clone()));
        assert!(!PyAlkahestClient::from_client_with_single_extension("erc20").has_extension(n.clone()));
    }
    assert!(!all.has_extension("erc4626".to_string()));
    let mut some = PyAlkahestClient::from_client_with_single_extension("erc20");
    some.oracle = true;
    assert!(some.has_extension("oracle".to_string()));
    assert!(!some.has_extension("erc20".to_string()));
    assert_eq!(some.list_extensions(), vec!["oracle"]);
    some.erc1155 = true;
    assert_eq!(some.list_extensions(), vec!["erc1155", "oracle"]);
    assert!(PyAlkahestClient::from_client_with_single_extension("erc20").list_extensions().is_empty());
}

#[test]
fn permit_v_adds_parity_to_27() {
    assert_eq!(alkahest::obligations::erc20::permit_v(false), 27);
    assert_eq!(alkahest::obligations::erc20::permit_v(true), 28);
}
