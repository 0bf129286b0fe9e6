use alkahest::command_signer::Signature;
use alkahest::obligations::erc20::{
    BarterUtils, Erc20Addresses, Erc20Module, PermitAndPayCall, Payment, Tierable,
};
use alkahest::types::{ArbiterData, Erc20Data, Erc721Data};
use alkahest::obligations::escrow_data::{
    decode_erc1155_escrow, decode_erc20_escrow, decode_erc20_payment, decode_erc721_escrow,
    decode_erc20_escrow_obligation, decode_native_token_escrow, decode_token_bundle_escrow, erc20_payment_demand, EscrowKind,
    PaymentDemandError,
};
use alkahest::primitives::{Address, B256, U256};
use alloy::primitives::{Address as A, Bytes, U256 as W};
use alloy::sol_types::SolValue;

fn word(n: u64) -> U256 {
    U256(W::from(n).to_be_bytes::<32>())
}

fn payment(token: u8, amount: u64, payee: u8) -> Vec<u8> {
    (A::from([token; 20]), W::from(amount), A::from([payee; 20])).abi_encode()
}

fn module() -> Erc20Module {
    Erc20Module::new(Erc20Addresses {
        eas: Address([1; 20]),
        barter_utils: Address([2; 20]),
        escrow_obligation_nontierable: Address([3; 20]),
        escrow_obligation_tierable: Address([4; 20]),
        payment_obligation: Address([5; 20]),
    })
}

#[test]
fn escrow_data_of_each_kind_decodes() {
    let demand = payment(9, 500, 8);
    let e20 = (A::from([1; 20]), Bytes::from(demand.clone()), A::from([2; 20]), W::from(77u64)).abi_encode();
    let d = decode_erc20_escrow(&e20).unwrap();
    assert_eq!((d.arbiter, d.demand.clone(), d.token, d.amount), (Address([1; 20]), demand.clone(), Address([2; 20]), word(77)));
    let d = decode_erc721_escrow(&e20).unwrap();
    assert_eq!(d.token_id, word(77));
    let e1155 = (A::from([1; 20]), Bytes::from(demand.clone()), A::from([2; 20]), W::from(3u64), W::from(4u64)).abi_encode();
    let d = decode_erc1155_escrow(&e1155).unwrap();
    assert_eq!((d.token_id, d.amount), (word(3), word(4)));
    let native = (A::from([1; 20]), Bytes::from(demand.clone()), W::from(5u64)).abi_encode();
    assert_eq!(decode_native_token_escrow(&native).unwrap().amount, word(5));
    let bundle = (
        A::from([1; 20]),
        Bytes::from(demand.clone()),
        W::from(6u64),
        vec![A::from([7; 20])],
        vec![W::from(8u64)],
        Vec::<A>::new(),
        Vec::<W>::new(),
        Vec::<A>::new(),
        Vec::<W>::new(),
        Vec::<W>::new(),
    )
        .abi_encode();
    let d = decode_token_bundle_escrow(&bundle).unwrap();
    assert_eq!((d.arbiter, d.demand.clone(), d.native_amount), (Address([1; 20]), demand.clone(), word(6)));
    let p = decode_erc20_payment(&demand).unwrap();
    assert_eq!((p.token, p.amount, p.payee), (Address([9; 20]), word(500), Address([8; 20])));
    assert!(decode_erc20_escrow(&[0u8; 3]).is_err());

    for (kind, data) in [
        (EscrowKind::Erc20, &e20),
        (EscrowKind::Erc721, &e20),
        (EscrowKind::Erc1155, &e1155),
        (EscrowKind::NativeToken, &native),
        (EscrowKind::TokenBundle, &bundle),
    ] {
        let d = erc20_payment_demand(kind, data).unwrap();
        assert_eq!((d.address, d.value), (Address([9; 20]), word(500)));
    }
}

#[test]
fn payment_demand_errors() {
    assert_eq!(erc20_payment_demand(EscrowKind::Erc20, &[1, 2, 3]), Err(PaymentDemandError::InvalidEscrow));
    let e20 = (A::from([1; 20]), Bytes::from(vec![1u8, 2]), A::from([2; 20]), W::from(77u64)).abi_encode();
    assert_eq!(erc20_payment_demand(EscrowKind::Erc20, &e20), Err(PaymentDemandError::InvalidDemand));
}

#[test]
fn permit_and_pay_flow_values() {
    let m = module();
    let b = BarterUtils::new(&m);
    let demand = payment(9, 500, 8);
    let native = (A::from([1; 20]), Bytes::from(demand), W::from(5u64)).abi_encode();
    let req = b.permit_and_pay_erc20_for_native(&native, word(1000)).unwrap();
    assert_eq!(req.spender, Address([2; 20]));
    assert_eq!((req.token.address, req.token.value, req.deadline), (Address([9; 20]), word(500), word(1000)));
    assert_eq!(b.permit_and_pay_erc20_for_erc20(&[0u8; 40], word(1)), Err(PaymentDemandError::InvalidEscrow));
    let sig = Signature { r: word(11), s: word(12), y_parity: true };
    let call = m.barter().permit_and_pay_call(EscrowKind::NativeToken, B256([4; 32]), word(1000), &sig);
    assert_eq!(
        call,
        PermitAndPayCall {
            target: Address([2; 20]),
            escrow_kind: EscrowKind::NativeToken,
            buy_attestation: B256([4; 32]),
            deadline: word(1000),
            v: 28,
            r: word(11),
            s: word(12),
        }
    );
}

#[test]
fn escrow_obligation_keeps_the_attestation() {
    let e20 = (A::from([1; 20]), Bytes::from(vec![7u8]), A::from([2; 20]), W::from(77u64)).abi_encode();
    let att = alkahest::types::Attestation {
        uid: B256([1; 32]),
        schema: B256([2; 32]),
        time: 10,
        expiration_time: 0,
        revocation_time: 0,
        ref_uid: B256([0; 32]),
        recipient: Address([3; 20]),
        attester: Address([4; 20]),
        revocable: true,
        data: e20,
    };
    let d = decode_erc20_escrow_obligation(att.clone()).unwrap();
    assert_eq!(d.attestation, att);
    assert_eq!((d.data.demand, d.data.amount), (vec![7u8], word(77)));
    let mut bad = att;
    bad.data = vec![1, 2];
    assert!(decode_erc20_escrow_obligation(bad).is_err());
}

#[test]
fn payment_data_is_read_word_by_word() {
    let mut data: Vec<u8> = (0u8..100).collect();
    let p = decode_erc20_payment(&data).unwrap();
    assert_eq!(p.token.0.to_vec(), data[12..32].to_vec());
    assert_eq!(p.amount.0.to_vec(), data[32..64].to_vec());
    assert_eq!(p.payee.0.to_vec(), data[76..96].to_vec());
    data.truncate(95);
    assert!(decode_erc20_payment(&data).is_err());
}

#[test]
fn permit_buy_pay_and_create_calls() {
    let m = module();
    let sig = Signature { r: word(1), s: word(2), y_parity: false };
    let bid = Erc20Data { address: Address([9; 20]), value: word(100) };
    let ask = Erc721Data { address: Address([8; 20]), id: word(7) };
    let b = m.barter();
    let req = b.buy_permit_request(bid, word(50));
    assert_eq!(req.spender, Address([2; 20]));
    let call = b.permit_and_buy_erc721_for_erc20(bid, ask, 99, word(50), &sig);
    assert_eq!(call.target, Address([2; 20]));
    assert_eq!((call.bid, call.ask, call.expiration, call.deadline), (bid, ask, 99, word(50)));
    assert_eq!((call.v, call.r, call.s), (27, word(1), word(2)));

    let p = Payment::new(&m);
    assert_eq!(p.permit_request(bid, word(5)).spender, Address([2; 20]));
    let pay = p.permit_and_pay(bid, Address([6; 20]), word(5), &sig);
    assert_eq!((pay.target, pay.payee, pay.ref_uid, pay.v), (Address([2; 20]), Address([6; 20]), B256([0; 32]), 27));

    let t = Tierable::new(&m);
    assert_eq!(t.permit_request(bid, word(5)).spender, Address([4; 20]));
    let item = ArbiterData { arbiter: Address([1; 20]), demand: vec![1, 2] };
    let create = t.permit_and_create(bid, item.clone(), 10, word(5), &Signature { y_parity: true, ..sig });
    assert_eq!((create.target, create.item, create.v), (Address([2; 20]), item, 28));
}
