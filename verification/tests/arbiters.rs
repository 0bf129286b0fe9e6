use alkahest::arbiters::{
    AllArbiterDemandData, AnyArbiterDemandData, ArbitersAddresses, ArbitersModule,
    AttestationProperties, ConfirmationArbiterType, LogicalDecodeError, LogicalKind,
};
use alkahest::primitives::Address;

fn a(n: u8) -> Address {
    Address([n; 20])
}

fn module() -> ArbitersModule {
    ArbitersModule::new(ArbitersAddresses {
        eas: a(1),
        trivial_arbiter: a(2),
        trusted_oracle_arbiter: a(3),
        exclusive_revocable_confirmation_arbiter: a(4),
        exclusive_unrevocable_confirmation_arbiter: a(5),
        nonexclusive_revocable_confirmation_arbiter: a(6),
        nonexclusive_unrevocable_confirmation_arbiter: a(7),
    })
}

fn length_decoder(_arbiter: Address, demand: &Vec<u8>) -> Result<usize, String> {
    if demand.len() > 3 {
        Err(format!("too long: {}", demand.len()))
    } else {
        Ok(demand.len())
    }
}

#[test]
fn confirmation_arbiter_addresses() {
    let m = module();
    assert_eq!(m.confirmation_arbiter_address(ConfirmationArbiterType::ExclusiveRevocable), a(4));
    assert_eq!(m.confirmation_arbiter_address(ConfirmationArbiterType::ExclusiveUnrevocable), a(5));
    assert_eq!(m.confirmation_arbiter_address(ConfirmationArbiterType::NonexclusiveRevocable), a(6));
    assert_eq!(m.confirmation_arbiter_address(ConfirmationArbiterType::NonexclusiveUnrevocable), a(7));
    let c = m.confirmation();
    assert_eq!(c.exclusive_revocable().address(), a(4));
    assert_eq!(c.exclusive_unrevocable().address(), a(5));
    assert_eq!(c.nonexclusive_revocable().address(), a(6));
    assert_eq!(c.nonexclusive_unrevocable().address(), a(7));
    let p = AttestationProperties::new(&m);
    assert_eq!(p.module.addresses.eas, a(1));
}

#[test]
fn test_structured_logical_api() {
    let m = module();
    let all_demand = AllArbiterDemandData { arbiters: vec![a(2), a(2)], demands: vec![vec![], vec![]] };
    let decoded_all = m.decode_all_arbiter_demands(all_demand, length_decoder).unwrap();
    assert_eq!(decoded_all.arbiters.len(), 2);
    assert_eq!(decoded_all.demands.len(), 2);

    let any_demand = AnyArbiterDemandData { arbiters: vec![a(2)], demands: vec![vec![]] };
    let decoded_any = m.decode_any_arbiter_demands(any_demand, length_decoder).unwrap();
    assert_eq!(decoded_any.arbiters.len(), 1);
    assert_eq!(decoded_any.demands.len(), 1);
}

#[test]
fn logical_decode_keeps_order_and_values() {
    let m = module();
    let demand = AllArbiterDemandData { arbiters: vec![a(2), a(3), a(4)], demands: vec![vec![1], vec![], vec![1, 2, 3]] };
    let decoded = m.decode_all_arbiter_demands(demand, length_decoder).unwrap();
    assert_eq!(decoded.arbiters, vec![a(2), a(3), a(4)]);
    assert_eq!(decoded.demands, vec![1, 0, 3]);
}

#[test]
fn logical_decode_rejects_mismatched_arrays() {
    let m = module();
    let demand = AllArbiterDemandData { arbiters: vec![a(2), a(3)], demands: vec![vec![]] };
    let err = m.decode_all_arbiter_demands(demand, length_decoder).err().unwrap();
    assert_eq!(err, LogicalDecodeError::MismatchedArrays { kind: LogicalKind::All, arbiters: 2, demands: 1 });
    assert_eq!(
        err.mismatch_message().unwrap(),
        "AllArbiter has mismatched arrays: 2 arbiters vs 1 demands"
    );
    let demand = AnyArbiterDemandData { arbiters: vec![], demands: vec![vec![]] };
    let err = m.decode_any_arbiter_demands(demand, length_decoder).err().unwrap();
    assert_eq!(err, LogicalDecodeError::MismatchedArrays { kind: LogicalKind::Any, arbiters: 0, demands: 1 });
    assert_eq!(
        err.mismatch_message().unwrap(),
        "AnyArbiter has mismatched arrays: 0 arbiters vs 1 demands"
    );
}

#[test]
fn logical_decode_reports_first_failure() {
    let m = module();
    let demand = AnyArbiterDemandData {
        arbiters: vec![a(2), a(3), a(4)],
        demands: vec![vec![1], vec![1, 2, 3, 4], vec![1, 2, 3, 4, 5]],
    };
    let err = m.decode_any_arbiter_demands(demand, length_decoder).err().unwrap();
    assert_eq!(err, LogicalDecodeError::Demand("too long: 4".to_string()));
    assert_eq!(err.mismatch_message(), None);
}

#[test]
fn logical_accessors_share_the_module() {
    let m = module();
    let logical = m.logical();
    assert_eq!(logical.all().module.addresses.trivial_arbiter, a(2));
    assert_eq!(logical.any().module.addresses.trivial_arbiter, a(2));
}

#[test]
fn mismatch_message_writes_large_counts_in_decimal() {
    let err: LogicalDecodeError<String> =
        LogicalDecodeError::MismatchedArrays { kind: LogicalKind::All, arbiters: 1230, demands: 10 };
    assert_eq!(
        err.mismatch_message().unwrap(),
        "AllArbiter has mismatched arrays: 1230 arbiters vs 10 demands"
    );
}

#[test]
fn logical_decode_of_empty_lists_succeeds() {
    let m = module();
    let decoded = m
        .logical()
        .all()
        .decode(AllArbiterDemandData { arbiters: vec![], demands: vec![] }, length_decoder)
        .unwrap();
    assert!(decoded.arbiters.is_empty());
    assert!(decoded.demands.is_empty());
}
