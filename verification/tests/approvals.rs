use alkahest::obligations::approvals::ApprovalCall;
use alkahest::obligations::erc1155::{Erc1155Addresses, Erc1155Module, Util as Erc1155Util};
use alkahest::obligations::erc20::{Erc20Addresses, Erc20Module, Payment, Tierable as Erc20Tierable};
use alkahest::obligations::erc721::{Erc721Addresses, Erc721Module, Tierable as Erc721Tierable, Util as Erc721Util};
use alkahest::obligations::token_bundle::{TokenBundleAddresses, TokenBundleModule, Util as BundleUtil};
use alkahest::primitives::{Address, U256};
use alkahest::types::{ApprovalPurpose, Erc1155Data, Erc20Data, Erc721Data, TokenBundleData};

fn a(n: u8) -> Address {
    Address([n; 20])
}

fn u(n: u8) -> U256 {
    let mut b = [0u8; 32];
    b[31] = n;
    U256(b)
}

fn bundle_module() -> TokenBundleModule {
    TokenBundleModule::new(TokenBundleAddresses {
        eas: a(1),
        barter_utils: a(2),
        escrow_obligation_nontierable: a(3),
        escrow_obligation_tierable: a(4),
        payment_obligation: a(5),
    })
}

fn bundle() -> TokenBundleData {
    TokenBundleData {
        native_amount: u(0),
        erc20s: vec![Erc20Data { address: a(10), value: u(1) }, Erc20Data { address: a(10), value: u(2) }],
        erc721s: vec![
            Erc721Data { address: a(20), id: u(1) },
            Erc721Data { address: a(21), id: u(2) },
            Erc721Data { address: a(20), id: u(3) },
        ],
        erc1155s: vec![
            Erc1155Data { address: a(30), id: u(1), value: u(5) },
            Erc1155Data { address: a(30), id: u(2), value: u(6) },
        ],
    }
}

#[test]
fn bundle_approvals_group_nft_contracts() {
    let module = bundle_module();
    let util = BundleUtil::new(&module);
    let calls = util.approve_calls(&bundle(), ApprovalPurpose::Escrow);
    assert_eq!(
        calls,
        vec![
            ApprovalCall::Erc20Approve { token: a(10), spender: a(3), amount: u(1) },
            ApprovalCall::Erc20Approve { token: a(10), spender: a(3), amount: u(2) },
            ApprovalCall::Erc721SetApprovalForAll { token: a(20), operator: a(3), approved: true },
            ApprovalCall::Erc721SetApprovalForAll { token: a(21), operator: a(3), approved: true },
            ApprovalCall::Erc1155SetApprovalForAll { token: a(30), operator: a(3), approved: true },
        ]
    );
}

#[test]
fn bundle_approval_targets_follow_purpose() {
    let module = bundle_module();
    assert_eq!(module.approval_target(ApprovalPurpose::Escrow), a(3));
    assert_eq!(module.approval_target(ApprovalPurpose::Payment), a(5));
    assert_eq!(module.approval_target(ApprovalPurpose::BarterUtils), a(2));
    let util = BundleUtil::new(&module);
    let empty = TokenBundleData { native_amount: u(9), erc20s: vec![], erc721s: vec![], erc1155s: vec![] };
    assert!(util.approve_calls(&empty, ApprovalPurpose::Payment).is_empty());
}

#[test]
fn bundle_revokes_each_erc1155_contract_once() {
    let module = bundle_module();
    let util = BundleUtil::new(&module);
    let calls = util.revoke_erc1155s_calls(&bundle(), ApprovalPurpose::BarterUtils);
    assert_eq!(
        calls,
        vec![ApprovalCall::Erc1155SetApprovalForAll { token: a(30), operator: a(2), approved: false }]
    );
}

fn erc721_module() -> Erc721Module {
    Erc721Module::new(Erc721Addresses {
        eas: a(1),
        barter_utils: a(2),
        escrow_obligation_nontierable: a(3),
        escrow_obligation_tierable: a(4),
        payment_obligation: a(5),
    })
}

#[test]
fn erc721_util_calls() {
    let module = erc721_module();
    let util = Erc721Util::new(&module);
    let token = Erc721Data { address: a(20), id: u(7) };
    assert_eq!(
        util.approve_call(&token, ApprovalPurpose::Payment),
        ApprovalCall::Erc721Approve { token: a(20), spender: a(5), id: u(7) }
    );
    assert_eq!(
        util.approve_all_call(a(21), ApprovalPurpose::Escrow),
        ApprovalCall::Erc721SetApprovalForAll { token: a(21), operator: a(3), approved: true }
    );
    assert_eq!(
        util.revoke_all_call(a(21), ApprovalPurpose::BarterUtils),
        ApprovalCall::Erc721SetApprovalForAll { token: a(21), operator: a(2), approved: false }
    );
    assert_eq!(Erc721Tierable::new(&module).address(), a(3));
}

#[test]
fn erc1155_util_calls() {
    let module = Erc1155Module::new(Erc1155Addresses {
        eas: a(1),
        barter_utils: a(2),
        escrow_obligation_nontierable: a(3),
        escrow_obligation_tierable: a(4),
        payment_obligation: a(5),
    });
    let util = Erc1155Util::new(&module);
    assert_eq!(
        util.approve_all_call(a(30), ApprovalPurpose::Payment),
        ApprovalCall::Erc1155SetApprovalForAll { token: a(30), operator: a(5), approved: true }
    );
    assert_eq!(
        util.revoke_all_call(a(30), ApprovalPurpose::Escrow),
        ApprovalCall::Erc1155SetApprovalForAll { token: a(30), operator: a(3), approved: false }
    );
}

#[test]
fn erc20_module_calls_and_addresses() {
    let module = Erc20Module::new(Erc20Addresses {
        eas: a(1),
        barter_utils: a(2),
        escrow_obligation_nontierable: a(3),
        escrow_obligation_tierable: a(4),
        payment_obligation: a(5),
    });
    let price = Erc20Data { address: a(10), value: u(100) };
    assert_eq!(
        module.approve_call(&price, ApprovalPurpose::Payment),
        ApprovalCall::Erc20Approve { token: a(10), spender: a(5), amount: u(100) }
    );
    assert_eq!(Payment::new(&module).address(), a(5));
    assert_eq!(Erc20Tierable::new(&module).address(), a(3));
}
