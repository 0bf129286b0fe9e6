//! ERC20 tokens: payments, escrows and approvals.

use vstd::prelude::*;

use crate::command_signer::Signature;
use crate::obligations::approvals::{select_target, target_for, ApprovalCall};
use crate::obligations::escrow_data::{
    erc20_payment_demand, erc20_payment_demand_spec, EscrowKind, PaymentDemandError,
};
use crate::primitives::{zeros, Address, B256, U256};
use crate::types::{ApprovalPurpose, ArbiterData, Erc1155Data, Erc20Data, Erc721Data, TokenBundleData};

verus! {

/// The ERC20 contracts of a deployment.
#[derive(Clone, Debug, PartialEq, Eq)]
pub struct Erc20Addresses {
    pub eas: Address,
    pub barter_utils: Address,
    pub escrow_obligation_nontierable: Address,
    pub escrow_obligation_tierable: Address,
    pub payment_obligation: Address,
}

/// ERC20 obligations at a given deployment.
#[derive(Clone, Debug)]
pub struct Erc20Module {
    pub addresses: Erc20Addresses,
}

impl Erc20Module {
    /// A module for the contracts at `addresses`.
    pub fn new(addresses: Erc20Addresses) -> (r: Self)
        ensures
            r.addresses == addresses,
    {
        Erc20Module { addresses }
    }

    /// The contract an approval for `purpose` is granted to.
    pub fn approval_target(&self, purpose: ApprovalPurpose) -> (r: Address)
        ensures
            r == target_for(
                purpose,
                self.addresses.escrow_obligation_nontierable,
                self.addresses.payment_obligation,
                self.addresses.barter_utils,
            ),
    {
        select_target(
            purpose,
            self.addresses.escrow_obligation_nontierable,
            self.addresses.payment_obligation,
            self.addresses.barter_utils,
        )
    }

    /// The approval that lets the contract for `purpose` spend `token`.
    pub fn approve_call(&self, token: &Erc20Data, purpose: ApprovalPurpose) -> (r: ApprovalCall)
        ensures
            r == (ApprovalCall::Erc20Approve {
                token: token.address,
                spender: target_for(
                    purpose,
                    self.addresses.escrow_obligation_nontierable,
                    self.addresses.payment_obligation,
                    self.addresses.barter_utils,
                ),
                amount: token.value,
            }),
    {
        ApprovalCall::Erc20Approve {
            token: token.address,
            spender: self.approval_target(purpose),
            amount: token.value,
        }
    }
}

/// Payment API for ERC20 tokens
pub struct Payment<'a> {
    pub module: &'a Erc20Module,
}

impl<'a> Payment<'a> {
    pub fn new(module: &'a Erc20Module) -> (r: Self)
        ensures
            r.module == module,
    {
        Payment { module }
    }

    /// Get the contract address
    pub fn address(&self) -> (r: Address)
        ensures
            r == self.module.addresses.payment_obligation,
    {
        self.module.addresses.payment_obligation
    }
}

/// Tierable escrow API for ERC20 tokens
pub struct Tierable<'a> {
    pub module: &'a Erc20Module,
}

impl<'a> Tierable<'a> {
    pub fn new(module: &'a Erc20Module) -> (r: Self)
        ensures
            r.module == module,
    {
        Tierable { module }
    }

    /// The address this API reports: the non-tierable escrow's address
    /// (`escrow_obligation_nontierable`), not `escrow_obligation_tierable`.
    pub fn address(&self) -> (r: Address)
        ensures
            r == self.module.addresses.escrow_obligation_nontierable,
    {
        self.module.addresses.escrow_obligation_nontierable
    }
}

/// The `v` byte a permit signature is submitted with: 27 plus its
/// y-parity bit.
pub fn permit_v(y_parity: bool) -> (r: u8)
    ensures
        r == (if y_parity { 28u8 } else { 27u8 }),
{
    if y_parity {
        28
    } else {
        27
    }
}

/// What an ERC20 permit signature is asked for: letting `spender` take
/// `token.value` of `token.address` until `deadline`.
#[derive(Clone, Copy, Debug, PartialEq, Eq)]
pub struct PermitRequest {
    pub spender: Address,
    pub token: Erc20Data,
    pub deadline: U256,
}

/// One `permitAndPayErc20For*` call on the barter contract: pay, with a
/// permit, the ERC20 payment that the escrow `buy_attestation` (of kind
/// `escrow_kind`) demands.
#[derive(Clone, Copy, Debug, PartialEq, Eq)]
pub struct PermitAndPayCall {
    pub target: Address,
    pub escrow_kind: EscrowKind,
    pub buy_attestation: B256,
    pub deadline: U256,
    pub v: u8,
    pub r: U256,
    pub s: U256,
}

/// Whether `r` is the permit request for paying what escrow data `data`
/// of kind `kind` demands, through `spender`, until `deadline`.
pub open spec fn permit_request_matches(
    r: Result<PermitRequest, PaymentDemandError>,
    kind: EscrowKind,
    data: Seq<u8>,
    spender: Address,
    deadline: U256,
) -> bool {
    match erc20_payment_demand_spec(kind, data) {
        Err(e) => r == Err::<PermitRequest, PaymentDemandError>(e),
        Ok(p) => r matches Ok(req) && req.spender == spender && req.token.address@ == p.0
            && req.token.value@ == p.1 && req.deadline == deadline,
    }
}

/// Barter API for ERC20 tokens: paying escrows with ERC20 permits.
pub struct BarterUtils<'a> {
    pub module: &'a Erc20Module,
}

impl Erc20Module {
    /// Access the barter API.
    pub fn barter(&self) -> (r: BarterUtils<'_>)
        ensures
            r.module == self,
    {
        BarterUtils { module: self }
    }
}

impl<'a> BarterUtils<'a> {
    pub fn new(module: &'a Erc20Module) -> (r: Self)
        ensures
            r.module == module,
    {
        BarterUtils { module }
    }

    /// The permit to sign for paying the ERC20 payment that an escrow of
    /// the given kind demands (read from the escrow attestation's data): the
    /// barter contract may take the demanded amount of the demanded token
    /// until `deadline`.
    pub fn permit_request(&self, kind: EscrowKind, escrow_data: &[u8], deadline: U256) -> (r: Result<
        PermitRequest,
        PaymentDemandError,
    >)
        ensures
            permit_request_matches(r, kind, escrow_data@, self.module.addresses.barter_utils, deadline),
    {
        match erc20_payment_demand(kind, escrow_data) {
            Err(e) => Err(e),
            Ok(token) => Ok(PermitRequest { spender: self.module.addresses.barter_utils, token, deadline }),
        }
    }

    /// The permit-and-pay call for the escrow `buy_attestation`, with the
    /// permit's deadline and signature (its `v` as 27 plus the parity).
    pub fn permit_and_pay_call(
        &self,
        kind: EscrowKind,
        buy_attestation: B256,
        deadline: U256,
        permit: &Signature,
    ) -> (r: PermitAndPayCall)
        ensures
            r == (PermitAndPayCall {
                target: self.module.addresses.barter_utils,
                escrow_kind: kind,
                buy_attestation,
                deadline,
                v: if permit.y_parity { 28u8 } else { 27u8 },
                r: permit.r,
                s: permit.s,
            }),
    {
        PermitAndPayCall {
            target: self.module.addresses.barter_utils,
            escrow_kind: kind,
            buy_attestation,
            deadline,
            v: permit_v(permit.y_parity),
            r: permit.r,
            s: permit.s,
        }
    }

    /// The permit to sign for paying an ERC20 escrow's ERC20 demand.
    pub fn permit_and_pay_erc20_for_erc20(&self, escrow_data: &[u8], deadline: U256) -> (r: Result<
        PermitRequest,
        PaymentDemandError,
    >)
        ensures
            permit_request_matches(r, EscrowKind::Erc20, escrow_data@, self.module.addresses.barter_utils, deadline),
    {
        self.permit_request(EscrowKind::Erc20, escrow_data, deadline)
    }

    /// The permit to sign for paying an ERC721 escrow's ERC20 demand.
    pub fn permit_and_pay_erc20_for_erc721(&self, escrow_data: &[u8], deadline: U256) -> (r: Result<
        PermitRequest,
        PaymentDemandError,
    >)
        ensures
            permit_request_matches(r, EscrowKind::Erc721, escrow_data@, self.module.addresses.barter_utils, deadline),
    {
        self.permit_request(EscrowKind::Erc721, escrow_data, deadline)
    }

    /// The permit to sign for paying an ERC1155 escrow's ERC20 demand.
    pub fn permit_and_pay_erc20_for_erc1155(&self, escrow_data: &[u8], deadline: U256) -> (r: Result<
        PermitRequest,
        PaymentDemandError,
    >)
        ensures
            permit_request_matches(r, EscrowKind::Erc1155, escrow_data@, self.module.addresses.barter_utils, deadline),
    {
        self.permit_request(EscrowKind::Erc1155, escrow_data, deadline)
    }

    /// The permit to sign for paying a token-bundle escrow's ERC20 demand.
    pub fn permit_and_pay_erc20_for_bundle(&self, escrow_data: &[u8], deadline: U256) -> (r: Result<
        PermitRequest,
        PaymentDemandError,
    >)
        ensures
            permit_request_matches(r, EscrowKind::TokenBundle, escrow_data@, self.module.addresses.barter_utils, deadline),
    {
        self.permit_request(EscrowKind::TokenBundle, escrow_data, deadline)
    }

    /// The permit to sign for paying a native-currency escrow's ERC20 demand.
    pub fn permit_and_pay_erc20_for_native(&self, escrow_data: &[u8], deadline: U256) -> (r: Result<
        PermitRequest,
        PaymentDemandError,
    >)
        ensures
            permit_request_matches(r, EscrowKind::NativeToken, escrow_data@, self.module.addresses.barter_utils, deadline),
    {
        self.permit_request(EscrowKind::NativeToken, escrow_data, deadline)
    }
}

/// One `permitAndBuy*WithErc20` call on the barter contract: escrow the
/// ERC20 `bid`, with a permit, for the `ask` until `expiration`.
#[derive(Clone, Debug, PartialEq, Eq)]
pub struct PermitAndBuyCall<A> {
    pub target: Address,
    pub bid: Erc20Data,
    pub ask: A,
    pub expiration: u64,
    pub deadline: U256,
    pub v: u8,
    pub r: U256,
    pub s: U256,
}

/// One `permitAndPayWithErc20` call: pay `price` to `payee`, with a permit,
/// referencing no attestation (`ref_uid` is zero).
#[derive(Clone, Copy, Debug, PartialEq, Eq)]
pub struct PermitAndPayWithErc20Call {
    pub target: Address,
    pub price: Erc20Data,
    pub payee: Address,
    pub ref_uid: B256,
    pub deadline: U256,
    pub v: u8,
    pub r: U256,
    pub s: U256,
}

/// One `permitAndBuyWithErc20` call: escrow `price`, with a permit, for the
/// arbiter's demand `item` until `expiration`.
#[derive(Clone, Debug, PartialEq, Eq)]
pub struct PermitAndCreateCall {
    pub target: Address,
    pub price: Erc20Data,
    pub item: ArbiterData,
    pub expiration: u64,
    pub deadline: U256,
    pub v: u8,
    pub r: U256,
    pub s: U256,
}

/// The `v` byte of a permit signature: 27 plus its parity.
pub open spec fn permit_v_spec(permit: Signature) -> u8 {
    if permit.y_parity {
        28u8
    } else {
        27u8
    }
}

impl<'a> BarterUtils<'a> {
    /// The permit to sign for escrowing the ERC20 `bid` through the barter
    /// contract until `deadline`.
    pub fn buy_permit_request(&self, bid: Erc20Data, deadline: U256) -> (r: PermitRequest)
        ensures
            r == (PermitRequest { spender: self.module.addresses.barter_utils, token: bid, deadline }),
    {
        PermitRequest { spender: self.module.addresses.barter_utils, token: bid, deadline }
    }

    /// The permit-and-buy call for any kind of ask.
    pub fn permit_and_buy_call<A>(
        &self,
        bid: Erc20Data,
        ask: A,
        expiration: u64,
        deadline: U256,
        permit: &Signature,
    ) -> (r: PermitAndBuyCall<A>)
        ensures
            r == (PermitAndBuyCall {
                target: self.module.addresses.barter_utils,
                bid,
                ask,
                expiration,
                deadline,
                v: permit_v_spec(*permit),
                r: permit.r,
                s: permit.s,
            }),
    {
        PermitAndBuyCall {
            target: self.module.addresses.barter_utils,
            bid,
            ask,
            expiration,
            deadline,
            v: permit_v(permit.y_parity),
            r: permit.r,
            s: permit.s,
        }
    }

    /// `permitAndBuyErc20ForErc20`: ERC20 for ERC20.
    pub fn permit_and_buy_erc20_for_erc20(
        &self,
        bid: Erc20Data,
        ask: Erc20Data,
        expiration: u64,
        deadline: U256,
        permit: &Signature,
    ) -> (r: PermitAndBuyCall<Erc20Data>)
        ensures
            r == (PermitAndBuyCall {
                target: self.module.addresses.barter_utils,
                bid,
                ask,
                expiration,
                deadline,
                v: permit_v_spec(*permit),
                r: permit.r,
                s: permit.s,
            }),
    {
        self.permit_and_buy_call(bid, ask, expiration, deadline, permit)
    }

    /// `permitAndBuyErc721WithErc20`: an ERC721 token for ERC20.
    pub fn permit_and_buy_erc721_for_erc20(
        &self,
        bid: Erc20Data,
        ask: Erc721Data,
        expiration: u64,
        deadline: U256,
        permit: &Signature,
    ) -> (r: PermitAndBuyCall<Erc721Data>)
        ensures
            r == (PermitAndBuyCall {
                target: self.module.addresses.barter_utils,
                bid,
                ask,
                expiration,
                deadline,
                v: permit_v_spec(*permit),
                r: permit.r,
                s: permit.s,
            }),
    {
        self.permit_and_buy_call(bid, ask, expiration, deadline, permit)
    }

    /// `permitAndBuyErc1155WithErc20`: ERC1155 tokens for ERC20.
    pub fn permit_and_buy_erc1155_for_erc20(
        &self,
        bid: Erc20Data,
        ask: Erc1155Data,
        expiration: u64,
        deadline: U256,
        permit: &Signature,
    ) -> (r: PermitAndBuyCall<Erc1155Data>)
        ensures
            r == (PermitAndBuyCall {
                target: self.module.addresses.barter_utils,
                bid,
                ask,
                expiration,
                deadline,
                v: permit_v_spec(*permit),
                r: permit.r,
                s: permit.s,
            }),
    {
        self.permit_and_buy_call(bid, ask, expiration, deadline, permit)
    }

    /// `permitAndBuyBundleWithErc20`: a token bundle for ERC20, paid to
    /// `recipient` (the signer's address).
    pub fn permit_and_buy_bundle_for_erc20(
        &self,
        bid: Erc20Data,
        ask: TokenBundleData,
        recipient: Address,
        expiration: u64,
        deadline: U256,
        permit: &Signature,
    ) -> (r: PermitAndBuyCall<(TokenBundleData, Address)>)
        ensures
            r == (PermitAndBuyCall {
                target: self.module.addresses.barter_utils,
                bid,
                ask: (ask, recipient),
                expiration,
                deadline,
                v: permit_v_spec(*permit),
                r: permit.r,
                s: permit.s,
            }),
    {
        self.permit_and_buy_call(bid, (ask, recipient), expiration, deadline, permit)
    }
}

impl<'a> Payment<'a> {
    /// The permit to sign for paying `price` through the barter contract
    /// until `deadline`.
    pub fn permit_request(&self, price: Erc20Data, deadline: U256) -> (r: PermitRequest)
        ensures
            r == (PermitRequest { spender: self.module.addresses.barter_utils, token: price, deadline }),
    {
        PermitRequest { spender: self.module.addresses.barter_utils, token: price, deadline }
    }

    /// The `permitAndPayWithErc20` call that pays `price` to `payee` with
    /// the signed permit, referencing no attestation.
    pub fn permit_and_pay(&self, price: Erc20Data, payee: Address, deadline: U256, permit: &Signature) -> (r:
        PermitAndPayWithErc20Call)
        ensures
            r == (PermitAndPayWithErc20Call {
                target: self.module.addresses.barter_utils,
                price,
                payee,
                ref_uid: r.ref_uid,
                deadline,
                v: permit_v_spec(*permit),
                r: permit.r,
                s: permit.s,
            }),
            r.ref_uid@ == zeros(32),
    {
        PermitAndPayWithErc20Call {
            target: self.module.addresses.barter_utils,
            price,
            payee,
            ref_uid: B256::zero(),
            deadline,
            v: permit_v(permit.y_parity),
            r: permit.r,
            s: permit.s,
        }
    }
}

impl<'a> Tierable<'a> {
    /// The permit to sign for escrowing `price`: the spender is the
    /// tierable escrow contract, until `deadline`.
    pub fn permit_request(&self, price: Erc20Data, deadline: U256) -> (r: PermitRequest)
        ensures
            r == (PermitRequest {
                spender: self.module.addresses.escrow_obligation_tierable,
                token: price,
                deadline,
            }),
    {
        PermitRequest { spender: self.module.addresses.escrow_obligation_tierable, token: price, deadline }
    }

    /// The `permitAndBuyWithErc20` call, sent to the barter contract, that
    /// escrows `price` for `item` until `expiration` with the signed permit.
    pub fn permit_and_create(
        &self,
        price: Erc20Data,
        item: ArbiterData,
        expiration: u64,
        deadline: U256,
        permit: &Signature,
    ) -> (r: PermitAndCreateCall)
        ensures
            r == (PermitAndCreateCall {
                target: self.module.addresses.barter_utils,
                price,
                item,
                expiration,
                deadline,
                v: permit_v_spec(*permit),
                r: permit.r,
                s: permit.s,
            }),
    {
        PermitAndCreateCall {
            target: self.module.addresses.barter_utils,
            price,
            item,
            expiration,
            deadline,
            v: permit_v(permit.y_parity),
            r: permit.r,
            s: permit.s,
        }
    }
}

} // verus!
