//! ERC1155 tokens: approvals.

use vstd::prelude::*;

use crate::obligations::approvals::{select_target, target_for, ApprovalCall};
use crate::primitives::Address;
use crate::types::ApprovalPurpose;

verus! {

/// The ERC1155 contracts of a deployment.
#[derive(Clone, Debug, PartialEq, Eq)]
pub struct Erc1155Addresses {
    pub eas: Address,
    pub barter_utils: Address,
    pub escrow_obligation_nontierable: Address,
    pub escrow_obligation_tierable: Address,
    pub payment_obligation: Address,
}

/// ERC1155 obligations at a given deployment.
#[derive(Clone, Debug)]
pub struct Erc1155Module {
    pub addresses: Erc1155Addresses,
}

impl Erc1155Module {
    /// A module for the contracts at `addresses`.
    pub fn new(addresses: Erc1155Addresses) -> (r: Self)
        ensures
            r.addresses == addresses,
    {
        Erc1155Module { addresses }
    }

    /// The contract an approval for `purpose` is granted to.
    pub open spec fn target(&self, purpose: ApprovalPurpose) -> Address {
        target_for(
            purpose,
            self.addresses.escrow_obligation_nontierable,
            self.addresses.payment_obligation,
            self.addresses.barter_utils,
        )
    }

    /// The contract an approval for `purpose` is granted to.
    pub fn approval_target(&self, purpose: ApprovalPurpose) -> (r: Address)
        ensures
            r == self.target(purpose),
    {
        select_target(
            purpose,
            self.addresses.escrow_obligation_nontierable,
            self.addresses.payment_obligation,
            self.addresses.barter_utils,
        )
    }
}

/// Utility API for ERC1155 tokens (approvals)
pub struct Util<'a> {
    pub module: &'a Erc1155Module,
}

impl<'a> Util<'a> {
    pub fn new(module: &'a Erc1155Module) -> (r: Self)
        ensures
            r.module == module,
    {
        Util { module }
    }

    /// The approval of every token of a contract to the contract for `purpose`.
    pub fn approve_all_call(&self, token_contract: Address, purpose: ApprovalPurpose) -> (r:
        ApprovalCall)
        ensures
            r == (ApprovalCall::Erc1155SetApprovalForAll {
                token: token_contract,
                operator: self.module.target(purpose),
                approved: true,
            }),
    {
        ApprovalCall::Erc1155SetApprovalForAll {
            token: token_contract,
            operator: self.module.approval_target(purpose),
            approved: true,
        }
    }

    /// The revocation of the approval of every token of a contract.
    pub fn revoke_all_call(&self, token_contract: Address, purpose: ApprovalPurpose) -> (r:
        ApprovalCall)
        ensures
            r == (ApprovalCall::Erc1155SetApprovalForAll {
                token: token_contract,
                operator: self.module.target(purpose),
                approved: false,
            }),
    {
        ApprovalCall::Erc1155SetApprovalForAll {
            token: token_contract,
            operator: self.module.approval_target(purpose),
            approved: false,
        }
    }
}

/// The module's approvals go, by purpose, to its non-tierable escrow, its
/// payment contract and its barter contract.
pub proof fn lemma_approval_targets(m: Erc1155Module)
    ensures
        m.target(ApprovalPurpose::Escrow) == m.addresses.escrow_obligation_nontierable,
        m.target(ApprovalPurpose::Payment) == m.addresses.payment_obligation,
        m.target(ApprovalPurpose::BarterUtils) == m.addresses.barter_utils,
{
}

} // verus!
