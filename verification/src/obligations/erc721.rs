//! ERC721 tokens: escrows and approvals.

use vstd::prelude::*;

use crate::obligations::approvals::{select_target, target_for, ApprovalCall};
use crate::primitives::Address;
use crate::types::{ApprovalPurpose, Erc721Data};

verus! {

/// The ERC721 contracts of a deployment.
#[derive(Clone, Debug, PartialEq, Eq)]
pub struct Erc721Addresses {
    pub eas: Address,
    pub barter_utils: Address,
    pub escrow_obligation_nontierable: Address,
    pub escrow_obligation_tierable: Address,
    pub payment_obligation: Address,
}

/// ERC721 obligations at a given deployment.
#[derive(Clone, Debug)]
pub struct Erc721Module {
    pub addresses: Erc721Addresses,
}

impl Erc721Module {
    /// A module for the contracts at `addresses`.
    pub fn new(addresses: Erc721Addresses) -> (r: Self)
        ensures
            r.addresses == addresses,
    {
        Erc721Module { addresses }
    }

    /// The contract an approval for `purpose` is granted to.
    pub open spec fn target(&self, purpose: ApprovalPurpose) -> Address {
        target_for(
            purpose,
            self.addresses.escrow_obligation_nontierable,
            self.addresses.payment_obligation,
            self.addresses.barter_utils,
        )
    }

    /// The contract an approval for `purpose` is granted to.
    pub fn approval_target(&self, purpose: ApprovalPurpose) -> (r: Address)
        ensures
            r == self.target(purpose),
    {
        select_target(
            purpose,
            self.addresses.escrow_obligation_nontierable,
            self.addresses.payment_obligation,
            self.addresses.barter_utils,
        )
    }
}

/// Utility API for ERC721 tokens (approvals)
pub struct Util<'a> {
    pub module: &'a Erc721Module,
}

impl<'a> Util<'a> {
    pub fn new(module: &'a Erc721Module) -> (r: Self)
        ensures
            r.module == module,
    {
        Util { module }
    }

    /// The approval of one token to the contract for `purpose`.
    pub fn approve_call(&self, token: &Erc721Data, purpose: ApprovalPurpose) -> (r: ApprovalCall)
        ensures
            r == (ApprovalCall::Erc721Approve {
                token: token.address,
                spender: self.module.target(purpose),
                id: token.id,
            }),
    {
        ApprovalCall::Erc721Approve {
            token: token.address,
            spender: self.module.approval_target(purpose),
            id: token.id,
        }
    }

    /// The approval of every token of a contract to the contract for `purpose`.
    pub fn approve_all_call(&self, token_contract: Address, purpose: ApprovalPurpose) -> (r:
        ApprovalCall)
        ensures
            r == (ApprovalCall::Erc721SetApprovalForAll {
                token: token_contract,
                operator: self.module.target(purpose),
                approved: true,
            }),
    {
        ApprovalCall::Erc721SetApprovalForAll {
            token: token_contract,
            operator: self.module.approval_target(purpose),
            approved: true,
        }
    }

    /// The revocation of the approval of every token of a contract.
    pub fn revoke_all_call(&self, token_contract: Address, purpose: ApprovalPurpose) -> (r:
        ApprovalCall)
        ensures
            r == (ApprovalCall::Erc721SetApprovalForAll {
                token: token_contract,
                operator: self.module.target(purpose),
                approved: false,
            }),
    {
        ApprovalCall::Erc721SetApprovalForAll {
            token: token_contract,
            operator: self.module.approval_target(purpose),
            approved: false,
        }
    }
}

/// Tierable escrow API for ERC721 tokens
pub struct Tierable<'a> {
    pub module: &'a Erc721Module,
}

impl<'a> Tierable<'a> {
    pub fn new(module: &'a Erc721Module) -> (r: Self)
        ensures
            r.module == module,
    {
        Tierable { module }
    }

    /// The address this API reports: the non-tierable escrow's address
    /// (`escrow_obligation_nontierable`), not `escrow_obligation_tierable`.
    pub fn address(&self) -> (r: Address)
        ensures
            r == self.module.addresses.escrow_obligation_nontierable,
    {
        self.module.addresses.escrow_obligation_nontierable
    }
}

/// The module's approvals go, by purpose, to its non-tierable escrow, its
/// payment contract and its barter contract.
pub proof fn lemma_approval_targets(m: Erc721Module)
    ensures
        m.target(ApprovalPurpose::Escrow) == m.addresses.escrow_obligation_nontierable,
        m.target(ApprovalPurpose::Payment) == m.addresses.payment_obligation,
        m.target(ApprovalPurpose::BarterUtils) == m.addresses.barter_utils,
{
}

} // verus!
