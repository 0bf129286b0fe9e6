//! Native currency (ETH) obligations: the contracts of the module.

use vstd::prelude::*;

use crate::primitives::Address;

verus! {

/// The native token contracts of a deployment.
#[derive(Clone, Debug, PartialEq, Eq)]
pub struct NativeTokenAddresses {
    pub eas: Address,
    pub barter_utils: Address,
    pub escrow_obligation_nontierable: Address,
    pub escrow_obligation_tierable: Address,
    pub payment_obligation: Address,
}

/// Available contracts in the Native Token module
#[derive(Clone, Copy, Debug, PartialEq, Eq)]
pub enum NativeTokenContract {
    /// EAS (Ethereum Attestation Service) contract
    Eas,
    /// Barter utilities contract for native tokens
    BarterUtils,
    /// Escrow obligation contract for native tokens
    EscrowObligation,
    /// Payment obligation contract for native tokens
    PaymentObligation,
}

/// Native token obligations at a given deployment.
#[derive(Clone, Debug)]
pub struct NativeTokenModule {
    pub addresses: NativeTokenAddresses,
}

impl NativeTokenModule {
    /// A module for the contracts at `addresses`.
    pub fn new(addresses: NativeTokenAddresses) -> (r: Self)
        ensures
            r.addresses == addresses,
    {
        NativeTokenModule { addresses }
    }

    /// The address of one of the module's contracts; the escrow contract
    /// reported is the non-tierable one.
    pub fn address(&self, contract: NativeTokenContract) -> (r: Address)
        ensures
            r == match contract {
                NativeTokenContract::Eas => self.addresses.eas,
                NativeTokenContract::BarterUtils => self.addresses.barter_utils,
                NativeTokenContract::EscrowObligation => self.addresses.escrow_obligation_nontierable,
                NativeTokenContract::PaymentObligation => self.addresses.payment_obligation,
            },
    {
        match contract {
            NativeTokenContract::Eas => self.addresses.eas,
            NativeTokenContract::BarterUtils => self.addresses.barter_utils,
            NativeTokenContract::EscrowObligation => self.addresses.escrow_obligation_nontierable,
            NativeTokenContract::PaymentObligation => self.addresses.payment_obligation,
        }
    }

    /// Access barter utilities API
    pub fn barter(&self) -> (r: BarterUtils<'_>)
        ensures
            r.module == self,
    {
        BarterUtils::new(self)
    }
}

/// Barter utilities API for native tokens
pub struct BarterUtils<'a> {
    pub module: &'a NativeTokenModule,
}

impl<'a> BarterUtils<'a> {
    pub fn new(module: &'a NativeTokenModule) -> (r: Self)
        ensures
            r.module == module,
    {
        BarterUtils { module }
    }
}

} // verus!
