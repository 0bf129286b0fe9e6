//! Attestation obligations: escrows of attestations, and the attestation
//! service itself.

use vstd::prelude::*;

use crate::primitives::Address;

verus! {

/// The attestation contracts of a deployment.
#[derive(Clone, Debug, PartialEq, Eq)]
pub struct AttestationAddresses {
    pub eas: Address,
    pub eas_schema_registry: Address,
    pub barter_utils: Address,
    pub escrow_obligation_nontierable: Address,
    pub escrow_obligation_tierable: Address,
    pub escrow_obligation_2_nontierable: Address,
    pub escrow_obligation_2_tierable: Address,
}

/// Available contracts in the Attestation module
#[derive(Clone, Copy, Debug, PartialEq, Eq)]
pub enum AttestationContract {
    /// EAS (Ethereum Attestation Service) contract
    Eas,
    /// EAS Schema Registry contract
    EasSchemaRegistry,
    /// Barter utilities contract for attestations
    BarterUtils,
    /// Escrow obligation contract for attestations (V1)
    EscrowObligation,
    /// Escrow obligation contract for attestations (V2)
    EscrowObligation2,
}

/// Attestation obligations at a given deployment.
#[derive(Clone, Debug)]
pub struct AttestationModule {
    pub addresses: AttestationAddresses,
}

impl AttestationModule {
    /// A module for the contracts at `addresses`.
    pub fn new(addresses: AttestationAddresses) -> (r: Self)
        ensures
            r.addresses == addresses,
    {
        AttestationModule { addresses }
    }

    /// The address of one of the module's contracts; the escrow contracts
    /// reported are the non-tierable ones.
    pub fn address(&self, contract: AttestationContract) -> (r: Address)
        ensures
            r == match contract {
                AttestationContract::Eas => self.addresses.eas,
                AttestationContract::EasSchemaRegistry => self.addresses.eas_schema_registry,
                AttestationContract::BarterUtils => self.addresses.barter_utils,
                AttestationContract::EscrowObligation => self.addresses.escrow_obligation_nontierable,
                AttestationContract::EscrowObligation2 => self.addresses.escrow_obligation_2_nontierable,
            },
    {
        match contract {
            AttestationContract::Eas => self.addresses.eas,
            AttestationContract::EasSchemaRegistry => self.addresses.eas_schema_registry,
            AttestationContract::BarterUtils => self.addresses.barter_utils,
            AttestationContract::EscrowObligation => self.addresses.escrow_obligation_nontierable,
            AttestationContract::EscrowObligation2 => self.addresses.escrow_obligation_2_nontierable,
        }
    }

    /// Access escrow operations (V1 and V2)
    pub fn escrow(&self) -> (r: Escrow<'_>)
        ensures
            r.module == self,
    {
        Escrow::new(self)
    }
}

/// Escrow API accessor for attestation obligations
pub struct Escrow<'a> {
    pub module: &'a AttestationModule,
}

/// V2 escrow API accessor (references attestations by UID)
pub struct V2<'a> {
    pub module: &'a AttestationModule,
}

/// Non-tierable escrow API for attestations (V2)
pub struct NonTierable<'a> {
    pub module: &'a AttestationModule,
}

impl<'a> Escrow<'a> {
    pub fn new(module: &'a AttestationModule) -> (r: Self)
        ensures
            r.module == module,
    {
        Escrow { module }
    }

    /// Access V2 escrow operations (references attestation by UID)
    pub fn v2(&self) -> (r: V2<'a>)
        ensures
            r.module == self.module,
    {
        V2::new(self.module)
    }
}

impl<'a> V2<'a> {
    pub fn new(module: &'a AttestationModule) -> (r: Self)
        ensures
            r.module == module,
    {
        V2 { module }
    }

    /// Access non-tierable escrow operations (1:1 escrow:fulfillment)
    pub fn non_tierable(&self) -> (r: NonTierable<'a>)
        ensures
            r.module == self.module,
    {
        NonTierable::new(self.module)
    }
}

impl<'a> NonTierable<'a> {
    pub fn new(module: &'a AttestationModule) -> (r: Self)
        ensures
            r.module == module,
    {
        NonTierable { module }
    }

    /// Get the contract address
    pub fn address(&self) -> (r: Address)
        ensures
            r == self.module.addresses.escrow_obligation_2_nontierable,
    {
        self.module.addresses.escrow_obligation_2_nontierable
    }
}

} // verus!
