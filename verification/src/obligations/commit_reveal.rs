//! Commit-reveal obligations: a payload, a salt and a schema, committed to
//! first and revealed later.

use vstd::prelude::*;

use crate::abi::{
    abi_decode_commit_reveal, abi_encode_commit_reveal, alloy_commit_reveal_decoding,
    commit_reveal_abi_encoding, decode_error_from, DecodeError, DECODE_MEMORY_LIMIT,
};
use crate::primitives::{Address, B256};
use crate::types::{Attestation, DecodedAttestation};

verus! {

/// The obligation data of the commit-reveal obligation contract.
#[derive(Clone, Debug, PartialEq, Eq)]
pub struct CommitRevealObligationData {
    pub payload: Vec<u8>,
    pub salt: B256,
    pub schema: B256,
}

impl View for CommitRevealObligationData {
    type V = (Seq<u8>, Seq<u8>, Seq<u8>);

    open spec fn view(&self) -> (Seq<u8>, Seq<u8>, Seq<u8>) {
        (self.payload@, self.salt@, self.schema@)
    }
}

impl CommitRevealObligationData {
    /// The ABI encoding of this record.
    pub open spec fn abi_encoding(&self) -> Seq<u8> {
        commit_reveal_abi_encoding(self.payload@, self.salt@, self.schema@)
    }
}

/// The contracts the commit-reveal module talks to.
#[derive(Clone, Debug, PartialEq, Eq)]
pub struct CommitRevealObligationAddresses {
    pub eas: Address,
    pub obligation: Address,
}

/// The contracts of the commit-reveal module, by role.
#[derive(Clone, Copy, Debug, PartialEq, Eq)]
pub enum CommitRevealObligationContract {
    Eas,
    Obligation,
}

/// The arguments of one `doObligation` call.
#[derive(Clone, Debug, PartialEq, Eq)]
pub struct CommitRevealDoObligation {
    pub data: CommitRevealObligationData,
    pub ref_uid: B256,
}

/// Commit-reveal obligations at a given deployment.
#[derive(Clone, Debug)]
pub struct CommitRevealObligationModule {
    pub addresses: CommitRevealObligationAddresses,
}

impl CommitRevealObligationModule {
    /// A module for the contracts at `addresses`.
    pub fn new(addresses: CommitRevealObligationAddresses) -> (r: Self)
        ensures
            r.addresses == addresses,
    {
        CommitRevealObligationModule { addresses }
    }

    /// The address of one of the module's contracts.
    pub fn address(&self, contract: CommitRevealObligationContract) -> (r: Address)
        ensures
            r == match contract {
                CommitRevealObligationContract::Eas => self.addresses.eas,
                CommitRevealObligationContract::Obligation => self.addresses.obligation,
            },
    {
        match contract {
            CommitRevealObligationContract::Eas => self.addresses.eas,
            CommitRevealObligationContract::Obligation => self.addresses.obligation,
        }
    }

    /// Reads obligation data from its ABI encoding. Decoding the encoding of
    /// any record (with a payload within the decoder's memory limit) gives
    /// that record back.
    pub fn decode(obligation_data: &[u8]) -> (r: Result<CommitRevealObligationData, DecodeError>)
        ensures
            r is Ok <==> alloy_commit_reveal_decoding(obligation_data@) is Some,
            r matches Ok(d) ==> alloy_commit_reveal_decoding(obligation_data@) == Some(d@),
            r matches Err(e) ==> e == DecodeError::InvalidEncoding,
            forall|d: CommitRevealObligationData|
                #![trigger d.abi_encoding()]
                (r matches Ok(x) && x@ == d@) <== (obligation_data@ == d.abi_encoding()
                    && d.payload@.len() <= DECODE_MEMORY_LIMIT),
    {
        match abi_decode_commit_reveal(obligation_data) {
            Ok(rec) => Ok(CommitRevealObligationData {
                payload: rec.payload,
                salt: rec.salt,
                schema: rec.schema,
            }),
            Err(e) => Err(decode_error_from(e)),
        }
    }

    /// The ABI encoding of obligation data.
    pub fn encode(obligation_data: &CommitRevealObligationData) -> (r: Vec<u8>)
        ensures
            r@ == obligation_data.abi_encoding(),
    {
        abi_encode_commit_reveal(
            obligation_data.payload.as_slice(),
            &obligation_data.salt,
            &obligation_data.schema,
        )
    }

    /// Reads the obligation data that an attestation carries.
    pub fn decode_obligation(attestation: Attestation) -> (r: Result<
        DecodedAttestation<CommitRevealObligationData>,
        DecodeError,
    >)
        ensures
            r is Ok <==> alloy_commit_reveal_decoding(attestation.data@) is Some,
            r matches Ok(d) ==> d.attestation == attestation && alloy_commit_reveal_decoding(
                attestation.data@,
            ) == Some(d.data@),
            r matches Err(e) ==> e == DecodeError::InvalidEncoding,
    {
        match Self::decode(attestation.data.as_slice()) {
            Ok(data) => Ok(DecodedAttestation { attestation, data }),
            Err(e) => Err(e),
        }
    }

    /// The arguments with which `do_obligation` calls the obligation
    /// contract: the data, and the referenced UID or zero.
    pub fn do_obligation_call(data: CommitRevealObligationData, ref_uid: Option<B256>) -> (r:
        CommitRevealDoObligation)
        ensures
            r.data == data,
            r.ref_uid@ == match ref_uid {
                Some(u) => u@,
                None => crate::primitives::zeros(32),
            },
    {
        let ref_uid = match ref_uid {
            Some(u) => u,
            None => B256::zero(),
        };
        CommitRevealDoObligation { data, ref_uid }
    }
}

} // verus!
