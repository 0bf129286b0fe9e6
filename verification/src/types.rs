//! Records shared by the obligation and arbiter modules.

use vstd::prelude::*;

use crate::primitives::{Address, B256, U256};

verus! {

/// An EAS attestation as the attestation contract reports it.
#[derive(Clone, Debug, PartialEq, Eq)]
pub struct Attestation {
    pub uid: B256,
    pub schema: B256,
    pub time: u64,
    pub expiration_time: u64,
    pub revocation_time: u64,
    pub ref_uid: B256,
    pub recipient: Address,
    pub attester: Address,
    pub revocable: bool,
    pub data: Vec<u8>,
}

/// An attestation together with its decoded obligation data.
pub struct DecodedAttestation<T> {
    pub attestation: Attestation,
    pub data: T,
}

/// An arbiter and the demand it is asked to check.
#[derive(Clone, Debug, PartialEq, Eq)]
pub struct ArbiterData {
    pub arbiter: Address,
    pub demand: Vec<u8>,
}

/// An amount of one ERC20 token.
#[derive(Clone, Copy, Debug, PartialEq, Eq)]
pub struct Erc20Data {
    pub address: Address,
    pub value: U256,
}

/// One ERC721 token.
#[derive(Clone, Copy, Debug, PartialEq, Eq)]
pub struct Erc721Data {
    pub address: Address,
    pub id: U256,
}

/// An amount of one ERC1155 token.
#[derive(Clone, Copy, Debug, PartialEq, Eq)]
pub struct Erc1155Data {
    pub address: Address,
    pub id: U256,
    pub value: U256,
}

/// A bundle of native currency and tokens of every standard.
#[derive(Clone, Debug, PartialEq, Eq)]
pub struct TokenBundleData {
    pub native_amount: U256,
    pub erc20s: Vec<Erc20Data>,
    pub erc721s: Vec<Erc721Data>,
    pub erc1155s: Vec<Erc1155Data>,
}

/// An amount of the chain's native currency.
#[derive(Clone, Copy, Debug, PartialEq, Eq)]
pub struct NativeTokenData {
    pub value: U256,
}

/// Which contract of a token module an approval is granted to.
#[derive(Clone, Copy, Debug, PartialEq, Eq)]
pub enum ApprovalPurpose {
    Escrow,
    Payment,
    BarterUtils,
}

} // verus!
