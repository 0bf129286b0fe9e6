//! The obligation data of the token escrow and payment contracts, as their
//! attestations carry it, and the demand an ERC20 payment makes of an
//! escrow.
//!
//! Every escrow's data starts with the arbiter that decides on a
//! fulfillment and the demand it is given; the token fields follow.

use vstd::prelude::*;

use crate::abi::{
    abi_decode_erc1155_escrow, abi_decode_erc20_payment, abi_decode_native_escrow,
    abi_decode_token_bundle_escrow, abi_decode_token_escrow, alloy_erc1155_escrow_decoding,
    erc20_payment_decoding, alloy_native_escrow_decoding, alloy_token_bundle_escrow_decoding, erc1155_escrow_abi_encoding,
    native_escrow_abi_encoding, token_escrow_abi_encoding, abi_address_word, DECODE_MEMORY_LIMIT,
    alloy_token_escrow_decoding, DecodeError,
};
use crate::primitives::{Address, U256};
use crate::types::{Attestation, DecodedAttestation, Erc20Data};

verus! {

broadcast use vstd::array::group_array_axioms;

/// The data of an ERC20 escrow: `(address arbiter, bytes demand, address
/// token, uint256 amount)`.
#[derive(Clone, Debug, PartialEq, Eq)]
pub struct Erc20EscrowObligationData {
    pub arbiter: Address,
    pub demand: Vec<u8>,
    pub token: Address,
    pub amount: U256,
}

/// The data of an ERC721 escrow: `(address arbiter, bytes demand, address
/// token, uint256 tokenId)`.
#[derive(Clone, Debug, PartialEq, Eq)]
pub struct Erc721EscrowObligationData {
    pub arbiter: Address,
    pub demand: Vec<u8>,
    pub token: Address,
    pub token_id: U256,
}

/// The data of an ERC1155 escrow: `(address arbiter, bytes demand, address
/// token, uint256 tokenId, uint256 amount)`.
#[derive(Clone, Debug, PartialEq, Eq)]
pub struct Erc1155EscrowObligationData {
    pub arbiter: Address,
    pub demand: Vec<u8>,
    pub token: Address,
    pub token_id: U256,
    pub amount: U256,
}

/// The data of a native-currency escrow: `(address arbiter, bytes demand,
/// uint256 amount)`.
#[derive(Clone, Debug, PartialEq, Eq)]
pub struct NativeTokenEscrowObligationData {
    pub arbiter: Address,
    pub demand: Vec<u8>,
    pub amount: U256,
}

/// The leading fields of a token-bundle escrow's data: the arbiter, the
/// demand and the native amount (the parallel token lists that follow are
/// not read here).
#[derive(Clone, Debug, PartialEq, Eq)]
pub struct TokenBundleEscrowObligationData {
    pub arbiter: Address,
    pub demand: Vec<u8>,
    pub native_amount: U256,
}

/// The data of an ERC20 payment: `(address token, uint256 amount, address
/// payee)`.
#[derive(Clone, Debug, PartialEq, Eq)]
pub struct Erc20PaymentObligationData {
    pub token: Address,
    pub amount: U256,
    pub payee: Address,
}

impl Erc20EscrowObligationData {
    /// The ABI encoding of this record.
    pub open spec fn abi_encoding(&self) -> Seq<u8> {
        token_escrow_abi_encoding(self.arbiter@, self.demand@, self.token@, self.amount@)
    }
}

impl Erc721EscrowObligationData {
    /// The ABI encoding of this record.
    pub open spec fn abi_encoding(&self) -> Seq<u8> {
        token_escrow_abi_encoding(self.arbiter@, self.demand@, self.token@, self.token_id@)
    }
}

impl Erc1155EscrowObligationData {
    /// The ABI encoding of this record.
    pub open spec fn abi_encoding(&self) -> Seq<u8> {
        erc1155_escrow_abi_encoding(self.arbiter@, self.demand@, self.token@, self.token_id@, self.amount@)
    }
}

impl NativeTokenEscrowObligationData {
    /// The ABI encoding of this record.
    pub open spec fn abi_encoding(&self) -> Seq<u8> {
        native_escrow_abi_encoding(self.arbiter@, self.demand@, self.amount@)
    }
}

impl Erc20PaymentObligationData {
    /// The ABI encoding of this record: three words.
    pub open spec fn abi_encoding(&self) -> Seq<u8> {
        abi_address_word(self.token@) + self.amount@ + abi_address_word(self.payee@)
    }
}

/// Reads ERC20 escrow data from its ABI encoding.
pub fn decode_erc20_escrow(data: &[u8]) -> (r: Result<Erc20EscrowObligationData, DecodeError>)
    ensures
        match alloy_token_escrow_decoding(data@) {
            None => r == Err::<Erc20EscrowObligationData, DecodeError>(DecodeError::InvalidEncoding),
            Some(t) => r matches Ok(d) && (d.arbiter@, d.demand@, d.token@, d.amount@) == t,
        },
        forall|x: Erc20EscrowObligationData|
            #![trigger x.abi_encoding()]
            (data@ == x.abi_encoding() && x.demand@.len() <= DECODE_MEMORY_LIMIT) ==> (r matches Ok(d)
                && (d.arbiter@, d.demand@, d.token@, d.amount@) == (x.arbiter@, x.demand@, x.token@, x.amount@)),
{
    match abi_decode_token_escrow(data) {
        Ok(rec) => Ok(rec),
        Err(_) => Err(DecodeError::InvalidEncoding),
    }
}

/// Reads ERC721 escrow data from its ABI encoding (the layout of ERC20
/// escrow data, with a token id in place of the amount).
pub fn decode_erc721_escrow(data: &[u8]) -> (r: Result<Erc721EscrowObligationData, DecodeError>)
    ensures
        match alloy_token_escrow_decoding(data@) {
            None => r == Err::<Erc721EscrowObligationData, DecodeError>(DecodeError::InvalidEncoding),
            Some(t) => r matches Ok(d) && (d.arbiter@, d.demand@, d.token@, d.token_id@) == t,
        },
        forall|x: Erc721EscrowObligationData|
            #![trigger x.abi_encoding()]
            (data@ == x.abi_encoding() && x.demand@.len() <= DECODE_MEMORY_LIMIT) ==> (r matches Ok(d)
                && (d.arbiter@, d.demand@, d.token@, d.token_id@) == (x.arbiter@, x.demand@, x.token@, x.token_id@)),
{
    match abi_decode_token_escrow(data) {
        Ok(rec) => Ok(
            Erc721EscrowObligationData {
                arbiter: rec.arbiter,
                demand: rec.demand,
                token: rec.token,
                token_id: rec.amount,
            },
        ),
        Err(_) => Err(DecodeError::InvalidEncoding),
    }
}

/// Reads ERC1155 escrow data from its ABI encoding.
pub fn decode_erc1155_escrow(data: &[u8]) -> (r: Result<Erc1155EscrowObligationData, DecodeError>)
    ensures
        match alloy_erc1155_escrow_decoding(data@) {
            None => r == Err::<Erc1155EscrowObligationData, DecodeError>(DecodeError::InvalidEncoding),
            Some(t) => r matches Ok(d) && (d.arbiter@, d.demand@, d.token@, d.token_id@, d.amount@)
                == t,
        },
        forall|x: Erc1155EscrowObligationData|
            #![trigger x.abi_encoding()]
            (data@ == x.abi_encoding() && x.demand@.len() <= DECODE_MEMORY_LIMIT) ==> (r matches Ok(d)
                && (d.arbiter@, d.demand@, d.token@, d.token_id@, d.amount@) == (
                x.arbiter@,
                x.demand@,
                x.token@,
                x.token_id@,
                x.amount@,
            )),
{
    match abi_decode_erc1155_escrow(data) {
        Ok(rec) => Ok(rec),
        Err(_) => Err(DecodeError::InvalidEncoding),
    }
}

/// Reads native-currency escrow data from its ABI encoding.
pub fn decode_native_token_escrow(data: &[u8]) -> (r: Result<NativeTokenEscrowObligationData, DecodeError>)
    ensures
        match alloy_native_escrow_decoding(data@) {
            None => r == Err::<NativeTokenEscrowObligationData, DecodeError>(DecodeError::InvalidEncoding),
            Some(t) => r matches Ok(d) && (d.arbiter@, d.demand@, d.amount@) == t,
        },
        forall|x: NativeTokenEscrowObligationData|
            #![trigger x.abi_encoding()]
            (data@ == x.abi_encoding() && x.demand@.len() <= DECODE_MEMORY_LIMIT) ==> (r matches Ok(d)
                && (d.arbiter@, d.demand@, d.amount@) == (x.arbiter@, x.demand@, x.amount@)),
{
    match abi_decode_native_escrow(data) {
        Ok(rec) => Ok(rec),
        Err(_) => Err(DecodeError::InvalidEncoding),
    }
}

/// Reads token-bundle escrow data from its ABI encoding.
pub fn decode_token_bundle_escrow(data: &[u8]) -> (r: Result<TokenBundleEscrowObligationData, DecodeError>)
    ensures
        match alloy_token_bundle_escrow_decoding(data@) {
            None => r == Err::<TokenBundleEscrowObligationData, DecodeError>(DecodeError::InvalidEncoding),
            Some(t) => r matches Ok(d) && (d.arbiter@, d.demand@, d.native_amount@) == t,
        },
{
    match abi_decode_token_bundle_escrow(data) {
        Ok(rec) => Ok(rec),
        Err(_) => Err(DecodeError::InvalidEncoding),
    }
}

/// Reads ERC20 payment data from its ABI encoding.
pub fn decode_erc20_payment(data: &[u8]) -> (r: Result<Erc20PaymentObligationData, DecodeError>)
    ensures
        match erc20_payment_decoding(data@) {
            None => r == Err::<Erc20PaymentObligationData, DecodeError>(DecodeError::InvalidEncoding),
            Some(t) => r matches Ok(d) && (d.token@, d.amount@, d.payee@) == t,
        },
        forall|x: Erc20PaymentObligationData|
            #![trigger x.abi_encoding()]
            data@ == x.abi_encoding() ==> (r matches Ok(d) && (d.token@, d.amount@, d.payee@) == (
                x.token@,
                x.amount@,
                x.payee@,
            )),
{
    match abi_decode_erc20_payment(data) {
        Ok(rec) => Ok(rec),
        Err(_) => Err(DecodeError::InvalidEncoding),
    }
}

/// The kinds of escrow an ERC20 payment can be made for.
#[derive(Clone, Copy, Debug, PartialEq, Eq)]
pub enum EscrowKind {
    Erc20,
    Erc721,
    Erc1155,
    TokenBundle,
    NativeToken,
}

/// The demand bytes of escrow data of the given kind, if it decodes.
pub open spec fn escrow_demand_spec(kind: EscrowKind, data: Seq<u8>) -> Option<Seq<u8>> {
    match kind {
        EscrowKind::Erc20 | EscrowKind::Erc721 => match alloy_token_escrow_decoding(data) {
            Some(t) => Some(t.1),
            None => None,
        },
        EscrowKind::Erc1155 => match alloy_erc1155_escrow_decoding(data) {
            Some(t) => Some(t.1),
            None => None,
        },
        EscrowKind::TokenBundle => match alloy_token_bundle_escrow_decoding(data) {
            Some(t) => Some(t.1),
            None => None,
        },
        EscrowKind::NativeToken => match alloy_native_escrow_decoding(data) {
            Some(t) => Some(t.1),
            None => None,
        },
    }
}

/// The demand an escrow of the given kind makes, read from its data.
pub fn escrow_demand(kind: EscrowKind, data: &[u8]) -> (r: Result<Vec<u8>, DecodeError>)
    ensures
        match escrow_demand_spec(kind, data@) {
            None => r == Err::<Vec<u8>, DecodeError>(DecodeError::InvalidEncoding),
            Some(d) => r matches Ok(v) && v@ == d,
        },
{
    match kind {
        EscrowKind::Erc20 => match decode_erc20_escrow(data) {
            Ok(e) => Ok(e.demand),
            Err(e) => Err(e),
        },
        EscrowKind::Erc721 => match decode_erc721_escrow(data) {
            Ok(e) => Ok(e.demand),
            Err(e) => Err(e),
        },
        EscrowKind::Erc1155 => match decode_erc1155_escrow(data) {
            Ok(e) => Ok(e.demand),
            Err(e) => Err(e),
        },
        EscrowKind::TokenBundle => match decode_token_bundle_escrow(data) {
            Ok(e) => Ok(e.demand),
            Err(e) => Err(e),
        },
        EscrowKind::NativeToken => match decode_native_token_escrow(data) {
            Ok(e) => Ok(e.demand),
            Err(e) => Err(e),
        },
    }
}

/// Why the ERC20 payment an escrow asks for could not be read.
#[derive(Clone, Copy, Debug, PartialEq, Eq)]
pub enum PaymentDemandError {
    /// The escrow's data is not escrow data of its kind.
    InvalidEscrow,
    /// The escrow's demand is not ERC20 payment data.
    InvalidDemand,
}

/// The ERC20 payment (token and amount) an escrow of the given kind
/// demands: its data is decoded, then its demand as ERC20 payment data.
pub open spec fn erc20_payment_demand_spec(kind: EscrowKind, data: Seq<u8>) -> Result<
    (Seq<u8>, Seq<u8>),
    PaymentDemandError,
> {
    match escrow_demand_spec(kind, data) {
        None => Err(PaymentDemandError::InvalidEscrow),
        Some(demand) => match erc20_payment_decoding(demand) {
            None => Err(PaymentDemandError::InvalidDemand),
            Some(p) => Ok((p.0, p.1)),
        },
    }
}

/// The ERC20 payment an escrow of the given kind demands, from the
/// escrow attestation's data: the token and the amount to pay.
pub fn erc20_payment_demand(kind: EscrowKind, escrow_data: &[u8]) -> (r: Result<Erc20Data, PaymentDemandError>)
    ensures
        match erc20_payment_demand_spec(kind, escrow_data@) {
            Err(e) => r == Err::<Erc20Data, PaymentDemandError>(e),
            Ok(p) => r matches Ok(d) && d.address@ == p.0 && d.value@ == p.1,
        },
{
    match escrow_demand(kind, escrow_data) {
        Err(_) => Err(PaymentDemandError::InvalidEscrow),
        Ok(demand) => match decode_erc20_payment(demand.as_slice()) {
            Err(_) => Err(PaymentDemandError::InvalidDemand),
            Ok(p) => Ok(Erc20Data { address: p.token, value: p.amount }),
        },
    }
}

/// Reads the ERC20 escrow data that an attestation carries, keeping the
/// attestation.
pub fn decode_erc20_escrow_obligation(attestation: Attestation) -> (r: Result<DecodedAttestation<Erc20EscrowObligationData>, DecodeError>)
    ensures
        match alloy_token_escrow_decoding(attestation.data@) {
            None => r == Err::<DecodedAttestation<Erc20EscrowObligationData>, DecodeError>(DecodeError::InvalidEncoding),
            Some(t) => r matches Ok(x) && x.attestation == attestation && (x.data.arbiter@, x.data.demand@, x.data.token@, x.data.amount@) == t,
        },
{
    match decode_erc20_escrow(attestation.data.as_slice()) {
        Ok(data) => Ok(DecodedAttestation { attestation, data }),
        Err(e) => Err(e),
    }
}

/// Reads the ERC721 escrow data that an attestation carries, keeping the
/// attestation.
pub fn decode_erc721_escrow_obligation(attestation: Attestation) -> (r: Result<DecodedAttestation<Erc721EscrowObligationData>, DecodeError>)
    ensures
        match alloy_token_escrow_decoding(attestation.data@) {
            None => r == Err::<DecodedAttestation<Erc721EscrowObligationData>, DecodeError>(DecodeError::InvalidEncoding),
            Some(t) => r matches Ok(x) && x.attestation == attestation && (x.data.arbiter@, x.data.demand@, x.data.token@, x.data.token_id@) == t,
        },
{
    match decode_erc721_escrow(attestation.data.as_slice()) {
        Ok(data) => Ok(DecodedAttestation { attestation, data }),
        Err(e) => Err(e),
    }
}

/// Reads the ERC1155 escrow data that an attestation carries, keeping the
/// attestation.
pub fn decode_erc1155_escrow_obligation(attestation: Attestation) -> (r: Result<DecodedAttestation<Erc1155EscrowObligationData>, DecodeError>)
    ensures
        match alloy_erc1155_escrow_decoding(attestation.data@) {
            None => r == Err::<DecodedAttestation<Erc1155EscrowObligationData>, DecodeError>(DecodeError::InvalidEncoding),
            Some(t) => r matches Ok(x) && x.attestation == attestation && (x.data.arbiter@, x.data.demand@, x.data.token@, x.data.token_id@, x.data.amount@) == t,
        },
{
    match decode_erc1155_escrow(attestation.data.as_slice()) {
        Ok(data) => Ok(DecodedAttestation { attestation, data }),
        Err(e) => Err(e),
    }
}

/// Reads the native-currency escrow data that an attestation carries, keeping the
/// attestation.
pub fn decode_native_token_escrow_obligation(attestation: Attestation) -> (r: Result<DecodedAttestation<NativeTokenEscrowObligationData>, DecodeError>)
    ensures
        match alloy_native_escrow_decoding(attestation.data@) {
            None => r == Err::<DecodedAttestation<NativeTokenEscrowObligationData>, DecodeError>(DecodeError::InvalidEncoding),
            Some(t) => r matches Ok(x) && x.attestation == attestation && (x.data.arbiter@, x.data.demand@, x.data.amount@) == t,
        },
{
    match decode_native_token_escrow(attestation.data.as_slice()) {
        Ok(data) => Ok(DecodedAttestation { attestation, data }),
        Err(e) => Err(e),
    }
}

/// Reads the token-bundle escrow data that an attestation carries, keeping the
/// attestation.
pub fn decode_token_bundle_escrow_obligation(attestation: Attestation) -> (r: Result<DecodedAttestation<TokenBundleEscrowObligationData>, DecodeError>)
    ensures
        match alloy_token_bundle_escrow_decoding(attestation.data@) {
            None => r == Err::<DecodedAttestation<TokenBundleEscrowObligationData>, DecodeError>(DecodeError::InvalidEncoding),
            Some(t) => r matches Ok(x) && x.attestation == attestation && (x.data.arbiter@, x.data.demand@, x.data.native_amount@) == t,
        },
{
    match decode_token_bundle_escrow(attestation.data.as_slice()) {
        Ok(data) => Ok(DecodedAttestation { attestation, data }),
        Err(e) => Err(e),
    }
}

} // verus!
