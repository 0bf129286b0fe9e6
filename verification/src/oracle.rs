//! The demand an escrow makes of a trusted oracle, as its attestation data
//! carries it: an arbiter demand `(address oracle, bytes demand)` whose
//! demand bytes are the oracle arbiter's own `(address oracle, bytes data)`.

use vstd::prelude::*;
use vstd::string::*;
use vstd::utf8::*;

use crate::abi::{abi_decode_address_bytes, alloy_address_bytes_decoding};
use crate::hex::{hex_decode, hex_decode_spec};
use crate::obligations::string_obligation::{strip_0x, strip_0x_once};
use crate::primitives::Address;

verus! {

/// What a trusted-oracle arbiter is asked: which oracle decides, and the
/// data it decides on.
#[derive(Clone, Debug, PartialEq, Eq)]
pub struct TrustedOracleArbiterDemandData {
    pub oracle: Address,
    pub data: Vec<u8>,
}

/// Why an escrow's demand could not be read.
#[derive(Clone, Copy, Debug, PartialEq, Eq)]
pub enum DemandError {
    /// The attestation data is not hex text.
    InvalidHex,
    /// The attestation data is not an encoded arbiter demand.
    InvalidArbiterDemand,
    /// The arbiter demand's bytes are not an encoded oracle demand.
    InvalidDemandData,
}

/// What reading the demand out of escrow attestation data `data` gives:
/// the outer arbiter demand is decoded, then its demand bytes.
pub open spec fn demand_from_escrow_data_spec(data: Seq<u8>) -> Result<(Seq<u8>, Seq<u8>), DemandError> {
    match alloy_address_bytes_decoding(data) {
        None => Err(DemandError::InvalidArbiterDemand),
        Some(outer) => match alloy_address_bytes_decoding(outer.1) {
            None => Err(DemandError::InvalidDemandData),
            Some(inner) => Ok(inner),
        },
    }
}

/// Whether `r` is what `demand_from_escrow_data_spec` gives.
pub open spec fn demand_result_matches(
    r: Result<TrustedOracleArbiterDemandData, DemandError>,
    expected: Result<(Seq<u8>, Seq<u8>), DemandError>,
) -> bool {
    match expected {
        Err(e) => r == Err::<TrustedOracleArbiterDemandData, DemandError>(e),
        Ok(d) => r matches Ok(v) && v.oracle@ == d.0 && v.data@ == d.1,
    }
}

/// The oracle demand carried by an escrow attestation's data bytes.
pub fn demand_from_escrow_data(data: &[u8]) -> (r: Result<TrustedOracleArbiterDemandData, DemandError>)
    ensures
        demand_result_matches(r, demand_from_escrow_data_spec(data@)),
{
    match abi_decode_address_bytes(data) {
        Err(_) => Err(DemandError::InvalidArbiterDemand),
        Ok(outer) => match abi_decode_address_bytes(outer.bytes.as_slice()) {
            Err(_) => Err(DemandError::InvalidDemandData),
            Ok(inner) => Ok(TrustedOracleArbiterDemandData { oracle: inner.address, data: inner.bytes }),
        },
    }
}

/// What reading the demand out of escrow attestation data given as hex
/// text (with or without `0x`) gives.
pub open spec fn extract_demand_data_spec(data_hex: Seq<char>) -> Result<(Seq<u8>, Seq<u8>), DemandError> {
    match hex_decode_spec(encode_utf8(strip_0x_once(data_hex))) {
        None => Err(DemandError::InvalidHex),
        Some(bytes) => demand_from_escrow_data_spec(bytes),
    }
}

/// The oracle demand carried by an escrow attestation whose data is given
/// as hex text (with or without `0x`).
pub fn extract_demand_data(data_hex: &str) -> (r: Result<TrustedOracleArbiterDemandData, DemandError>)
    ensures
        demand_result_matches(r, extract_demand_data_spec(data_hex@)),
{
    let text = strip_0x(data_hex);
    proof {
        assert(text.spec_bytes() == encode_utf8(text@));
    }
    match hex_decode(text) {
        None => Err(DemandError::InvalidHex),
        Some(bytes) => demand_from_escrow_data(bytes.as_slice()),
    }
}

} // verus!
