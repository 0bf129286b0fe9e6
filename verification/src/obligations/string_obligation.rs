//! String obligations: a text item under a schema.

use vstd::prelude::*;
use vstd::string::*;
use vstd::utf8::*;

use crate::abi::{
    abi_decode_string_obligation, abi_encode_string_do_obligation_params,
    abi_encode_string_obligation, alloy_string_obligation_decoding, decode_error_from,
    string_do_obligation_params_encoding, string_obligation_abi_encoding, DecodeError,
    DECODE_MEMORY_LIMIT,
};
use crate::hex::{hex_decode, hex_decode_spec};
use crate::primitives::{keccak256, keccak256_spec, zeros, Address, B256};
use crate::types::{Attestation, DecodedAttestation};

verus! {

/// The obligation data of the string obligation contract.
#[derive(Clone, Debug, PartialEq, Eq)]
pub struct StringObligationData {
    pub item: String,
    pub schema: B256,
}

impl View for StringObligationData {
    type V = (Seq<char>, Seq<u8>);

    open spec fn view(&self) -> (Seq<char>, Seq<u8>) {
        (self.item@, self.schema@)
    }
}

impl StringObligationData {
    /// The ABI encoding of this record.
    pub open spec fn abi_encoding(&self) -> Seq<u8> {
        string_obligation_abi_encoding(encode_utf8(self.item@), self.schema@)
    }
}

/// The contracts the string obligation module talks to.
#[derive(Clone, Debug, PartialEq, Eq)]
pub struct StringObligationAddresses {
    pub eas: Address,
    pub obligation: Address,
}

/// The contracts of the string obligation module, by role.
#[derive(Clone, Copy, Debug, PartialEq, Eq)]
pub enum StringObligationContract {
    /// The attestation service.
    Eas,
    /// The string obligation contract.
    Obligation,
}

/// The arguments of one `doObligation` call.
#[derive(Clone, Debug, PartialEq, Eq)]
pub struct StringDoObligation {
    pub data: StringObligationData,
    pub ref_uid: B256,
}

/// Why an obligation item could not be read from hex text.
#[derive(Clone, Copy, Debug, PartialEq, Eq)]
pub enum ExtractError {
    /// The text is not hex.
    InvalidHex,
    /// The bytes are not an encoded string obligation.
    InvalidObligation,
}

/// `s` without one leading `0x`.
pub open spec fn strip_0x_once(s: Seq<char>) -> Seq<char> {
    if s.len() >= 2 && s[0] == '0' && s[1] == 'x' {
        s.skip(2)
    } else {
        s
    }
}

/// The Solidity signature of the obligation contract's `doObligation`.
pub open spec fn do_obligation_signature() -> Seq<char> {
    "doObligation((string,bytes32),bytes32)"@
}

/// The function selector of `doObligation`: the first four bytes of the
/// hash of its signature.
pub open spec fn do_obligation_selector() -> Seq<u8> {
    keccak256_spec(encode_utf8(do_obligation_signature())).subrange(0, 4)
}

/// The zero word when no word is given.
pub open spec fn word_or_zero(w: Option<B256>) -> Seq<u8> {
    match w {
        Some(u) => u@,
        None => zeros(32),
    }
}

fn b256_or_zero(w: Option<B256>) -> (r: B256)
    ensures
        r@ == word_or_zero(w),
{
    match w {
        Some(u) => u,
        None => B256::zero(),
    }
}

/// Removes one leading `0x`, as `str::strip_prefix("0x").unwrap_or(s)` does.
pub fn strip_0x(s: &str) -> (r: &str)
    ensures
        r@ == strip_0x_once(s@),
{
    let n = s.unicode_len();
    if n >= 2 && s.get_char(0) == '0' && s.get_char(1) == 'x' {
        assert(s@.skip(2) =~= s@.subrange(2, n as int));
        s.substring_char(2, n)
    } else {
        s
    }
}

/// String obligations at a given deployment.
#[derive(Clone, Debug)]
pub struct StringObligationModule {
    pub addresses: StringObligationAddresses,
}

impl StringObligationModule {
    /// A module for the contracts at `addresses`.
    pub fn new(addresses: StringObligationAddresses) -> (r: Self)
        ensures
            r.addresses == addresses,
    {
        StringObligationModule { addresses }
    }

    /// The address of one of the module's contracts.
    pub fn address(&self, contract: StringObligationContract) -> (r: Address)
        ensures
            r == match contract {
                StringObligationContract::Eas => self.addresses.eas,
                StringObligationContract::Obligation => self.addresses.obligation,
            },
    {
        match contract {
            StringObligationContract::Eas => self.addresses.eas,
            StringObligationContract::Obligation => self.addresses.obligation,
        }
    }

    /// Reads obligation data from its ABI encoding. Decoding the encoding of
    /// any record (with an item within the decoder's memory limit) gives that
    /// record back.
    pub fn decode(obligation_data: &[u8]) -> (r: Result<StringObligationData, DecodeError>)
        ensures
            r is Ok <==> alloy_string_obligation_decoding(obligation_data@) is Some,
            r matches Ok(d) ==> alloy_string_obligation_decoding(obligation_data@) == Some(d@),
            r matches Err(e) ==> e == DecodeError::InvalidEncoding,
            forall|d: StringObligationData|
                #![trigger d.abi_encoding()]
                (r matches Ok(x) && x@ == d@) <== (obligation_data@ == d.abi_encoding()
                    && encode_utf8(d.item@).len() <= DECODE_MEMORY_LIMIT),
    {
        match abi_decode_string_obligation(obligation_data) {
            Ok(rec) => Ok(StringObligationData { item: rec.item, schema: rec.schema }),
            Err(e) => Err(decode_error_from(e)),
        }
    }

    /// The ABI encoding of obligation data.
    pub fn encode(obligation_data: &StringObligationData) -> (r: Vec<u8>)
        ensures
            r@ == obligation_data.abi_encoding(),
    {
        abi_encode_string_obligation(obligation_data.item.as_str(), &obligation_data.schema)
    }

    /// Obligation data for an item, under the given schema or the zero schema.
    pub fn obligation_data(item: String, schema: Option<B256>) -> (r: StringObligationData)
        ensures
            r.item@ == item@,
            r.schema@ == word_or_zero(schema),
    {
        StringObligationData { item, schema: b256_or_zero(schema) }
    }

    /// The encoding of a text item (such as a JSON document) under the given
    /// schema or the zero schema.
    pub fn encode_item(item: String, schema: Option<B256>) -> (r: Vec<u8>)
        ensures
            r@ == string_obligation_abi_encoding(encode_utf8(item@), word_or_zero(schema)),
    {
        let data = Self::obligation_data(item, schema);
        Self::encode(&data)
    }

    /// Reads the obligation data that an attestation carries.
    pub fn decode_obligation(attestation: Attestation) -> (r: Result<
        DecodedAttestation<StringObligationData>,
        DecodeError,
    >)
        ensures
            r is Ok <==> alloy_string_obligation_decoding(attestation.data@) is Some,
            r matches Ok(d) ==> d.attestation == attestation && alloy_string_obligation_decoding(
                attestation.data@,
            ) == Some(d.data@),
            r matches Err(e) ==> e == DecodeError::InvalidEncoding,
    {
        match Self::decode(attestation.data.as_slice()) {
            Ok(data) => Ok(DecodedAttestation { attestation, data }),
            Err(e) => Err(e),
        }
    }

    /// The arguments with which `do_obligation` (and its calldata builder)
    /// calls the obligation contract: the item under the given schema or the
    /// zero schema, and the referenced UID or zero.
    pub fn do_obligation_call(item: String, schema: Option<B256>, ref_uid: Option<B256>) -> (r:
        StringDoObligation)
        ensures
            r.data.item@ == item@,
            r.data.schema@ == word_or_zero(schema),
            r.ref_uid@ == word_or_zero(ref_uid),
    {
        StringDoObligation {
            data: Self::obligation_data(item, schema),
            ref_uid: b256_or_zero(ref_uid),
        }
    }

    /// The target and calldata of the `doObligation` call that records the
    /// item (under the given schema or the zero schema, referencing the
    /// given UID or zero), for submitting it without signing here.
    pub fn do_obligation_calldata(&self, item: String, schema: Option<B256>, ref_uid: Option<B256>) -> (r: (
        Address,
        Vec<u8>,
    ))
        ensures
            r.0 == self.addresses.obligation,
            r.1@ == do_obligation_selector() + string_do_obligation_params_encoding(
                encode_utf8(item@),
                word_or_zero(schema),
                word_or_zero(ref_uid),
            ),
    {
        let call = Self::do_obligation_call(item, schema, ref_uid);
        let signature = "doObligation((string,bytes32),bytes32)";
        let hash = keccak256(signature.as_bytes());
        let mut calldata: Vec<u8> = Vec::new();
        calldata.push(hash.0[0]);
        calldata.push(hash.0[1]);
        calldata.push(hash.0[2]);
        calldata.push(hash.0[3]);
        assert(calldata@ =~= do_obligation_selector());
        let mut params = abi_encode_string_do_obligation_params(
            call.data.item.as_str(),
            &call.data.schema,
            &call.ref_uid,
        );
        calldata.append(&mut params);
        (self.addresses.obligation, calldata)
    }
}

/// The item of the string obligation whose ABI encoding is given as hex text
/// (with or without `0x`), as a fulfillment attestation carries it.
pub fn extract_obligation_data(data_hex: &str) -> (r: Result<String, ExtractError>)
    ensures
        ({
            let text = strip_0x_once(data_hex@);
            match hex_decode_spec(encode_utf8(text)) {
                None => r == Err::<String, ExtractError>(ExtractError::InvalidHex),
                Some(bytes) => match alloy_string_obligation_decoding(bytes) {
                    None => r == Err::<String, ExtractError>(ExtractError::InvalidObligation),
                    Some(d) => r matches Ok(item) && item@ == d.0,
                },
            }
        }),
{
    let text = strip_0x(data_hex);
    proof {
        assert(text.spec_bytes() == encode_utf8(text@));
    }
    match hex_decode(text) {
        None => Err(ExtractError::InvalidHex),
        Some(bytes) => match StringObligationModule::decode(bytes.as_slice()) {
            Ok(data) => Ok(data.item),
            Err(_) => Err(ExtractError::InvalidObligation),
        },
    }
}

} // verus!
