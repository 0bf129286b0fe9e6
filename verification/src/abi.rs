//! Solidity ABI encoding of the obligation records this library reads and
//! writes, through alloy's `SolValue` codec.
//!
//! The encoding of a record is stated exactly below; decoding is alloy's
//! (lenient about offsets and padding), named here, together with the fact
//! that a canonical encoding decodes back to the record it encodes.

use alloy::primitives::{Address as AlloyAddress, Bytes as AlloyBytes, U256 as AlloyU256};
use alloy::sol_types::SolValue;
use vstd::prelude::*;
use vstd::utf8::*;

use crate::obligations::escrow_data::{
    Erc1155EscrowObligationData, Erc20EscrowObligationData,
    Erc20PaymentObligationData, NativeTokenEscrowObligationData, TokenBundleEscrowObligationData,
};
use crate::primitives::{zeros, Address, B256, U256};

verus! {

/// The error alloy's ABI decoder reports.
#[verifier::external_type_specification]
#[verifier::external_body]
pub struct ExAbiError(alloy::sol_types::Error);

/// Why bytes could not be read as an ABI-encoded record.
#[derive(Clone, Copy, Debug, PartialEq, Eq)]
pub enum DecodeError {
    /// The ABI decoder refused the bytes.
    InvalidEncoding,
}

/// Every decoder failure is reported as an invalid encoding.
pub fn decode_error_from(_e: alloy::sol_types::Error) -> (r: DecodeError)
    ensures
        r == DecodeError::InvalidEncoding,
{
    DecodeError::InvalidEncoding
}

/// The most bytes alloy's default decoder configuration lets one decoding
/// allocate for `bytes` and `string` contents.
pub const DECODE_MEMORY_LIMIT: usize = 0x4000_0000;

/// The `len` low-order bytes of `n`, most significant first.
pub open spec fn be_bytes(n: nat, len: nat) -> Seq<u8>
    decreases len,
{
    if len == 0 {
        Seq::empty()
    } else {
        be_bytes(n / 256, (len - 1) as nat).push((n % 256) as u8)
    }
}

/// One ABI word holding the unsigned integer `n`.
pub open spec fn abi_uint_word(n: nat) -> Seq<u8> {
    be_bytes(n, 32)
}

/// `b` followed by zero bytes up to the next multiple of 32.
pub open spec fn abi_padded(b: Seq<u8>) -> Seq<u8> {
    b + zeros(((32 - b.len() % 32) % 32) as nat)
}

/// The tail of a dynamic `bytes`/`string` value: its length, then its
/// contents padded to whole words.
pub open spec fn abi_dynamic_tail(b: Seq<u8>) -> Seq<u8> {
    abi_uint_word(b.len()) + abi_padded(b)
}

/// ABI encoding, as one value, of the record `(bytes payload, bytes32 salt,
/// bytes32 schema)`: the offset of the record, the record's head (offset of
/// the payload, salt, schema), then the payload's tail.
pub open spec fn commit_reveal_abi_encoding(payload: Seq<u8>, salt: Seq<u8>, schema: Seq<u8>) -> Seq<u8> {
    abi_uint_word(32) + abi_uint_word(96) + salt + schema + abi_dynamic_tail(payload)
}

/// ABI encoding, as one value, of the record `(string item, bytes32 schema)`,
/// the item taken as its UTF-8 bytes.
pub open spec fn string_obligation_abi_encoding(item_utf8: Seq<u8>, schema: Seq<u8>) -> Seq<u8> {
    abi_uint_word(32) + abi_uint_word(64) + schema + abi_dynamic_tail(item_utf8)
}

/// The fields of a `(bytes, bytes32, bytes32)` record.
pub struct CommitRevealRecord {
    pub payload: Vec<u8>,
    pub salt: B256,
    pub schema: B256,
}

/// The fields of a `(string, bytes32)` record.
pub struct StringObligationRecord {
    pub item: String,
    pub schema: B256,
}

/// ABI encoding, as call parameters, of `((string item, bytes32 schema),
/// bytes32 ref_uid)`: the offset of the record, the reference, then the
/// record (offset of the item, schema, the item's tail).
pub open spec fn string_do_obligation_params_encoding(
    item_utf8: Seq<u8>,
    schema: Seq<u8>,
    ref_uid: Seq<u8>,
) -> Seq<u8> {
    abi_uint_word(64) + ref_uid + abi_uint_word(64) + schema + abi_dynamic_tail(item_utf8)
}

/// What alloy's decoder makes of `data` as a `(bytes, bytes32, bytes32)` record.
pub uninterp spec fn alloy_commit_reveal_decoding(data: Seq<u8>) -> Option<(Seq<u8>, Seq<u8>, Seq<u8>)>;

/// What alloy's decoder makes of `data` as a `(string, bytes32)` record.
pub uninterp spec fn alloy_string_obligation_decoding(data: Seq<u8>) -> Option<(Seq<char>, Seq<u8>)>;

/// `SolValue::abi_encode` on `(bytes, bytes32, bytes32)`: the standard ABI
/// encoding of the tuple as a single value.
#[verifier::external_body]
pub(crate) fn abi_encode_commit_reveal(payload: &[u8], salt: &B256, schema: &B256) -> (r: Vec<u8>)
    ensures
        r@ == commit_reveal_abi_encoding(payload@, salt@, schema@),
{
    (payload.to_vec(), salt.0, schema.0).abi_encode()
}

/// `SolValue::abi_decode` on `(bytes, bytes32, bytes32)`. The result is the
/// named decoding of the input; a canonical encoding whose payload is within
/// the decoder's memory limit decodes to the record it encodes.
#[verifier::external_body]
pub(crate) fn abi_decode_commit_reveal(data: &[u8]) -> (r: Result<CommitRevealRecord, alloy::sol_types::Error>)
    ensures
        r is Ok <==> alloy_commit_reveal_decoding(data@) is Some,
        r matches Ok(v) ==> alloy_commit_reveal_decoding(data@) == Some((v.payload@, v.salt@, v.schema@)),
        forall|p: Seq<u8>, salt: Seq<u8>, schema: Seq<u8>|
            #![trigger commit_reveal_abi_encoding(p, salt, schema)]
            (r matches Ok(v) && v.payload@ == p && v.salt@ == salt && v.schema@ == schema) <== (
            data@ == commit_reveal_abi_encoding(p, salt, schema) && salt.len() == 32
                && schema.len() == 32 && p.len() <= DECODE_MEMORY_LIMIT),
{
    match <(AlloyBytes, alloy::primitives::B256, alloy::primitives::B256)>::abi_decode(data) {
        Ok((payload, salt, schema)) => Ok(CommitRevealRecord { payload: payload.to_vec(), salt: B256(salt.0), schema: B256(schema.0) }),
        Err(e) => Err(e),
    }
}

/// `SolValue::abi_encode` on `(string, bytes32)`: the standard ABI encoding
/// of the tuple as a single value, the string as its UTF-8 bytes.
#[verifier::external_body]
pub(crate) fn abi_encode_string_obligation(item: &str, schema: &B256) -> (r: Vec<u8>)
    ensures
        r@ == string_obligation_abi_encoding(encode_utf8(item@), schema@),
{
    (item.to_string(), schema.0).abi_encode()
}

/// `SolValue::abi_encode_params` on `((string, bytes32), bytes32)`: the
/// standard ABI encoding of call parameters.
#[verifier::external_body]
pub(crate) fn abi_encode_string_do_obligation_params(item: &str, schema: &B256, ref_uid: &B256) -> (r:
    Vec<u8>)
    ensures
        r@ == string_do_obligation_params_encoding(encode_utf8(item@), schema@, ref_uid@),
{
    ((item.to_string(), schema.0), ref_uid.0).abi_encode_params()
}

/// `SolValue::abi_decode` on `(string, bytes32)`. The result is the named
/// decoding of the input; a canonical encoding whose text is within the
/// decoder's memory limit decodes to the record it encodes.
#[verifier::external_body]
pub(crate) fn abi_decode_string_obligation(data: &[u8]) -> (r: Result<StringObligationRecord, alloy::sol_types::Error>)
    ensures
        r is Ok <==> alloy_string_obligation_decoding(data@) is Some,
        r matches Ok(v) ==> alloy_string_obligation_decoding(data@) == Some((v.item@, v.schema@)),
        forall|item: Seq<char>, schema: Seq<u8>|
            #![trigger string_obligation_abi_encoding(encode_utf8(item), schema)]
            (r matches Ok(v) && v.item@ == item && v.schema@ == schema) <== (data@
                == string_obligation_abi_encoding(encode_utf8(item), schema) && schema.len() == 32
                && encode_utf8(item).len() <= DECODE_MEMORY_LIMIT),
{
    match <(String, alloy::primitives::B256)>::abi_decode(data) {
        Ok((item, schema)) => Ok(StringObligationRecord { item, schema: B256(schema.0) }),
        Err(e) => Err(e),
    }
}

/// ABI encoding, as one value, of the record `(address a, bytes b)`: the
/// offset of the record, the address in a zero-padded word, the offset of
/// `b`, then `b`'s tail.
pub open spec fn address_bytes_abi_encoding(a: Seq<u8>, b: Seq<u8>) -> Seq<u8> {
    abi_uint_word(32) + zeros(12) + a + abi_uint_word(64) + abi_dynamic_tail(b)
}

/// The fields of an `(address, bytes)` record.
pub struct AddressBytesRecord {
    pub address: Address,
    pub bytes: Vec<u8>,
}

/// What alloy's decoder makes of `data` as an `(address, bytes)` record.
pub uninterp spec fn alloy_address_bytes_decoding(data: Seq<u8>) -> Option<(Seq<u8>, Seq<u8>)>;

/// `SolValue::abi_decode` on `(address, bytes)`. The result is the named
/// decoding of the input; a canonical encoding whose bytes are within the
/// decoder's memory limit decodes to the record it encodes.
#[verifier::external_body]
pub(crate) fn abi_decode_address_bytes(data: &[u8]) -> (r: Result<AddressBytesRecord, alloy::sol_types::Error>)
    ensures
        r is Ok <==> alloy_address_bytes_decoding(data@) is Some,
        r matches Ok(v) ==> alloy_address_bytes_decoding(data@) == Some((v.address@, v.bytes@)),
        forall|a: Seq<u8>, b: Seq<u8>|
            #![trigger address_bytes_abi_encoding(a, b)]
            (r matches Ok(v) && v.address@ == a && v.bytes@ == b) <== (data@
                == address_bytes_abi_encoding(a, b) && a.len() == 20 && b.len() <= DECODE_MEMORY_LIMIT),
{
    match <(AlloyAddress, alloy::primitives::Bytes)>::abi_decode(data) {
        Ok((a, b)) => Ok(AddressBytesRecord { address: Address(a.0.0), bytes: b.to_vec() }),
        Err(e) => Err(e),
    }
}

/// An address as an ABI word: 12 zero bytes, then its 20 bytes.
pub open spec fn abi_address_word(a: Seq<u8>) -> Seq<u8> {
    zeros(12) + a
}

/// ABI encoding, as one value, of `(address arbiter, bytes demand, address
/// token, uint256 w)`.
pub open spec fn token_escrow_abi_encoding(arbiter: Seq<u8>, demand: Seq<u8>, token: Seq<u8>, w: Seq<u8>) -> Seq<u8> {
    abi_uint_word(32) + abi_address_word(arbiter) + abi_uint_word(128) + abi_address_word(token) + w
        + abi_dynamic_tail(demand)
}

/// ABI encoding, as one value, of `(address arbiter, bytes demand, address
/// token, uint256 id, uint256 amount)`.
pub open spec fn erc1155_escrow_abi_encoding(
    arbiter: Seq<u8>,
    demand: Seq<u8>,
    token: Seq<u8>,
    id: Seq<u8>,
    amount: Seq<u8>,
) -> Seq<u8> {
    abi_uint_word(32) + abi_address_word(arbiter) + abi_uint_word(160) + abi_address_word(token) + id
        + amount + abi_dynamic_tail(demand)
}

/// ABI encoding, as one value, of `(address arbiter, bytes demand, uint256
/// amount)`.
pub open spec fn native_escrow_abi_encoding(arbiter: Seq<u8>, demand: Seq<u8>, amount: Seq<u8>) -> Seq<u8> {
    abi_uint_word(32) + abi_address_word(arbiter) + abi_uint_word(96) + amount + abi_dynamic_tail(demand)
}

/// What alloy's decoder makes of `data` as an `(address, bytes, address,
/// uint256)` record.
pub uninterp spec fn alloy_token_escrow_decoding(data: Seq<u8>) -> Option<(Seq<u8>, Seq<u8>, Seq<u8>, Seq<u8>)>;

/// `SolValue::abi_decode` on `(address, bytes, address, uint256)`, the
/// layout of ERC20 and ERC721 escrow data; the integer comes as its 32
/// big-endian bytes. The result is the named decoding of the input; a
/// canonical encoding whose demand is within the decoder's memory limit
/// decodes to the record it encodes.
#[verifier::external_body]
pub(crate) fn abi_decode_token_escrow(data: &[u8]) -> (r: Result<Erc20EscrowObligationData, alloy::sol_types::Error>)
    ensures
        r is Ok <==> alloy_token_escrow_decoding(data@) is Some,
        r matches Ok(v) ==> alloy_token_escrow_decoding(data@) == Some((v.arbiter@, v.demand@, v.token@, v.amount@)),
        forall|a: Seq<u8>, d: Seq<u8>, t: Seq<u8>, w: Seq<u8>|
            #![trigger token_escrow_abi_encoding(a, d, t, w)]
            (r matches Ok(v) && v.arbiter@ == a && v.demand@ == d && v.token@ == t && v.amount@ == w) <== (
            data@ == token_escrow_abi_encoding(a, d, t, w) && a.len() == 20 && t.len() == 20 && w.len()
                == 32 && d.len() <= DECODE_MEMORY_LIMIT),
{
    match <(AlloyAddress, AlloyBytes, AlloyAddress, AlloyU256)>::abi_decode(data) {
        Ok((a, d, t, w)) => Ok(Erc20EscrowObligationData {
            arbiter: Address(a.0.0),
            demand: d.to_vec(),
            token: Address(t.0.0),
            amount: U256(w.to_be_bytes::<32>()),
        }),
        Err(e) => Err(e),
    }
}

/// What alloy's decoder makes of `data` as an `(address, bytes, address,
/// uint256, uint256)` record.
pub uninterp spec fn alloy_erc1155_escrow_decoding(data: Seq<u8>) -> Option<(Seq<u8>, Seq<u8>, Seq<u8>, Seq<u8>, Seq<u8>)>;

/// `SolValue::abi_decode` on `(address, bytes, address, uint256, uint256)`,
/// the layout of ERC1155 escrow data. The result is the named decoding; a
/// canonical encoding whose demand is within the decoder's memory limit
/// decodes to the record it encodes.
#[verifier::external_body]
pub(crate) fn abi_decode_erc1155_escrow(data: &[u8]) -> (r: Result<Erc1155EscrowObligationData, alloy::sol_types::Error>)
    ensures
        r is Ok <==> alloy_erc1155_escrow_decoding(data@) is Some,
        r matches Ok(v) ==> alloy_erc1155_escrow_decoding(data@) == Some(
            (v.arbiter@, v.demand@, v.token@, v.token_id@, v.amount@),
        ),
        forall|a: Seq<u8>, d: Seq<u8>, t: Seq<u8>, i: Seq<u8>, w: Seq<u8>|
            #![trigger erc1155_escrow_abi_encoding(a, d, t, i, w)]
            (r matches Ok(v) && v.arbiter@ == a && v.demand@ == d && v.token@ == t && v.token_id@ == i
                && v.amount@ == w) <== (data@ == erc1155_escrow_abi_encoding(a, d, t, i, w) && a.len()
                == 20 && t.len() == 20 && i.len() == 32 && w.len() == 32 && d.len()
                <= DECODE_MEMORY_LIMIT),
{
    match <(AlloyAddress, AlloyBytes, AlloyAddress, AlloyU256, AlloyU256)>::abi_decode(data) {
        Ok((a, d, t, id, w)) => Ok(Erc1155EscrowObligationData {
            arbiter: Address(a.0.0),
            demand: d.to_vec(),
            token: Address(t.0.0),
            token_id: U256(id.to_be_bytes::<32>()),
            amount: U256(w.to_be_bytes::<32>()),
        }),
        Err(e) => Err(e),
    }
}

/// What alloy's decoder makes of `data` as an `(address, bytes, uint256)`
/// record.
pub uninterp spec fn alloy_native_escrow_decoding(data: Seq<u8>) -> Option<(Seq<u8>, Seq<u8>, Seq<u8>)>;

/// `SolValue::abi_decode` on `(address, bytes, uint256)`, the layout of
/// native-currency escrow data. The result is the named decoding; a
/// canonical encoding whose demand is within the decoder's memory limit
/// decodes to the record it encodes.
#[verifier::external_body]
pub(crate) fn abi_decode_native_escrow(data: &[u8]) -> (r: Result<NativeTokenEscrowObligationData, alloy::sol_types::Error>)
    ensures
        r is Ok <==> alloy_native_escrow_decoding(data@) is Some,
        r matches Ok(v) ==> alloy_native_escrow_decoding(data@) == Some((v.arbiter@, v.demand@, v.amount@)),
        forall|a: Seq<u8>, d: Seq<u8>, w: Seq<u8>|
            #![trigger native_escrow_abi_encoding(a, d, w)]
            (r matches Ok(v) && v.arbiter@ == a && v.demand@ == d && v.amount@ == w) <== (data@
                == native_escrow_abi_encoding(a, d, w) && a.len() == 20 && w.len() == 32 && d.len()
                <= DECODE_MEMORY_LIMIT),
{
    match <(AlloyAddress, AlloyBytes, AlloyU256)>::abi_decode(data) {
        Ok((a, d, w)) => Ok(NativeTokenEscrowObligationData {
            arbiter: Address(a.0.0),
            demand: d.to_vec(),
            amount: U256(w.to_be_bytes::<32>()),
        }),
        Err(e) => Err(e),
    }
}

/// What alloy's decoder makes of `data` as an `(address, bytes, uint256,
/// address[], uint256[], address[], uint256[], address[], uint256[],
/// uint256[])` record, as far as its first three fields.
pub uninterp spec fn alloy_token_bundle_escrow_decoding(data: Seq<u8>) -> Option<(Seq<u8>, Seq<u8>, Seq<u8>)>;

/// `SolValue::abi_decode` on `(address, bytes, uint256, address[],
/// uint256[], address[], uint256[], address[], uint256[], uint256[])`, the
/// layout of token-bundle escrow data. The result is the named decoding;
/// the token lists are decoded but not handed back.
#[verifier::external_body]
pub(crate) fn abi_decode_token_bundle_escrow(data: &[u8]) -> (r: Result<TokenBundleEscrowObligationData, alloy::sol_types::Error>)
    ensures
        r is Ok <==> alloy_token_bundle_escrow_decoding(data@) is Some,
        r matches Ok(v) ==> alloy_token_bundle_escrow_decoding(data@) == Some((v.arbiter@, v.demand@, v.native_amount@)),
{
    match <(AlloyAddress, AlloyBytes, AlloyU256, Vec<AlloyAddress>, Vec<AlloyU256>, Vec<AlloyAddress>, Vec<AlloyU256>, Vec<AlloyAddress>, Vec<AlloyU256>, Vec<AlloyU256>)>::abi_decode(data) {
        Ok(t) => Ok(TokenBundleEscrowObligationData {
            arbiter: Address(t.0.0.0),
            demand: t.1.to_vec(),
            native_amount: U256(t.2.to_be_bytes::<32>()),
        }),
        Err(e) => Err(e),
    }
}

/// How alloy's decoder reads `data` as the static record `(address,
/// uint256, address)`: it needs the three words, and takes the low 20 bytes
/// of the first and third and the whole second; anything after them is
/// ignored.
pub open spec fn erc20_payment_decoding(data: Seq<u8>) -> Option<(Seq<u8>, Seq<u8>, Seq<u8>)> {
    if data.len() >= 96 {
        Some((data.subrange(12, 32), data.subrange(32, 64), data.subrange(76, 96)))
    } else {
        None
    }
}

/// `SolValue::abi_decode` on `(address, uint256, address)`, the layout of
/// ERC20 payment data, with the default (non-strict) decoder: as
/// `erc20_payment_decoding` states.
#[verifier::external_body]
pub(crate) fn abi_decode_erc20_payment(data: &[u8]) -> (r: Result<Erc20PaymentObligationData, alloy::sol_types::Error>)
    ensures
        r is Ok <==> erc20_payment_decoding(data@) is Some,
        r matches Ok(v) ==> erc20_payment_decoding(data@) == Some((v.token@, v.amount@, v.payee@)),
{
    match <(AlloyAddress, AlloyU256, AlloyAddress)>::abi_decode(data) {
        Ok((t, w, p)) => Ok(Erc20PaymentObligationData {
            token: Address(t.0.0),
            amount: U256(w.to_be_bytes::<32>()),
            payee: Address(p.0.0),
        }),
        Err(e) => Err(e),
    }
}

} // verus!
