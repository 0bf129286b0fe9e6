//! Signers: a local secp256k1 key, or an external command that prints
//! signatures (so an account whose key cannot be exported can still sign).
//!
//! A command signer runs its program with arguments in which the token
//! `{digest}` stands for the `0x`-hex digest to sign, or (for EIP-712 typed
//! data, when a typed-data command is configured) `{typed_data}` stands for
//! the JSON of the typed data. The program must print a 65-byte signature as
//! hex. This module decides what to run and reads what was printed; running
//! the program is left to the caller.

use vstd::prelude::*;
use vstd::string::*;
use vstd::utf8::*;

use crate::hex::{
    hex_decode, hex_decode_spec, hex_encode_prefixed, hex_encode_spec, is_lower_hex_char,
    lemma_hex_encode_shape, lemma_hex_round_trip,
};
use crate::primitives::{Address, B256, U256};
use crate::text::{
    is_line_padding, is_white_space, lemma_trim_ignores_trailing_padding, replace_all, replace_spec, strip_0x_prefixes, strip_0x_repeated, trim,
    trim_end_spec, trim_spec, trim_start_spec,
};

verus! {

/// An ECDSA signature: `r`, `s` and the parity of the curve point's y.
#[derive(Clone, Copy, Debug, PartialEq, Eq)]
pub struct Signature {
    pub r: U256,
    pub s: U256,
    pub y_parity: bool,
}

/// The error alloy reports for bytes that are not a signature.
#[verifier::external_type_specification]
#[verifier::external_body]
pub struct ExSignatureError(alloy::primitives::SignatureError);

/// Whether `v` is a recovery byte of a known Ethereum encoding:
/// bare (0, 1), pre-EIP-155 (27, 28) or EIP-155 (35 and above).
pub open spec fn valid_v(v: u8) -> bool {
    v == 0 || v == 1 || v == 27 || v == 28 || v >= 35
}

/// The y parity that a valid recovery byte encodes.
pub open spec fn parity_of_v(v: u8) -> bool {
    if v <= 1 {
        v % 2 == 1
    } else {
        v % 2 == 0
    }
}

/// A 65-byte raw signature `r ‖ s ‖ v`, read as `(r, s, y parity)`.
pub open spec fn signature_from_raw_spec(bytes: Seq<u8>) -> Option<(Seq<u8>, Seq<u8>, bool)> {
    if bytes.len() == 65 && valid_v(bytes[64]) {
        Some((bytes.subrange(0, 32), bytes.subrange(32, 64), parity_of_v(bytes[64])))
    } else {
        None
    }
}

/// `Signature::from_raw`: exactly 65 bytes, `r`, then `s`, then a recovery
/// byte `v` that must be 0, 1, 27, 28 or at least 35.
#[verifier::external_body]
fn signature_from_raw(bytes: &[u8]) -> (r: Result<Signature, alloy::primitives::SignatureError>)
    ensures
        r is Ok <==> signature_from_raw_spec(bytes@) is Some,
        r matches Ok(sig) ==> signature_from_raw_spec(bytes@) == Some((sig.r@, sig.s@, sig.y_parity)),
{
    match alloy::primitives::Signature::from_raw(bytes) {
        Ok(sig) => Ok(Signature {
            r: U256(sig.r().to_be_bytes::<32>()),
            s: U256(sig.s().to_be_bytes::<32>()),
            y_parity: sig.v(),
        }),
        Err(e) => Err(e),
    }
}

/// The address of the secp256k1 key with the given secret scalar, if the
/// scalar is a valid key.
pub uninterp spec fn secp256k1_key_address(secret: Seq<u8>) -> Option<Seq<u8>>;

/// `PrivateKeySigner::from_bytes(..).address()`: the address of the key,
/// or nothing when the bytes are not a valid secret scalar.
#[verifier::external_body]
fn key_address(secret: &B256) -> (r: Option<Address>)
    ensures
        r is Some <==> secp256k1_key_address(secret@) is Some,
        r matches Some(a) ==> secp256k1_key_address(secret@) == Some(a@),
{
    match alloy::signers::local::PrivateKeySigner::from_bytes(&alloy::primitives::B256::from(secret.0)) {
        Ok(signer) => Some(Address(signer.address().0 .0)),
        Err(_) => None,
    }
}

/// Why a signature could not be had from a signing command.
#[derive(Clone, Debug, PartialEq, Eq)]
pub enum SignerError {
    /// The command exited unsuccessfully; its name and what it wrote to stderr.
    CommandFailed { program: String, stderr: String },
    /// The command's output, trimmed and without `0x`, is not hex.
    InvalidHex,
    /// The decoded output is not a 65-byte signature with a valid `v`.
    InvalidSignature,
    /// The JSON given for signing is not EIP-712 typed data that can be hashed.
    InvalidTypedData,
}

/// The EIP-712 signing hash of typed data written as JSON, as alloy reads
/// and hashes it; nothing when alloy cannot read or hash it.
pub uninterp spec fn eip712_signing_hash_of_json(json: Seq<char>) -> Option<Seq<u8>>;

/// `TypedData::eip712_signing_hash` on the typed data that
/// `serde_json::from_str` reads from `json`: the result is the named hash of
/// the JSON text, nothing when either step fails.
#[verifier::external_body]
fn typed_data_signing_hash(json: &str) -> (r: Option<B256>)
    ensures
        match eip712_signing_hash_of_json(json@) {
            Some(h) => r matches Some(w) && w@ == h,
            None => r is None,
        },
{
    match serde_json::from_str::<alloy::dyn_abi::TypedData>(json) {
        Ok(td) => match td.eip712_signing_hash() {
            Ok(h) => Some(B256(h.0)),
            Err(_) => None,
        },
        Err(_) => None,
    }
}

/// The token in digest-command arguments that stands for the digest.
pub open spec fn digest_token() -> Seq<char> {
    seq!['{', 'd', 'i', 'g', 'e', 's', 't', '}']
}

/// The token in typed-data-command arguments that stands for the JSON.
pub open spec fn typed_data_token() -> Seq<char> {
    seq!['{', 't', 'y', 'p', 'e', 'd', '_', 'd', 'a', 't', 'a', '}']
}

/// `args` with `token` replaced by `value` in each argument.
pub open spec fn substituted(args: Seq<Seq<char>>, token: Seq<char>, value: Seq<char>) -> Seq<Seq<char>> {
    args.map_values(|a: Seq<char>| replace_spec(a, token, value))
}

/// The text views of a list of strings.
pub open spec fn string_views(v: Seq<String>) -> Seq<Seq<char>> {
    v.map_values(|s: String| s@)
}

/// The `0x`-hex text of a digest.
pub open spec fn digest_text(digest: Seq<u8>) -> Seq<char> {
    seq!['0', 'x'] + hex_encode_spec(digest)
}

/// What a command's printed output says, read as a signature: the text is
/// trimmed, every leading `0x` is dropped, the rest is decoded as hex and
/// the bytes are read as a raw signature.
pub open spec fn signature_output_spec(stdout: Seq<char>) -> Result<(Seq<u8>, Seq<u8>, bool), SignerError> {
    match hex_decode_spec(encode_utf8(strip_0x_repeated(trim_spec(stdout)))) {
        None => Err(SignerError::InvalidHex),
        Some(bytes) => match signature_from_raw_spec(bytes) {
            None => Err(SignerError::InvalidSignature),
            Some(sig) => Ok(sig),
        },
    }
}

/// A program to run, with its arguments.
#[derive(Clone, Debug, PartialEq, Eq)]
pub struct CommandInvocation {
    pub program: String,
    pub args: Vec<String>,
}

/// The configuration of a command signer, as plain values.
pub ghost struct CommandSignerView {
    pub program: Seq<char>,
    pub args: Seq<Seq<char>>,
    pub typed_data_args: Option<Seq<Seq<char>>>,
    pub address: Address,
    pub chain_id: Option<u64>,
}

/// A signer that signs by running an external program.
#[derive(Clone, Debug)]
pub struct CommandSigner {
    program: String,
    /// Each arg may contain the literal token `{digest}`, replaced with the 0x-hex digest.
    args: Vec<String>,
    /// When set, EIP-712 typed data is signed via these args (each may contain the `{typed_data}`
    /// token, replaced with the EIP-712 JSON) instead of falling back to raw-digest signing.
    typed_data_args: Option<Vec<String>>,
    address: Address,
    chain_id: Option<u64>,
}

impl View for CommandSigner {
    type V = CommandSignerView;

    closed spec fn view(&self) -> CommandSignerView {
        CommandSignerView {
            program: self.program@,
            args: string_views(self.args@),
            typed_data_args: match self.typed_data_args {
                Some(a) => Some(string_views(a@)),
                None => None,
            },
            address: self.address,
            chain_id: self.chain_id,
        }
    }
}

/// Copies a list of strings.
fn copy_strings(v: &Vec<String>) -> (r: Vec<String>)
    ensures
        string_views(r@) == string_views(v@),
{
    let mut out: Vec<String> = Vec::new();
    let n = v.len();
    let mut i: usize = 0;
    while i < n
        invariant
            n == v.len(),
            i <= n,
            out.len() == i,
            forall|j: int| 0 <= j < i ==> #[trigger] out@[j]@ == v@[j]@,
        decreases n - i,
    {
        out.push(v[i].clone());
        i = i + 1;
    }
    assert(string_views(out@) =~= string_views(v@));
    out
}

/// Each argument with `token` replaced by `value`.
fn substitute_args(args: &Vec<String>, token: &str, value: &str) -> (r: Vec<String>)
    requires
        token@.len() > 0,
    ensures
        string_views(r@) == substituted(string_views(args@), token@, value@),
{
    let mut out: Vec<String> = Vec::new();
    let n = args.len();
    let mut i: usize = 0;
    while i < n
        invariant
            n == args.len(),
            token@.len() > 0,
            i <= n,
            out.len() == i,
            forall|j: int| 0 <= j < i ==> #[trigger] out@[j]@ == replace_spec(args@[j]@, token@, value@),
        decreases n - i,
    {
        out.push(replace_all(args[i].as_str(), token, value));
        i = i + 1;
    }
    assert(string_views(out@) =~= substituted(string_views(args@), token@, value@));
    out
}

impl CommandSigner {
    /// A signer that runs `program` with `args` to sign digests, for the
    /// account at `address`, with no chain id and no typed-data command.
    pub fn new(program: String, args: Vec<String>, address: Address) -> (r: Self)
        ensures
            r@ == (CommandSignerView {
                program: program@,
                args: string_views(args@),
                typed_data_args: None,
                address,
                chain_id: None,
            }),
    {
        CommandSigner { program, args, typed_data_args: None, address, chain_id: None }
    }

    /// Enables structured EIP-712 signing with a command of its own, whose
    /// arguments may contain the `{typed_data}` token.
    pub fn with_typed_data_command(self, args: Vec<String>) -> (r: Self)
        ensures
            r@ == (CommandSignerView { typed_data_args: Some(string_views(args@)), ..self@ }),
    {
        CommandSigner { typed_data_args: Some(args), ..self }
    }

    /// The signer's account address.
    pub fn address(&self) -> (r: Address)
        ensures
            r == self@.address,
    {
        self.address
    }

    /// The chain id the signer signs for, if any.
    pub fn chain_id(&self) -> (r: Option<u64>)
        ensures
            r == self@.chain_id,
    {
        self.chain_id
    }

    /// Sets the chain id the signer signs for.
    pub fn set_chain_id(&mut self, chain_id: Option<u64>)
        ensures
            final(self)@ == (CommandSignerView { chain_id, ..old(self)@ }),
    {
        self.chain_id = chain_id;
    }

    /// Whether typed data is signed by the typed-data command rather than
    /// by signing its EIP-712 digest.
    pub fn uses_typed_data_command(&self) -> (r: bool)
        ensures
            r == self@.typed_data_args is Some,
    {
        self.typed_data_args.is_some()
    }

    /// The invocation that signs `digest`: the program, with `{digest}` in
    /// each argument replaced by the `0x`-hex digest.
    pub fn digest_invocation(&self, digest: &B256) -> (r: CommandInvocation)
        ensures
            r.program@ == self@.program,
            string_views(r.args@) == substituted(self@.args, digest_token(), digest_text(digest@)),
    {
        let hexd = hex_encode_prefixed(digest.0.as_slice());
        let token = "{digest}";
        proof {
            reveal_strlit("{digest}");
            assert(token@ =~= digest_token());
        }
        let args = substitute_args(&self.args, token, hexd.as_str());
        CommandInvocation { program: self.program.clone(), args }
    }

    /// The invocation that signs typed data given as JSON, when a typed-data
    /// command is configured: the program, with `{typed_data}` in each
    /// typed-data argument replaced by the JSON. Nothing otherwise.
    pub fn typed_data_invocation(&self, json: &str) -> (r: Option<CommandInvocation>)
        ensures
            r is Some <==> self@.typed_data_args is Some,
            r matches Some(inv) ==> inv.program@ == self@.program && string_views(inv.args@)
                == substituted(self@.typed_data_args->0, typed_data_token(), json@),
    {
        match &self.typed_data_args {
            None => None,
            Some(targs) => {
                let token = "{typed_data}";
                proof {
                    reveal_strlit("{typed_data}");
                    assert(token@ =~= typed_data_token());
                }
                let args = substitute_args(targs, token, json);
                Some(CommandInvocation { program: self.program.clone(), args })
            },
        }
    }

    /// The invocation that signs typed data given as JSON: the typed-data
    /// command with the JSON when one is configured; else the digest command
    /// with the data's EIP-712 signing hash, refused when the JSON cannot be
    /// read and hashed as typed data.
    pub fn typed_data_signing_invocation(&self, json: &str) -> (r: Result<CommandInvocation, SignerError>)
        ensures
            self@.typed_data_args is Some ==> (r matches Ok(inv) && inv.program@ == self@.program
                && string_views(inv.args@) == substituted(
                self@.typed_data_args->0,
                typed_data_token(),
                json@,
            )),
            self@.typed_data_args is None ==> match eip712_signing_hash_of_json(json@) {
                None => r == Err::<CommandInvocation, SignerError>(SignerError::InvalidTypedData),
                Some(h) => r matches Ok(inv) && inv.program@ == self@.program && string_views(
                    inv.args@,
                ) == substituted(self@.args, digest_token(), digest_text(h)),
            },
    {
        match self.typed_data_invocation(json) {
            Some(inv) => Ok(inv),
            None => match typed_data_signing_hash(json) {
                Some(h) => Ok(self.digest_invocation(&h)),
                None => Err(SignerError::InvalidTypedData),
            },
        }
    }

    /// The signature a finished signing command produced: an error naming
    /// the program and carrying its stderr when it failed, else its printed
    /// output read as a signature.
    pub fn command_result(&self, success: bool, stdout: &str, stderr: &str) -> (r: Result<
        Signature,
        SignerError,
    >)
        ensures
            !success ==> (r matches Err(SignerError::CommandFailed { program, stderr: err })
                && program@ == self@.program && err@ == stderr@),
            success ==> match signature_output_spec(stdout@) {
                Ok(sig) => r matches Ok(s) && (s.r@, s.s@, s.y_parity) == sig,
                Err(e) => r == Err::<Signature, SignerError>(e),
            },
    {
        if !success {
            return Err(
                SignerError::CommandFailed {
                    program: self.program.clone(),
                    stderr: String::from_str(stderr),
                },
            );
        }
        parse_signature_output(stdout)
    }
}

/// Reads a command's printed output as a signature: trims it, drops every
/// leading `0x`, decodes the rest as hex and reads the bytes as a raw
/// 65-byte signature.
pub fn parse_signature_output(stdout: &str) -> (r: Result<Signature, SignerError>)
    ensures
        match signature_output_spec(stdout@) {
            Ok(sig) => r matches Ok(s) && (s.r@, s.s@, s.y_parity) == sig,
            Err(e) => r == Err::<Signature, SignerError>(e),
        },
{
    let t = trim(stdout);
    let t = strip_0x_prefixes(t);
    proof {
        assert(t.spec_bytes() == encode_utf8(t@));
    }
    match hex_decode(t) {
        None => Err(SignerError::InvalidHex),
        Some(bytes) => match signature_from_raw(bytes.as_slice()) {
            Ok(sig) => Ok(sig),
            Err(_) => Err(SignerError::InvalidSignature),
        },
    }
}

/// A signer with a local secret key.
#[derive(Clone, Debug)]
pub struct LocalSigner {
    secret: B256,
    address: Address,
    chain_id: Option<u64>,
}

impl LocalSigner {
    /// The secret scalar the signer holds.
    pub closed spec fn secret(&self) -> Seq<u8> {
        self.secret@
    }

    /// The signer's address.
    pub closed spec fn spec_address(&self) -> Address {
        self.address
    }

    /// The chain id the signer signs for.
    pub closed spec fn spec_chain_id(&self) -> Option<u64> {
        self.chain_id
    }

    /// A signer for the key with the given secret scalar, with no chain id;
    /// nothing when the bytes are not a valid secret key.
    pub fn from_secret(secret: B256) -> (r: Option<Self>)
        ensures
            r is Some <==> secp256k1_key_address(secret@) is Some,
            r matches Some(s) ==> s.secret() == secret@ && secp256k1_key_address(secret@) == Some(
                s.spec_address()@,
            ) && s.spec_chain_id() is None,
    {
        match key_address(&secret) {
            Some(address) => Some(LocalSigner { secret, address, chain_id: None }),
            None => None,
        }
    }

    /// The secret scalar, for handing to the signing backend.
    pub fn secret_bytes(&self) -> (r: B256)
        ensures
            r@ == self.secret(),
    {
        self.secret
    }

    /// The address of the key.
    pub fn address(&self) -> (r: Address)
        ensures
            r == self.spec_address(),
    {
        self.address
    }

    /// The chain id the signer signs for, if any.
    pub fn chain_id(&self) -> (r: Option<u64>)
        ensures
            r == self.spec_chain_id(),
    {
        self.chain_id
    }

    /// Sets the chain id the signer signs for.
    pub fn set_chain_id(&mut self, chain_id: Option<u64>)
        ensures
            final(self).secret() == old(self).secret(),
            final(self).spec_address() == old(self).spec_address(),
            final(self).spec_chain_id() == chain_id,
    {
        self.chain_id = chain_id;
    }
}

/// The signer the library drives: a local key or an external command.
#[derive(Clone, Debug)]
pub enum AlkahestSigner {
    Local(LocalSigner),
    Command(CommandSigner),
}

impl AlkahestSigner {
    /// The signer's account address.
    pub open spec fn spec_address(&self) -> Address {
        match self {
            AlkahestSigner::Local(s) => s.spec_address(),
            AlkahestSigner::Command(s) => s@.address,
        }
    }

    /// The chain id the signer signs for.
    pub open spec fn spec_chain_id(&self) -> Option<u64> {
        match self {
            AlkahestSigner::Local(s) => s.spec_chain_id(),
            AlkahestSigner::Command(s) => s@.chain_id,
        }
    }

    /// The signer's address, whichever kind it is.
    pub fn address(&self) -> (r: Address)
        ensures
            r == self.spec_address(),
    {
        match self {
            AlkahestSigner::Local(s) => s.address(),
            AlkahestSigner::Command(s) => s.address(),
        }
    }

    /// The chain id the signer signs for, whichever kind it is.
    pub fn chain_id(&self) -> (r: Option<u64>)
        ensures
            r == self.spec_chain_id(),
    {
        match self {
            AlkahestSigner::Local(s) => s.chain_id(),
            AlkahestSigner::Command(s) => s.chain_id(),
        }
    }

    /// Sets the chain id of the inner signer; everything else stays.
    pub fn set_chain_id(&mut self, chain_id: Option<u64>)
        ensures
            final(self).spec_chain_id() == chain_id,
            final(self).spec_address() == old(self).spec_address(),
            (*final(self) is Local) == (*old(self) is Local),
            *old(self) is Command ==> final(self)->Command_0@ == (CommandSignerView {
                chain_id,
                ..old(self)->Command_0@
            }),
            *old(self) is Local ==> final(self)->Local_0.secret() == old(self)->Local_0.secret()
                && final(self)->Local_0.spec_address() == old(self)->Local_0.spec_address()
                && final(self)->Local_0.spec_chain_id() == chain_id,
    {
        match self {
            AlkahestSigner::Local(s) => s.set_chain_id(chain_id),
            AlkahestSigner::Command(s) => s.set_chain_id(chain_id),
        }
    }
}

/// A signing command that prints `0x` and the hex of `r ‖ s ‖ v`, with `v`
/// 27 plus the y parity, is read back as exactly that signature.
pub proof fn lemma_signature_output_round_trip(r: Seq<u8>, s: Seq<u8>, y_parity: bool)
    requires
        r.len() == 32,
        s.len() == 32,
    ensures
        signature_output_spec(
            seq!['0', 'x'] + hex_encode_spec(r + s + seq![if y_parity { 28u8 } else { 27u8 }]),
        ) == Ok::<(Seq<u8>, Seq<u8>, bool), SignerError>((r, s, y_parity)),
{
    let v: u8 = if y_parity { 28u8 } else { 27u8 };
    let b = r + s + seq![v];
    let h = hex_encode_spec(b);
    let t = seq!['0', 'x'] + h;
    lemma_hex_encode_shape(b);
    assert(is_lower_hex_char(h[h.len() - 1]));
    assert(t.last() == h[h.len() - 1]);
    assert(!is_white_space(t[0]));
    assert(trim_start_spec(t) == t);
    assert(!is_white_space(t.last()));
    assert(trim_end_spec(t) == t);
    assert(t.skip(2) =~= h);
    assert(is_lower_hex_char(h[1]));
    assert(strip_0x_repeated(h) == h);
    assert(strip_0x_repeated(t) == h);
    lemma_hex_round_trip(b);
    assert(b.subrange(0, 32) =~= r);
    assert(b.subrange(32, 64) =~= s);
    assert(b[64] == v);
}

/// Substitution rewrites every argument, the first included: the i-th
/// argument of the result is the i-th given argument with each occurrence
/// of `token` replaced by `value`, and no argument is added or dropped.
pub proof fn lemma_substituted_each_argument(args: Seq<Seq<char>>, token: Seq<char>, value: Seq<char>)
    ensures
        substituted(args, token, value).len() == args.len(),
        forall|i: int|
            0 <= i < args.len() ==> #[trigger] substituted(args, token, value)[i] == replace_spec(
                args[i],
                token,
                value,
            ),
{
}

/// A signing command's output reads the same with a trailing line ending
/// (or other trailing spaces, tabs, carriage returns, line feeds) as
/// without: so `0x` and the hex of `r ‖ s ‖ v` followed by `\r\n` is read
/// back as that signature.
pub proof fn lemma_signature_output_ignores_line_ending(stdout: Seq<char>, w: Seq<char>)
    requires
        is_line_padding(w),
    ensures
        signature_output_spec(stdout + w) == signature_output_spec(stdout),
{
    lemma_trim_ignores_trailing_padding(stdout, w);
}

} // verus!
