//! Which extension modules a client exposes, and lookups by name.

use vstd::prelude::*;
use vstd::string::*;
use vstd::utf8::*;

use crate::abi::alloy_string_obligation_decoding;
use crate::command_signer::{secp256k1_key_address, string_views, CommandSigner, CommandSignerView, LocalSigner};
use crate::hex::{hex_decode_exact, hex_decode_spec, parse_address, parse_b256};
use crate::obligations::string_obligation::{extract_obligation_data, strip_0x_once, ExtractError};
use crate::oracle::{
    demand_result_matches, extract_demand_data, extract_demand_data_spec, DemandError,
    TrustedOracleArbiterDemandData,
};
use crate::primitives::{Address, B256};

verus! {

/// The client handed to Python callers, as far as its own logic goes:
/// which extension modules it exposes.
#[derive(Clone, Copy, Debug, PartialEq, Eq)]
pub struct PyAlkahestClient {
    pub erc20: bool,
    pub erc721: bool,
    pub erc1155: bool,
    pub token_bundle: bool,
    pub attestation: bool,
    pub string_obligation: bool,
    pub oracle: bool,
}

/// The names of the extensions, in the order they are listed.
pub open spec fn extension_names_spec() -> Seq<Seq<char>> {
    seq![
        "erc20"@,
        "erc721"@,
        "erc1155"@,
        "token_bundle"@,
        "attestation"@,
        "string_obligation"@,
        "oracle"@,
    ]
}

/// Whether the set holds the extension called `name`; unknown names are
/// never held.
pub open spec fn has_extension_spec(set: PyAlkahestClient, name: Seq<char>) -> bool {
    if name == "erc20"@ {
        set.erc20
    } else if name == "erc721"@ {
        set.erc721
    } else if name == "erc1155"@ {
        set.erc1155
    } else if name == "token_bundle"@ {
        set.token_bundle
    } else if name == "attestation"@ {
        set.attestation
    } else if name == "string_obligation"@ {
        set.string_obligation
    } else if name == "oracle"@ {
        set.oracle
    } else {
        false
    }
}

fn text_is(name: &String, lit: &str) -> (r: bool)
    ensures
        r == (name@ == lit@),
{
    let l = String::from_str(lit);
    *name == l
}

impl PyAlkahestClient {
    /// A client built from a full client: every extension is exposed.
    pub fn from_client() -> (r: Self)
        ensures
            r == Self::spec_all(),
    {
        PyAlkahestClient {
            erc20: true,
            erc721: true,
            erc1155: true,
            token_bundle: true,
            attestation: true,
            string_obligation: true,
            oracle: true,
        }
    }

    /// A client built around a single extension: the extension stays
    /// inside the wrapped client, and none is exposed, whichever it is.
    pub fn from_client_with_single_extension(extension_type: &str) -> (r: Self)
        ensures
            r == Self::spec_none(),
    {
        PyAlkahestClient {
            erc20: false,
            erc721: false,
            erc1155: false,
            token_bundle: false,
            attestation: false,
            string_obligation: false,
            oracle: false,
        }
    }

    /// The item of the string obligation whose ABI encoding a fulfillment
    /// attestation carries as hex text (with or without `0x`).
    pub fn extract_obligation_data(&self, attestation_data: &str) -> (r: Result<String, ExtractError>)
        ensures
            ({
                let text = strip_0x_once(attestation_data@);
                match hex_decode_spec(encode_utf8(text)) {
                    None => r == Err::<String, ExtractError>(ExtractError::InvalidHex),
                    Some(bytes) => match alloy_string_obligation_decoding(bytes) {
                        None => r == Err::<String, ExtractError>(ExtractError::InvalidObligation),
                        Some(d) => r matches Ok(item) && item@ == d.0,
                    },
                }
            }),
    {
        extract_obligation_data(attestation_data)
    }

    /// The names of the extensions this client has, in the order of
    /// `extension_names_spec`.
    pub fn list_extensions(&self) -> (r: Vec<String>)
        ensures
            r@.map_values(|s: String| s@) == listed_extensions_spec(*self),
    {
        let mut names: Vec<String> = Vec::new();
        names.push(String::from_str("erc20"));
        names.push(String::from_str("erc721"));
        names.push(String::from_str("erc1155"));
        names.push(String::from_str("token_bundle"));
        names.push(String::from_str("attestation"));
        names.push(String::from_str("string_obligation"));
        names.push(String::from_str("oracle"));
        assert(names@.map_values(|s: String| s@) =~= extension_names_spec());
        let mut out: Vec<String> = Vec::new();
        let n = names.len();
        let mut i: usize = 0;
        while i < n
            invariant
                n == names.len(),
                i <= n,
                out@.map_values(|s: String| s@) == names@.map_values(|s: String| s@).take(i as int).filter(
                    available_pred(*self),
                ),
            decreases n - i,
        {
            let name = names[i].clone();
            let keep = self.has_extension(names[i].clone());
            let ghost views = names@.map_values(|s: String| s@);
            proof {
                assert(views.take(i + 1).drop_last() =~= views.take(i as int));
                assert(views.take(i + 1).last() == name@);
                reveal(Seq::filter);
            }
            if keep {
                out.push(name);
                assert(out@.map_values(|s: String| s@) =~= views.take(i as int).filter(
                    available_pred(*self),
                ).push(name@));
            }
            i = i + 1;
        }
        assert(names@.map_values(|s: String| s@).take(n as int) =~= names@.map_values(|s: String| s@));
        out
    }

    /// Whether the extension called `extension_type` is available.
    pub fn has_extension(&self, extension_type: String) -> (r: bool)
        ensures
            r == has_extension_spec(*self, extension_type@),
    {
        if text_is(&extension_type, "erc20") {
            self.erc20
        } else if text_is(&extension_type, "erc721") {
            self.erc721
        } else if text_is(&extension_type, "erc1155") {
            self.erc1155
        } else if text_is(&extension_type, "token_bundle") {
            self.token_bundle
        } else if text_is(&extension_type, "attestation") {
            self.attestation
        } else if text_is(&extension_type, "string_obligation") {
            self.string_obligation
        } else if text_is(&extension_type, "oracle") {
            self.oracle
        } else {
            false
        }
    }
}

/// Whether a name is that of an extension the client has.
pub open spec fn available_pred(set: PyAlkahestClient) -> spec_fn(Seq<char>) -> bool {
    |n: Seq<char>| has_extension_spec(set, n)
}

/// The names of the extensions the client has, in listing order.
pub open spec fn listed_extensions_spec(set: PyAlkahestClient) -> Seq<Seq<char>> {
    extension_names_spec().filter(available_pred(set))
}

/// A name is listed exactly when the client has that extension; so a
/// client built around a single extension lists none.
pub proof fn lemma_listed_extensions(set: PyAlkahestClient, name: Seq<char>)
    ensures
        listed_extensions_spec(set).contains(name) <==> has_extension_spec(set, name),
        set == PyAlkahestClient::spec_none() ==> listed_extensions_spec(set).len() == 0,
{
    let names = extension_names_spec();
    let p = available_pred(set);
    if listed_extensions_spec(set).contains(name) {
        let j = choose|j: int| 0 <= j < names.filter(p).len() && names.filter(p)[j] == name;
        names.lemma_filter_pred(p, j);
    }
    if has_extension_spec(set, name) {
        let i: int = if name == "erc20"@ {
            0
        } else if name == "erc721"@ {
            1
        } else if name == "erc1155"@ {
            2
        } else if name == "token_bundle"@ {
            3
        } else if name == "attestation"@ {
            4
        } else if name == "string_obligation"@ {
            5
        } else {
            6
        };
        assert(names[i] == name);
        names.lemma_filter_contains(p, i);
    }
    if set == PyAlkahestClient::spec_none() && names.filter(p).len() > 0 {
        names.lemma_filter_pred(p, 0);
    }
}

impl PyAlkahestClient {
    /// Every extension.
    pub open spec fn spec_all() -> Self {
        PyAlkahestClient {
            erc20: true,
            erc721: true,
            erc1155: true,
            token_bundle: true,
            attestation: true,
            string_obligation: true,
            oracle: true,
        }
    }

    /// No extension.
    pub open spec fn spec_none() -> Self {
        PyAlkahestClient {
            erc20: false,
            erc721: false,
            erc1155: false,
            token_bundle: false,
            attestation: false,
            string_obligation: false,
            oracle: false,
        }
    }
}

/// Why a client request was refused before anything was sent.
#[derive(Clone, Copy, Debug, PartialEq, Eq)]
pub enum ClientError {
    /// The client does not expose the attestation extension.
    AttestationUnavailable,
    /// The text is not the hex of a 20-byte address.
    InvalidAddress,
    /// The text is not the hex of a 32-byte UID.
    InvalidUid,
    /// The text is not the hex of a valid secret key.
    InvalidPrivateKey,
}

/// The address written as hex text, if it is one.
pub open spec fn address_text(s: Seq<char>) -> Option<Seq<u8>> {
    hex_decode_exact(encode_utf8(s), 20)
}

/// The 32-byte word written as hex text, if it is one.
pub open spec fn word_text(s: Seq<char>) -> Option<Seq<u8>> {
    hex_decode_exact(encode_utf8(s), 32)
}

impl PyAlkahestClient {
    /// The UID of the escrow attestation a fulfillment references, read
    /// from the fulfillment's `ref_uid` text, for looking the escrow up
    /// through the attestation extension: refused when the client has no
    /// attestation extension, then when the text is not a UID.
    pub fn escrow_attestation_uid(&self, ref_uid: &str) -> (r: Result<B256, ClientError>)
        ensures
            !self.attestation ==> r == Err::<B256, ClientError>(ClientError::AttestationUnavailable),
            self.attestation ==> match word_text(ref_uid@) {
                None => r == Err::<B256, ClientError>(ClientError::InvalidUid),
                Some(w) => r matches Ok(u) && u@ == w,
            },
    {
        if !self.attestation {
            return Err(ClientError::AttestationUnavailable);
        }
        proof {
            assert(ref_uid.spec_bytes() == encode_utf8(ref_uid@));
        }
        match parse_b256(ref_uid) {
            Some(u) => Ok(u),
            None => Err(ClientError::InvalidUid),
        }
    }

    /// The escrow contract and the buy attestation UID to wait on for a
    /// fulfillment, read from their hex text, the address first.
    pub fn fulfillment_query(contract_address: &str, buy_attestation: &str) -> (r: Result<
        (Address, B256),
        ClientError,
    >)
        ensures
            match (address_text(contract_address@), word_text(buy_attestation@)) {
                (None, _) => r == Err::<(Address, B256), ClientError>(ClientError::InvalidAddress),
                (Some(_), None) => r == Err::<(Address, B256), ClientError>(ClientError::InvalidUid),
                (Some(a), Some(w)) => r matches Ok(p) && p.0@ == a && p.1@ == w,
            },
    {
        proof {
            assert(contract_address.spec_bytes() == encode_utf8(contract_address@));
            assert(buy_attestation.spec_bytes() == encode_utf8(buy_attestation@));
        }
        let address = match parse_address(contract_address) {
            Some(a) => a,
            None => return Err(ClientError::InvalidAddress),
        };
        match parse_b256(buy_attestation) {
            Some(u) => Ok((address, u)),
            None => Err(ClientError::InvalidUid),
        }
    }

    /// The oracle demand of an escrow attestation whose data is given as
    /// hex text (with or without `0x`).
    pub fn extract_demand_data(&self, escrow_data: &str) -> (r: Result<TrustedOracleArbiterDemandData, DemandError>)
        ensures
            demand_result_matches(r, extract_demand_data_spec(escrow_data@)),
    {
        extract_demand_data(escrow_data)
    }

    /// The command signer a client is driven by: `program` with `args` for
    /// digests, for the account whose address is given as hex text, with
    /// the typed-data command when one is given.
    pub fn command_signer(
        program: String,
        args: Vec<String>,
        address: &str,
        typed_data_args: Option<Vec<String>>,
    ) -> (r: Result<CommandSigner, ClientError>)
        ensures
            match address_text(address@) {
                None => r == Err::<CommandSigner, ClientError>(ClientError::InvalidAddress),
                Some(a) => r matches Ok(signer) && signer@ == (CommandSignerView {
                    program: program@,
                    args: string_views(args@),
                    typed_data_args: match typed_data_args {
                        Some(t) => Some(string_views(t@)),
                        None => None,
                    },
                    address: signer@.address,
                    chain_id: None,
                }) && signer@.address@ == a,
            },
    {
        proof {
            assert(address.spec_bytes() == encode_utf8(address@));
        }
        let addr = match parse_address(address) {
            Some(a) => a,
            None => return Err(ClientError::InvalidAddress),
        };
        let signer = CommandSigner::new(program, args, addr);
        match typed_data_args {
            Some(t) => Ok(signer.with_typed_data_command(t)),
            None => Ok(signer),
        }
    }

    /// The local signer for a secret key given as hex text (with or without
    /// `0x`): refused when the text is not 32 bytes of hex or the bytes are
    /// not a valid secret key.
    pub fn local_signer(private_key: &str) -> (r: Result<LocalSigner, ClientError>)
        ensures
            match word_text(private_key@) {
                None => r == Err::<LocalSigner, ClientError>(ClientError::InvalidPrivateKey),
                Some(k) => match secp256k1_key_address(k) {
                    None => r == Err::<LocalSigner, ClientError>(ClientError::InvalidPrivateKey),
                    Some(a) => r matches Ok(signer) && signer.secret() == k
                        && signer.spec_address()@ == a && signer.spec_chain_id() is None,
                },
            },
    {
        proof {
            assert(private_key.spec_bytes() == encode_utf8(private_key@));
        }
        match parse_b256(private_key) {
            None => Err(ClientError::InvalidPrivateKey),
            Some(k) => match LocalSigner::from_secret(k) {
                Some(signer) => Ok(signer),
                None => Err(ClientError::InvalidPrivateKey),
            },
        }
    }
}

/// Each of the seven extension names reads that extension's own flag.
pub proof fn lemma_has_extension_reads_own_flag(set: PyAlkahestClient)
    ensures
        has_extension_spec(set, "erc20"@) == set.erc20,
        has_extension_spec(set, "erc721"@) == set.erc721,
        has_extension_spec(set, "erc1155"@) == set.erc1155,
        has_extension_spec(set, "token_bundle"@) == set.token_bundle,
        has_extension_spec(set, "attestation"@) == set.attestation,
        has_extension_spec(set, "string_obligation"@) == set.string_obligation,
        has_extension_spec(set, "oracle"@) == set.oracle,
{
    reveal_strlit("erc20");
    reveal_strlit("erc721");
    reveal_strlit("erc1155");
    reveal_strlit("token_bundle");
    reveal_strlit("attestation");
    reveal_strlit("string_obligation");
    reveal_strlit("oracle");
    assert("erc721"@ != "erc20"@) by {
        assert("erc721"@.len() != "erc20"@.len());
    }
    assert("erc1155"@ != "erc20"@ && "erc1155"@ != "erc721"@) by {
        assert("erc1155"@[4] != "erc721"@[4]);
    }
    assert("token_bundle"@[0] != "erc20"@[0]);
    assert("attestation"@[0] != "erc20"@[0] && "attestation"@[0] != "token_bundle"@[0]);
    assert("string_obligation"@[0] != "erc20"@[0] && "string_obligation"@[0] != "token_bundle"@[0]
        && "string_obligation"@[0] != "attestation"@[0]);
    assert("oracle"@[0] != "erc20"@[0] && "oracle"@[0] != "token_bundle"@[0] && "oracle"@[0]
        != "attestation"@[0] && "oracle"@[0] != "string_obligation"@[0]);
}

} // verus!
