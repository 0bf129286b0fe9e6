//! Events in transaction receipts: finding the attestation service's
//! `Attested` event among a receipt's logs.

use vstd::prelude::*;
use vstd::string::*;
use vstd::utf8::*;

use crate::primitives::{keccak256, keccak256_spec, Address, B256};

verus! {

/// One log of a transaction receipt.
#[derive(Clone, Debug, PartialEq, Eq)]
pub struct LogEntry {
    /// The contract that emitted the log.
    pub address: Address,
    pub topics: Vec<B256>,
    pub data: Vec<u8>,
}

/// An `Attested(address indexed recipient, address indexed attester,
/// bytes32 uid, bytes32 indexed schemaUID)` event and the contract that
/// emitted it.
#[derive(Clone, Copy, Debug, PartialEq, Eq)]
pub struct AttestedLog {
    pub address: Address,
    pub recipient: Address,
    pub attester: Address,
    pub uid: B256,
    pub schema_uid: B256,
}

/// Why no `Attested` event could be read from a receipt.
#[derive(Clone, Copy, Debug, PartialEq, Eq)]
pub enum EventError {
    /// No log has the event's signature as its first topic.
    NoAttestedEvent,
    /// The first such log does not have the event's shape.
    InvalidEventLog,
}

/// The canonical signature of the `Attested` event.
pub open spec fn attested_signature_text() -> Seq<char> {
    "Attested(address,address,bytes32,bytes32)"@
}

/// The first topic of every `Attested` log: the hash of its signature.
pub open spec fn attested_topic() -> Seq<u8> {
    keccak256_spec(encode_utf8(attested_signature_text()))
}

/// Whether a log's first topic is the `Attested` signature hash.
pub open spec fn is_attested_log(log: LogEntry) -> bool {
    log.topics.len() > 0 && log.topics@[0]@ == attested_topic()
}

/// The address held in the low 20 bytes of a word.
pub open spec fn word_address(w: Seq<u8>) -> Seq<u8> {
    w.subrange(12, 32)
}

/// Whether log `k` is the first log whose first topic is the `Attested`
/// signature hash.
pub open spec fn is_first_attested(logs: Seq<LogEntry>, k: int) -> bool {
    &&& 0 <= k < logs.len()
    &&& is_attested_log(logs[k])
    &&& forall|j: int| 0 <= j < k ==> !is_attested_log(#[trigger] logs[j])
}

/// Whether a log has the shape of an `Attested` event for alloy's event
/// decoder: exactly four topics (signature, recipient, attester, schema
/// UID), and data of at least one word.
pub open spec fn has_attested_shape(log: LogEntry) -> bool {
    log.topics.len() == 4 && log.data.len() >= 32
}

/// Whether `ev` is what alloy's event decoder reads from a log of that
/// shape: the recipient and attester from the low 20 bytes of topics one
/// and two, the schema UID from topic three, the UID from the first word
/// of the data.
pub open spec fn reads_as(ev: AttestedLog, log: LogEntry) -> bool {
    &&& ev.address == log.address
    &&& ev.recipient@ == word_address(log.topics@[1]@)
    &&& ev.attester@ == word_address(log.topics@[2]@)
    &&& ev.schema_uid == log.topics@[3]
    &&& ev.uid@ == log.data@.subrange(0, 32)
}

/// The address in the low 20 bytes of a word.
fn address_of_word(w: &B256) -> (r: Address)
    ensures
        r@ == word_address(w@),
{
    let mut a = [0u8; 20];
    let mut k: usize = 0;
    while k < 20
        invariant
            k <= 20,
            forall|t: int| 0 <= t < k ==> a@[t] == w@[12 + t],
        decreases 20 - k,
    {
        a[k] = w.0[12 + k];
        k = k + 1;
    }
    assert(a@ =~= word_address(w@));
    Address(a)
}

/// The first word of some data of at least 32 bytes.
fn first_word(data: &Vec<u8>) -> (r: B256)
    requires
        data.len() >= 32,
    ensures
        r@ == data@.subrange(0, 32),
{
    let mut a = [0u8; 32];
    let mut k: usize = 0;
    while k < 32
        invariant
            k <= 32,
            data.len() >= 32,
            forall|t: int| 0 <= t < k ==> a@[t] == data@[t],
        decreases 32 - k,
    {
        a[k] = data[k];
        k = k + 1;
    }
    assert(a@ =~= data@.subrange(0, 32));
    B256(a)
}

/// The `Attested` event of a receipt: the first log whose first topic is
/// the event's signature hash, read as the event. There is none when no log
/// has that topic; the first such log must have the event's shape.
pub fn get_attested_event(logs: &Vec<LogEntry>) -> (r: Result<AttestedLog, EventError>)
    ensures
        (forall|j: int| 0 <= j < logs.len() ==> !is_attested_log(#[trigger] logs@[j])) <==> r
            == Err::<AttestedLog, EventError>(EventError::NoAttestedEvent),
        forall|k: int|
            #[trigger] is_first_attested(logs@, k) ==> if has_attested_shape(logs@[k]) {
                r matches Ok(ev) && reads_as(ev, logs@[k])
            } else {
                r == Err::<AttestedLog, EventError>(EventError::InvalidEventLog)
            },
{
    let text = "Attested(address,address,bytes32,bytes32)";
    let sig = keccak256(text.as_bytes());
    assert(sig@ == attested_topic());
    let n = logs.len();
    let mut i: usize = 0;
    while i < n
        invariant
            n == logs.len(),
            i <= n,
            sig@ == attested_topic(),
            forall|j: int| 0 <= j < i ==> !is_attested_log(#[trigger] logs@[j]),
        decreases n - i,
    {
        let log = &logs[i];
        if log.topics.len() > 0 && log.topics[0].same(&sig) {
            assert(is_first_attested(logs@, i as int));
            assert forall|k: int| #[trigger] is_first_attested(logs@, k) implies k == i by {
                if k < i {
                    assert(!is_attested_log(logs@[k]));
                } else if k > i {
                    assert(!is_attested_log(logs@[i as int]));
                }
            }
            if log.topics.len() == 4 && log.data.len() >= 32 {
                let ev = AttestedLog {
                    address: log.address,
                    recipient: address_of_word(&log.topics[1]),
                    attester: address_of_word(&log.topics[2]),
                    uid: first_word(&log.data),
                    schema_uid: log.topics[3],
                };
                return Ok(ev);
            } else {
                return Err(EventError::InvalidEventLog);
            }
        }
        proof {
            if log.topics.len() > 0 && log.topics@[0]@ == sig@ {
                assert(log.topics@[0].0 =~= sig.0);
            }
        }
        i = i + 1;
    }
    Err(EventError::NoAttestedEvent)
}

} // verus!
