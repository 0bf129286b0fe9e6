//! Arbiters: the contracts that decide whether a fulfillment meets an
//! escrow's demand, and the client-side views of their demands.

use vstd::prelude::*;

use vstd::string::*;

use crate::primitives::Address;
use crate::text::{append_decimal, decimal_text};

verus! {

/// The arbiter contracts of a deployment.
#[derive(Clone, Debug, PartialEq, Eq)]
pub struct ArbitersAddresses {
    pub eas: Address,
    pub trivial_arbiter: Address,
    pub trusted_oracle_arbiter: Address,
    pub exclusive_revocable_confirmation_arbiter: Address,
    pub exclusive_unrevocable_confirmation_arbiter: Address,
    pub nonexclusive_revocable_confirmation_arbiter: Address,
    pub nonexclusive_unrevocable_confirmation_arbiter: Address,
}

/// Arbiters at a given deployment.
#[derive(Clone, Debug)]
pub struct ArbitersModule {
    pub addresses: ArbitersAddresses,
}

/// Confirmation arbiter type
#[derive(Clone, Copy, Debug, PartialEq, Eq)]
pub enum ConfirmationArbiterType {
    /// Only one fulfillment can be confirmed per escrow, confirmation can be revoked
    ExclusiveRevocable,
    /// Only one fulfillment can be confirmed per escrow, confirmation cannot be revoked
    ExclusiveUnrevocable,
    /// Multiple fulfillments can be confirmed per escrow, confirmations can be revoked
    NonexclusiveRevocable,
    /// Multiple fulfillments can be confirmed per escrow, confirmations cannot be revoked
    NonexclusiveUnrevocable,
}

/// The address of the confirmation arbiter of the given type.
pub open spec fn confirmation_arbiter_of(
    addresses: ArbitersAddresses,
    arbiter_type: ConfirmationArbiterType,
) -> Address {
    match arbiter_type {
        ConfirmationArbiterType::ExclusiveRevocable => addresses.exclusive_revocable_confirmation_arbiter,
        ConfirmationArbiterType::ExclusiveUnrevocable => addresses.exclusive_unrevocable_confirmation_arbiter,
        ConfirmationArbiterType::NonexclusiveRevocable => addresses.nonexclusive_revocable_confirmation_arbiter,
        ConfirmationArbiterType::NonexclusiveUnrevocable => addresses.nonexclusive_unrevocable_confirmation_arbiter,
    }
}

/// The demand of the AllArbiter: every listed arbiter must accept its demand.
#[derive(Clone, Debug, PartialEq, Eq)]
pub struct AllArbiterDemandData {
    pub arbiters: Vec<Address>,
    pub demands: Vec<Vec<u8>>,
}

/// The demand of the AnyArbiter: one listed arbiter must accept its demand.
#[derive(Clone, Debug, PartialEq, Eq)]
pub struct AnyArbiterDemandData {
    pub arbiters: Vec<Address>,
    pub demands: Vec<Vec<u8>>,
}

/// An AllArbiter demand whose inner demands have been decoded.
pub struct DecodedAllArbiterDemandData<D> {
    /// Same arbiters vector as original
    pub arbiters: Vec<Address>,
    /// Decoded demands instead of raw bytes
    pub demands: Vec<D>,
}

/// An AnyArbiter demand whose inner demands have been decoded.
pub struct DecodedAnyArbiterDemandData<D> {
    /// Same arbiters vector as original
    pub arbiters: Vec<Address>,
    /// Decoded demands instead of raw bytes
    pub demands: Vec<D>,
}

/// Which logical arbiter a demand belongs to.
#[derive(Clone, Copy, Debug, PartialEq, Eq)]
pub enum LogicalKind {
    /// Every listed arbiter must accept.
    All,
    /// One listed arbiter must accept.
    Any,
}

/// Why a logical arbiter's demand could not be decoded.
#[derive(Clone, Debug, PartialEq, Eq)]
pub enum LogicalDecodeError<E> {
    /// The arbiter and demand lists differ in length.
    MismatchedArrays { kind: LogicalKind, arbiters: usize, demands: usize },
    /// One inner demand could not be decoded.
    Demand(E),
}

/// The contract name of a logical arbiter.
pub open spec fn logical_kind_name(kind: LogicalKind) -> Seq<char> {
    match kind {
        LogicalKind::All => "AllArbiter"@,
        LogicalKind::Any => "AnyArbiter"@,
    }
}

/// The text of a mismatched-lists error.
pub open spec fn mismatch_message_spec(kind: LogicalKind, arbiters: nat, demands: nat) -> Seq<char> {
    logical_kind_name(kind) + " has mismatched arrays: "@ + decimal_text(arbiters) + " arbiters vs "@
        + decimal_text(demands) + " demands"@
}

impl<E> LogicalDecodeError<E> {
    /// The message of a mismatched-lists error, naming the arbiter and both
    /// counts; nothing for an inner decoding error, whose message is the
    /// inner error's own.
    pub fn mismatch_message(&self) -> (r: Option<String>)
        ensures
            match self {
                LogicalDecodeError::MismatchedArrays { kind, arbiters, demands } => r matches Some(m)
                    && m@ == mismatch_message_spec(*kind, *arbiters as nat, *demands as nat),
                LogicalDecodeError::Demand(_) => r is None,
            },
    {
        match self {
            LogicalDecodeError::MismatchedArrays { kind, arbiters, demands } => {
                proof {
                    reveal_strlit("AllArbiter");
                    reveal_strlit("AnyArbiter");
                }
                let mut m = match kind {
                    LogicalKind::All => String::from_str("AllArbiter"),
                    LogicalKind::Any => String::from_str("AnyArbiter"),
                };
                m.append(" has mismatched arrays: ");
                append_decimal(&mut m, *arbiters);
                m.append(" arbiters vs ");
                append_decimal(&mut m, *demands);
                m.append(" demands");
                Some(m)
            },
            LogicalDecodeError::Demand(_) => None,
        }
    }
}

/// Whether `r` is what the per-arbiter decoder may return for entry `i`.
pub open spec fn decoded_entry<D, E, F: Fn(Address, &Vec<u8>) -> Result<D, E>>(
    decode: F,
    arbiters: Seq<Address>,
    demands: Seq<Vec<u8>>,
    i: int,
    r: Result<D, E>,
) -> bool {
    call_ensures(decode, (arbiters[i], &demands[i]), r)
}

/// Whether the per-arbiter decoder may succeed on entry `i`.
pub open spec fn entry_decodes<D, E, F: Fn(Address, &Vec<u8>) -> Result<D, E>>(
    decode: F,
    arbiters: Seq<Address>,
    demands: Seq<Vec<u8>>,
    i: int,
) -> bool {
    exists|d: D| #[trigger] decoded_entry(decode, arbiters, demands, i, Ok::<D, E>(d))
}

/// Whether entry `k` is where decoding stopped with `e`: every earlier
/// entry may decode, and entry `k` may fail with `e`.
pub open spec fn failed_at<D, E, F: Fn(Address, &Vec<u8>) -> Result<D, E>>(
    decode: F,
    arbiters: Seq<Address>,
    demands: Seq<Vec<u8>>,
    k: int,
    e: E,
) -> bool {
    &&& 0 <= k < arbiters.len()
    &&& decoded_entry(decode, arbiters, demands, k, Err::<D, E>(e))
    &&& forall|j: int| 0 <= j < k ==> #[trigger] entry_decodes::<D, E, F>(decode, arbiters, demands, j)
}

/// Decodes each inner demand in list order, stopping at the first failure.
fn decode_logical_demands<D, E, F: Fn(Address, &Vec<u8>) -> Result<D, E>>(
    arbiters: &Vec<Address>,
    demands: &Vec<Vec<u8>>,
    decode: &F,
) -> (r: Result<Vec<D>, E>)
    requires
        arbiters.len() == demands.len(),
        forall|i: int| 0 <= i < arbiters.len() ==> call_requires(*decode, (arbiters[i], &demands[i])),
    ensures
        r matches Ok(ds) ==> ds.len() == arbiters.len() && forall|i: int|
            0 <= i < ds.len() ==> decoded_entry(*decode, arbiters@, demands@, i, Ok(#[trigger] ds[i])),
        r matches Err(e) ==> exists|k: int| #[trigger] failed_at::<D, E, F>(*decode, arbiters@, demands@, k, e),
{
    let n = arbiters.len();
    let mut out: Vec<D> = Vec::new();
    let mut i: usize = 0;
    while i < n
        invariant
            n == arbiters.len(),
            n == demands.len(),
            i <= n,
            out.len() == i,
            forall|t: int| 0 <= t < n ==> call_requires(*decode, (arbiters[t], &demands[t])),
            forall|t: int|
                0 <= t < i ==> decoded_entry(*decode, arbiters@, demands@, t, Ok(#[trigger] out[t])),
        decreases n - i,
    {
        let res = decode(arbiters[i], &demands[i]);
        assert(decoded_entry(*decode, arbiters@, demands@, i as int, res));
        match res {
            Ok(d) => {
                out.push(d);
            },
            Err(e) => {
                assert forall|j: int| 0 <= j < i implies #[trigger] entry_decodes::<D, E, F>(
                    *decode,
                    arbiters@,
                    demands@,
                    j,
                ) by {
                    assert(decoded_entry(*decode, arbiters@, demands@, j, Ok(out[j])));
                }
                assert(failed_at::<D, E, F>(*decode, arbiters@, demands@, i as int, e));
                let r: Result<Vec<D>, E> = Err(e);
                assert(r matches Err(x) && x == e);
                return r;
            },
        }
        i = i + 1;
    }
    Ok(out)
}

/// What decoding a logical arbiter's demand may give, as plain values: the
/// mismatch error exactly when the lists differ in length; otherwise the
/// arbiters unchanged with every demand decoded in order, or the error of
/// the first entry that fails.
pub open spec fn logical_decode_outcome<D, E, F: Fn(Address, &Vec<u8>) -> Result<D, E>>(
    decode: F,
    kind: LogicalKind,
    arbiters: Seq<Address>,
    demands: Seq<Vec<u8>>,
    r: Result<(Seq<Address>, Seq<D>), LogicalDecodeError<E>>,
) -> bool {
    if arbiters.len() != demands.len() {
        r matches Err(LogicalDecodeError::MismatchedArrays { kind: k, arbiters: n, demands: m })
            && k == kind && n == arbiters.len() && m == demands.len()
    } else {
        match r {
            Ok(x) => x.0 == arbiters && x.1.len() == arbiters.len() && forall|i: int|
                0 <= i < x.1.len() ==> decoded_entry(decode, arbiters, demands, i, Ok(#[trigger] x.1[i])),
            Err(LogicalDecodeError::MismatchedArrays { .. }) => false,
            Err(LogicalDecodeError::Demand(e)) => exists|k: int| #[trigger] failed_at::<D, E, F>(
                decode,
                arbiters,
                demands,
                k,
                e,
            ),
        }
    }
}

/// A decoded AllArbiter demand as plain values.
pub open spec fn all_outcome<D, E>(r: Result<DecodedAllArbiterDemandData<D>, LogicalDecodeError<E>>) -> Result<
    (Seq<Address>, Seq<D>),
    LogicalDecodeError<E>,
> {
    match r {
        Ok(x) => Ok((x.arbiters@, x.demands@)),
        Err(e) => Err(e),
    }
}

/// A decoded AnyArbiter demand as plain values.
pub open spec fn any_outcome<D, E>(r: Result<DecodedAnyArbiterDemandData<D>, LogicalDecodeError<E>>) -> Result<
    (Seq<Address>, Seq<D>),
    LogicalDecodeError<E>,
> {
    match r {
        Ok(x) => Ok((x.arbiters@, x.demands@)),
        Err(e) => Err(e),
    }
}

/// Whether the per-arbiter decoder gives one result for each entry.
pub open spec fn decoder_deterministic<D, E, F: Fn(Address, &Vec<u8>) -> Result<D, E>>(
    decode: F,
    arbiters: Seq<Address>,
    demands: Seq<Vec<u8>>,
) -> bool {
    forall|i: int, x: Result<D, E>, y: Result<D, E>|
        #![trigger decoded_entry(decode, arbiters, demands, i, x), decoded_entry(decode, arbiters, demands, i, y)]
        0 <= i < arbiters.len() && decoded_entry(decode, arbiters, demands, i, x) && decoded_entry(
            decode,
            arbiters,
            demands,
            i,
            y,
        ) ==> x == y
}

/// With a per-arbiter decoder that gives one result per entry, decoding a
/// logical demand has exactly one outcome: so `AllArbiter::decode` and
/// `AnyArbiter::decode` return what the module's decoders return, and
/// repeated decoding agrees.
pub proof fn lemma_logical_decode_determined<D, E, F: Fn(Address, &Vec<u8>) -> Result<D, E>>(
    decode: F,
    kind: LogicalKind,
    arbiters: Seq<Address>,
    demands: Seq<Vec<u8>>,
    r1: Result<(Seq<Address>, Seq<D>), LogicalDecodeError<E>>,
    r2: Result<(Seq<Address>, Seq<D>), LogicalDecodeError<E>>,
)
    requires
        decoder_deterministic(decode, arbiters, demands),
        logical_decode_outcome(decode, kind, arbiters, demands, r1),
        logical_decode_outcome(decode, kind, arbiters, demands, r2),
    ensures
        r1 == r2,
{
    if arbiters.len() == demands.len() {
        match (r1, r2) {
            (Ok(x1), Ok(x2)) => {
                assert forall|i: int| 0 <= i < x1.1.len() implies x1.1[i] == x2.1[i] by {
                    assert(decoded_entry(decode, arbiters, demands, i, Ok::<D, E>(x1.1[i])));
                    assert(decoded_entry(decode, arbiters, demands, i, Ok::<D, E>(x2.1[i])));
                }
                assert(x1.1 =~= x2.1);
            },
            (Ok(x1), Err(LogicalDecodeError::Demand(e))) => {
                let k = choose|k: int| #[trigger] failed_at::<D, E, F>(decode, arbiters, demands, k, e);
                assert(decoded_entry(decode, arbiters, demands, k, Ok::<D, E>(x1.1[k])));
                assert(decoded_entry(decode, arbiters, demands, k, Err::<D, E>(e)));
            },
            (Err(LogicalDecodeError::Demand(e)), Ok(x2)) => {
                let k = choose|k: int| #[trigger] failed_at::<D, E, F>(decode, arbiters, demands, k, e);
                assert(decoded_entry(decode, arbiters, demands, k, Ok::<D, E>(x2.1[k])));
                assert(decoded_entry(decode, arbiters, demands, k, Err::<D, E>(e)));
            },
            (Err(LogicalDecodeError::Demand(e1)), Err(LogicalDecodeError::Demand(e2))) => {
                let k1 = choose|k: int| #[trigger] failed_at::<D, E, F>(decode, arbiters, demands, k, e1);
                let k2 = choose|k: int| #[trigger] failed_at::<D, E, F>(decode, arbiters, demands, k, e2);
                if k1 < k2 {
                    assert(entry_decodes::<D, E, F>(decode, arbiters, demands, k1));
                    let d = choose|d: D| #[trigger] decoded_entry(decode, arbiters, demands, k1, Ok::<D, E>(d));
                    assert(decoded_entry(decode, arbiters, demands, k1, Err::<D, E>(e1)));
                } else if k2 < k1 {
                    assert(entry_decodes::<D, E, F>(decode, arbiters, demands, k2));
                    let d = choose|d: D| #[trigger] decoded_entry(decode, arbiters, demands, k2, Ok::<D, E>(d));
                    assert(decoded_entry(decode, arbiters, demands, k2, Err::<D, E>(e2)));
                } else {
                    assert(decoded_entry(decode, arbiters, demands, k1, Err::<D, E>(e1)));
                    assert(decoded_entry(decode, arbiters, demands, k1, Err::<D, E>(e2)));
                }
            },
            _ => {},
        }
    }
}

impl ArbitersModule {
    /// A module for the arbiters at `addresses`.
    pub fn new(addresses: ArbitersAddresses) -> (r: Self)
        ensures
            r.addresses == addresses,
    {
        ArbitersModule { addresses }
    }

    /// Get the address of a confirmation arbiter by type
    pub fn confirmation_arbiter_address(&self, arbiter_type: ConfirmationArbiterType) -> (r: Address)
        ensures
            r == confirmation_arbiter_of(self.addresses, arbiter_type),
    {
        match arbiter_type {
            ConfirmationArbiterType::ExclusiveRevocable => {
                self.addresses.exclusive_revocable_confirmation_arbiter
            },
            ConfirmationArbiterType::ExclusiveUnrevocable => {
                self.addresses.exclusive_unrevocable_confirmation_arbiter
            },
            ConfirmationArbiterType::NonexclusiveRevocable => {
                self.addresses.nonexclusive_revocable_confirmation_arbiter
            },
            ConfirmationArbiterType::NonexclusiveUnrevocable => {
                self.addresses.nonexclusive_unrevocable_confirmation_arbiter
            },
        }
    }

    /// Access confirmation arbiters API
    pub fn confirmation(&self) -> (r: Confirmation<'_>)
        ensures
            r.module == self,
    {
        Confirmation::new(self)
    }

    /// Access logical arbiters API
    pub fn logical(&self) -> (r: Logical<'_>)
        ensures
            r.module == self,
    {
        Logical::new(self)
    }

    /// Decodes an AllArbiter demand, decoding each inner demand with
    /// `decode` (given the arbiter and its demand bytes). The arbiter and
    /// demand lists must have the same length; the inner demands are decoded
    /// in order and the first failure is returned.
    pub fn decode_all_arbiter_demands<D, E, F: Fn(Address, &Vec<u8>) -> Result<D, E>>(
        &self,
        demand_data: AllArbiterDemandData,
        decode: F,
    ) -> (r: Result<DecodedAllArbiterDemandData<D>, LogicalDecodeError<E>>)
        requires
            demand_data.arbiters.len() == demand_data.demands.len() ==> forall|i: int|
                0 <= i < demand_data.arbiters.len() ==> call_requires(
                    decode,
                    (demand_data.arbiters[i], &demand_data.demands[i]),
                ),
        ensures
            logical_decode_outcome(decode, LogicalKind::All, demand_data.arbiters@, demand_data.demands@, all_outcome(r)),
            r matches Err(LogicalDecodeError::MismatchedArrays { .. }) <==> demand_data.arbiters.len()
                != demand_data.demands.len(),
    {
        if demand_data.arbiters.len() != demand_data.demands.len() {
            return Err(
                LogicalDecodeError::MismatchedArrays {
                    kind: LogicalKind::All,
                    arbiters: demand_data.arbiters.len(),
                    demands: demand_data.demands.len(),
                },
            );
        }
        match decode_logical_demands(&demand_data.arbiters, &demand_data.demands, &decode) {
            Ok(demands) => Ok(DecodedAllArbiterDemandData { arbiters: demand_data.arbiters, demands }),
            Err(e) => {
                assert(exists|k: int| #[trigger] failed_at::<D, E, F>(
                    decode,
                    demand_data.arbiters@,
                    demand_data.demands@,
                    k,
                    e,
                ));
                let r: Result<DecodedAllArbiterDemandData<D>, LogicalDecodeError<E>> = Err(
                    LogicalDecodeError::Demand(e),
                );
                assert(r matches Err(LogicalDecodeError::Demand(x)) && x == e);
                r
            },
        }
    }

    /// Decodes an AnyArbiter demand, decoding each inner demand with
    /// `decode` (given the arbiter and its demand bytes). The arbiter and
    /// demand lists must have the same length; the inner demands are decoded
    /// in order and the first failure is returned.
    pub fn decode_any_arbiter_demands<D, E, F: Fn(Address, &Vec<u8>) -> Result<D, E>>(
        &self,
        demand_data: AnyArbiterDemandData,
        decode: F,
    ) -> (r: Result<DecodedAnyArbiterDemandData<D>, LogicalDecodeError<E>>)
        requires
            demand_data.arbiters.len() == demand_data.demands.len() ==> forall|i: int|
                0 <= i < demand_data.arbiters.len() ==> call_requires(
                    decode,
                    (demand_data.arbiters[i], &demand_data.demands[i]),
                ),
        ensures
            logical_decode_outcome(decode, LogicalKind::Any, demand_data.arbiters@, demand_data.demands@, any_outcome(r)),
            r matches Err(LogicalDecodeError::MismatchedArrays { .. }) <==> demand_data.arbiters.len()
                != demand_data.demands.len(),
    {
        if demand_data.arbiters.len() != demand_data.demands.len() {
            return Err(
                LogicalDecodeError::MismatchedArrays {
                    kind: LogicalKind::Any,
                    arbiters: demand_data.arbiters.len(),
                    demands: demand_data.demands.len(),
                },
            );
        }
        match decode_logical_demands(&demand_data.arbiters, &demand_data.demands, &decode) {
            Ok(demands) => Ok(DecodedAnyArbiterDemandData { arbiters: demand_data.arbiters, demands }),
            Err(e) => {
                assert(exists|k: int| #[trigger] failed_at::<D, E, F>(
                    decode,
                    demand_data.arbiters@,
                    demand_data.demands@,
                    k,
                    e,
                ));
                let r: Result<DecodedAnyArbiterDemandData<D>, LogicalDecodeError<E>> = Err(
                    LogicalDecodeError::Demand(e),
                );
                assert(r matches Err(LogicalDecodeError::Demand(x)) && x == e);
                r
            },
        }
    }
}

/// Attestation properties arbiters API providing structured access to arbiter functionality
pub struct AttestationProperties<'a> {
    pub module: &'a ArbitersModule,
}

impl<'a> AttestationProperties<'a> {
    pub fn new(module: &'a ArbitersModule) -> (r: Self)
        ensures
            r.module == module,
    {
        AttestationProperties { module }
    }
}

/// Confirmation arbiters API
pub struct Confirmation<'a> {
    pub module: &'a ArbitersModule,
}

/// The exclusive, revocable confirmation arbiter.
pub struct ExclusiveRevocable<'a> {
    pub module: &'a ArbitersModule,
}

/// The exclusive, unrevocable confirmation arbiter.
pub struct ExclusiveUnrevocable<'a> {
    pub module: &'a ArbitersModule,
}

/// The nonexclusive, revocable confirmation arbiter.
pub struct NonexclusiveRevocable<'a> {
    pub module: &'a ArbitersModule,
}

/// The nonexclusive, unrevocable confirmation arbiter.
pub struct NonexclusiveUnrevocable<'a> {
    pub module: &'a ArbitersModule,
}

impl<'a> ExclusiveRevocable<'a> {
    pub fn new(module: &'a ArbitersModule) -> (r: Self)
        ensures
            r.module == module,
    {
        ExclusiveRevocable { module }
    }

    /// The arbiter's contract address.
    pub fn address(&self) -> (r: Address)
        ensures
            r == self.module.addresses.exclusive_revocable_confirmation_arbiter,
    {
        self.module.confirmation_arbiter_address(ConfirmationArbiterType::ExclusiveRevocable)
    }
}

impl<'a> ExclusiveUnrevocable<'a> {
    pub fn new(module: &'a ArbitersModule) -> (r: Self)
        ensures
            r.module == module,
    {
        ExclusiveUnrevocable { module }
    }

    /// The arbiter's contract address.
    pub fn address(&self) -> (r: Address)
        ensures
            r == self.module.addresses.exclusive_unrevocable_confirmation_arbiter,
    {
        self.module.confirmation_arbiter_address(ConfirmationArbiterType::ExclusiveUnrevocable)
    }
}

impl<'a> NonexclusiveRevocable<'a> {
    pub fn new(module: &'a ArbitersModule) -> (r: Self)
        ensures
            r.module == module,
    {
        NonexclusiveRevocable { module }
    }

    /// The arbiter's contract address.
    pub fn address(&self) -> (r: Address)
        ensures
            r == self.module.addresses.nonexclusive_revocable_confirmation_arbiter,
    {
        self.module.confirmation_arbiter_address(ConfirmationArbiterType::NonexclusiveRevocable)
    }
}

impl<'a> NonexclusiveUnrevocable<'a> {
    pub fn new(module: &'a ArbitersModule) -> (r: Self)
        ensures
            r.module == module,
    {
        NonexclusiveUnrevocable { module }
    }

    /// The arbiter's contract address.
    pub fn address(&self) -> (r: Address)
        ensures
            r == self.module.addresses.nonexclusive_unrevocable_confirmation_arbiter,
    {
        self.module.confirmation_arbiter_address(ConfirmationArbiterType::NonexclusiveUnrevocable)
    }
}

impl<'a> Confirmation<'a> {
    pub fn new(module: &'a ArbitersModule) -> (r: Self)
        ensures
            r.module == module,
    {
        Confirmation { module }
    }

    /// Access ExclusiveRevocableConfirmationArbiter
    pub fn exclusive_revocable(&self) -> (r: ExclusiveRevocable<'_>)
        ensures
            r.module == self.module,
    {
        ExclusiveRevocable::new(self.module)
    }

    /// Access ExclusiveUnrevocableConfirmationArbiter
    pub fn exclusive_unrevocable(&self) -> (r: ExclusiveUnrevocable<'_>)
        ensures
            r.module == self.module,
    {
        ExclusiveUnrevocable::new(self.module)
    }

    /// Access NonexclusiveRevocableConfirmationArbiter
    pub fn nonexclusive_revocable(&self) -> (r: NonexclusiveRevocable<'_>)
        ensures
            r.module == self.module,
    {
        NonexclusiveRevocable::new(self.module)
    }

    /// Access NonexclusiveUnrevocableConfirmationArbiter
    pub fn nonexclusive_unrevocable(&self) -> (r: NonexclusiveUnrevocable<'_>)
        ensures
            r.module == self.module,
    {
        NonexclusiveUnrevocable::new(self.module)
    }
}

/// Logical arbiters API providing structured access to logical arbiter decode functionality
pub struct Logical<'a> {
    pub module: &'a ArbitersModule,
}

/// AllArbiter-specific API for convenient access to decode functionality
pub struct AllArbiter<'a> {
    pub module: &'a ArbitersModule,
}

/// AnyArbiter-specific API for convenient access to decode functionality
pub struct AnyArbiter<'a> {
    pub module: &'a ArbitersModule,
}

impl<'a> Logical<'a> {
    pub fn new(module: &'a ArbitersModule) -> (r: Self)
        ensures
            r.module == module,
    {
        Logical { module }
    }

    /// Access AllArbiter-specific decode functionality
    pub fn all(&self) -> (r: AllArbiter<'_>)
        ensures
            r.module == self.module,
    {
        AllArbiter::new(self.module)
    }

    /// Access AnyArbiter-specific decode functionality
    pub fn any(&self) -> (r: AnyArbiter<'_>)
        ensures
            r.module == self.module,
    {
        AnyArbiter::new(self.module)
    }
}

impl<'a> AllArbiter<'a> {
    pub fn new(module: &'a ArbitersModule) -> (r: Self)
        ensures
            r.module == module,
    {
        AllArbiter { module }
    }

    /// Decode AllArbiter demand data into structured format; the same as
    /// the module's `decode_all_arbiter_demands`.
    pub fn decode<D, E, F: Fn(Address, &Vec<u8>) -> Result<D, E>>(
        &self,
        demand_data: AllArbiterDemandData,
        decode: F,
    ) -> (r: Result<DecodedAllArbiterDemandData<D>, LogicalDecodeError<E>>)
        requires
            demand_data.arbiters.len() == demand_data.demands.len() ==> forall|i: int|
                0 <= i < demand_data.arbiters.len() ==> call_requires(
                    decode,
                    (demand_data.arbiters[i], &demand_data.demands[i]),
                ),
        ensures
            logical_decode_outcome(decode, LogicalKind::All, demand_data.arbiters@, demand_data.demands@, all_outcome(r)),
            r matches Err(LogicalDecodeError::MismatchedArrays { .. }) <==> demand_data.arbiters.len()
                != demand_data.demands.len(),
    {
        self.module.decode_all_arbiter_demands(demand_data, decode)
    }
}

impl<'a> AnyArbiter<'a> {
    pub fn new(module: &'a ArbitersModule) -> (r: Self)
        ensures
            r.module == module,
    {
        AnyArbiter { module }
    }

    /// Decode AnyArbiter demand data into structured format; the same as
    /// the module's `decode_any_arbiter_demands`.
    pub fn decode<D, E, F: Fn(Address, &Vec<u8>) -> Result<D, E>>(
        &self,
        demand_data: AnyArbiterDemandData,
        decode: F,
    ) -> (r: Result<DecodedAnyArbiterDemandData<D>, LogicalDecodeError<E>>)
        requires
            demand_data.arbiters.len() == demand_data.demands.len() ==> forall|i: int|
                0 <= i < demand_data.arbiters.len() ==> call_requires(
                    decode,
                    (demand_data.arbiters[i], &demand_data.demands[i]),
                ),
        ensures
            logical_decode_outcome(decode, LogicalKind::Any, demand_data.arbiters@, demand_data.demands@, any_outcome(r)),
            r matches Err(LogicalDecodeError::MismatchedArrays { .. }) <==> demand_data.arbiters.len()
                != demand_data.demands.len(),
    {
        self.module.decode_any_arbiter_demands(demand_data, decode)
    }
}

} // verus!
