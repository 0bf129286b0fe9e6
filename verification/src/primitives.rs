//! Fixed-size byte values of the chain: addresses, 32-byte words and
//! 256-bit unsigned integers, with exact byte-wise equality.

use vstd::prelude::*;

verus! {

broadcast use vstd::array::group_array_axioms;

/// A 20-byte account or contract address.
#[derive(Clone, Copy, Debug, PartialEq, Eq, Hash)]
pub struct Address(pub [u8; 20]);

/// A 32-byte word (a hash, a UID, a schema id, a salt).
#[derive(Clone, Copy, Debug, PartialEq, Eq, Hash)]
pub struct B256(pub [u8; 32]);

/// A 256-bit unsigned integer, held as its 32 big-endian bytes.
#[derive(Clone, Copy, Debug, PartialEq, Eq, Hash)]
pub struct U256(pub [u8; 32]);

impl View for Address {
    type V = Seq<u8>;

    open spec fn view(&self) -> Seq<u8> {
        self.0@
    }
}

impl View for B256 {
    type V = Seq<u8>;

    open spec fn view(&self) -> Seq<u8> {
        self.0@
    }
}

impl View for U256 {
    type V = Seq<u8>;

    open spec fn view(&self) -> Seq<u8> {
        self.0@
    }
}

/// The sequence of `n` zero bytes.
pub open spec fn zeros(n: nat) -> Seq<u8> {
    Seq::new(n, |i: int| 0u8)
}

/// Compares two byte slices element by element.
pub fn bytes_eq(a: &[u8], b: &[u8]) -> (r: bool)
    ensures
        r == (a@ == b@),
{
    if a.len() != b.len() {
        return false;
    }
    let n = a.len();
    let mut i: usize = 0;
    while i < n
        invariant
            n == a@.len(),
            n == b@.len(),
            i <= n,
            forall|j: int| 0 <= j < i ==> a@[j] == b@[j],
        decreases n - i,
    {
        if a[i] != b[i] {
            return false;
        }
        i = i + 1;
    }
    assert(a@ =~= b@);
    true
}

/// The Keccak-256 hash of the bytes.
pub uninterp spec fn keccak256_spec(data: Seq<u8>) -> Seq<u8>;

/// `alloy::primitives::keccak256`: the 32-byte Keccak-256 hash.
#[verifier::external_body]
pub(crate) fn keccak256(data: &[u8]) -> (r: B256)
    ensures
        r@ == keccak256_spec(data@),
{
    B256(alloy::primitives::keccak256(data).0)
}

impl Address {
    /// The all-zero address.
    pub fn zero() -> (r: Address)
        ensures
            r@ == zeros(20),
    {
        let r = Address([0u8; 20]);
        assert(r@ =~= zeros(20));
        r
    }

    /// Whether two addresses are the same.
    pub fn same(&self, other: &Address) -> (r: bool)
        ensures
            r == (*self == *other),
    {
        let r = bytes_eq(self.0.as_slice(), other.0.as_slice());
        proof {
            if r {
                vstd::array::axiom_array_ext_equal(self.0, other.0);
            }
        }
        r
    }

    /// Whether this is the all-zero address.
    pub fn is_zero(&self) -> (r: bool)
        ensures
            r == (self@ == zeros(20)),
    {
        let z = Address::zero();
        let r = bytes_eq(self.0.as_slice(), z.0.as_slice());
        r
    }
}

impl B256 {
    /// The all-zero word.
    pub fn zero() -> (r: B256)
        ensures
            r@ == zeros(32),
    {
        let r = B256([0u8; 32]);
        assert(r@ =~= zeros(32));
        r
    }

    /// Whether two words are the same.
    pub fn same(&self, other: &B256) -> (r: bool)
        ensures
            r == (*self == *other),
    {
        let r = bytes_eq(self.0.as_slice(), other.0.as_slice());
        proof {
            if r {
                vstd::array::axiom_array_ext_equal(self.0, other.0);
            }
        }
        r
    }
}

} // verus!
