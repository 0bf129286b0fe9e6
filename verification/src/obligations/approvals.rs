//! Token approvals: the calls that let an obligation contract move a
//! holder's tokens, and the de-duplication of token contracts they need.

use vstd::prelude::*;

use crate::primitives::{Address, U256};
use crate::types::ApprovalPurpose;

verus! {

/// One approval transaction, as sent to a token contract.
#[derive(Clone, Copy, Debug, PartialEq, Eq)]
pub enum ApprovalCall {
    /// `IERC20::approve(spender, amount)` on `token`.
    Erc20Approve { token: Address, spender: Address, amount: U256 },
    /// `IERC721::approve(spender, id)` on `token`.
    Erc721Approve { token: Address, spender: Address, id: U256 },
    /// `IERC721::setApprovalForAll(operator, approved)` on `token`.
    Erc721SetApprovalForAll { token: Address, operator: Address, approved: bool },
    /// `IERC1155::setApprovalForAll(operator, approved)` on `token`.
    Erc1155SetApprovalForAll { token: Address, operator: Address, approved: bool },
}

/// The contract that an approval for `purpose` is granted to, among a token
/// module's escrow, payment and barter contracts.
pub open spec fn target_for(
    purpose: ApprovalPurpose,
    escrow: Address,
    payment: Address,
    barter_utils: Address,
) -> Address {
    match purpose {
        ApprovalPurpose::Escrow => escrow,
        ApprovalPurpose::Payment => payment,
        ApprovalPurpose::BarterUtils => barter_utils,
    }
}

/// Picks the approval target for `purpose`.
pub fn select_target(
    purpose: ApprovalPurpose,
    escrow: Address,
    payment: Address,
    barter_utils: Address,
) -> (r: Address)
    ensures
        r == target_for(purpose, escrow, payment, barter_utils),
{
    match purpose {
        ApprovalPurpose::Escrow => escrow,
        ApprovalPurpose::Payment => payment,
        ApprovalPurpose::BarterUtils => barter_utils,
    }
}

/// The elements of `s`, each kept at its first occurrence only.
pub open spec fn distinct_in_order(s: Seq<Address>) -> Seq<Address>
    decreases s.len(),
{
    if s.len() == 0 {
        s
    } else {
        let d = distinct_in_order(s.drop_last());
        if d.contains(s.last()) {
            d
        } else {
            d.push(s.last())
        }
    }
}

/// `distinct_in_order(s)` holds no address twice, and exactly the
/// addresses of `s`.
pub proof fn lemma_distinct_in_order(s: Seq<Address>)
    ensures
        distinct_in_order(s).no_duplicates(),
        forall|a: Address| #[trigger] distinct_in_order(s).contains(a) <==> s.contains(a),
    decreases s.len(),
{
    if s.len() > 0 {
        let p = s.drop_last();
        lemma_distinct_in_order(p);
        let d = distinct_in_order(p);
        assert forall|a: Address| #[trigger] distinct_in_order(s).contains(a) <==> s.contains(a) by {
            if s.contains(a) {
                let k = choose|k: int| 0 <= k < s.len() && s[k] == a;
                if k < s.len() - 1 {
                    assert(p[k] == a);
                }
            }
            if p.contains(a) {
                let k = choose|k: int| 0 <= k < p.len() && p[k] == a;
                assert(s[k] == a);
            }
            if !d.contains(s.last()) {
                if d.push(s.last()).contains(a) {
                    let k = choose|k: int| 0 <= k < d.push(s.last()).len() && d.push(s.last())[k] == a;
                    if k < d.len() {
                        assert(d[k] == a);
                    }
                }
                if d.contains(a) {
                    let k = choose|k: int| 0 <= k < d.len() && d[k] == a;
                    assert(d.push(s.last())[k] == a);
                }
                assert(d.push(s.last())[d.len() as int] == s.last());
            }
            assert(s[s.len() - 1] == s.last());
        }
        if !d.contains(s.last()) {
            let e = d.push(s.last());
            assert forall|i: int, j: int| 0 <= i < e.len() && 0 <= j < e.len() && i != j implies e[i]
                != e[j] by {
                if i < d.len() && j < d.len() {
                    assert(e[i] == d[i] && e[j] == d[j]);
                } else if i < d.len() {
                    assert(e[i] == d[i]);
                } else if j < d.len() {
                    assert(e[j] == d[j]);
                }
            }
        }
    }
}

/// The addresses of a token list, projected by `f`.
pub open spec fn token_addresses<T>(tokens: Seq<T>, f: spec_fn(T) -> Address) -> Seq<Address> {
    tokens.map_values(f)
}

/// Whether `a` occurs in `v`.
pub fn contains_address(v: &Vec<Address>, a: &Address) -> (r: bool)
    ensures
        r == v@.contains(*a),
{
    let n = v.len();
    let mut i: usize = 0;
    while i < n
        invariant
            n == v.len(),
            i <= n,
            forall|j: int| 0 <= j < i ==> v@[j] != *a,
        decreases n - i,
    {
        if v[i].same(a) {
            assert(v@[i as int] == *a);
            return true;
        }
        i = i + 1;
    }
    false
}

/// Appends `a` to a list of distinct addresses unless it is already there.
pub fn push_distinct(out: &mut Vec<Address>, a: Address)
    ensures
        final(out)@ == (if old(out)@.contains(a) {
            old(out)@
        } else {
            old(out)@.push(a)
        }),
{
    if !contains_address(out, &a) {
        out.push(a);
    }
}

/// The approval-for-all calls granting (or revoking) `operator` on each
/// ERC721 contract in `tokens`.
pub open spec fn erc721_approve_all_calls(tokens: Seq<Address>, operator: Address, approved: bool) -> Seq<
    ApprovalCall,
> {
    tokens.map_values(
        |t: Address| ApprovalCall::Erc721SetApprovalForAll { token: t, operator, approved },
    )
}

/// The approval-for-all calls granting (or revoking) `operator` on each
/// ERC1155 contract in `tokens`.
pub open spec fn erc1155_approve_all_calls(tokens: Seq<Address>, operator: Address, approved: bool) -> Seq<
    ApprovalCall,
> {
    tokens.map_values(
        |t: Address| ApprovalCall::Erc1155SetApprovalForAll { token: t, operator, approved },
    )
}

/// Appends one approval-for-all call per address.
pub fn push_approve_all_calls(
    out: &mut Vec<ApprovalCall>,
    tokens: &Vec<Address>,
    operator: Address,
    approved: bool,
    erc1155: bool,
)
    ensures
        final(out)@ == old(out)@ + (if erc1155 {
            erc1155_approve_all_calls(tokens@, operator, approved)
        } else {
            erc721_approve_all_calls(tokens@, operator, approved)
        }),
{
    let ghost start = out@;
    let ghost calls = if erc1155 {
        erc1155_approve_all_calls(tokens@, operator, approved)
    } else {
        erc721_approve_all_calls(tokens@, operator, approved)
    };
    let n = tokens.len();
    let mut i: usize = 0;
    while i < n
        invariant
            n == tokens.len(),
            i <= n,
            calls.len() == n,
            calls == (if erc1155 {
                erc1155_approve_all_calls(tokens@, operator, approved)
            } else {
                erc721_approve_all_calls(tokens@, operator, approved)
            }),
            out@ == start + calls.take(i as int),
        decreases n - i,
    {
        let call = if erc1155 {
            ApprovalCall::Erc1155SetApprovalForAll { token: tokens[i], operator, approved }
        } else {
            ApprovalCall::Erc721SetApprovalForAll { token: tokens[i], operator, approved }
        };
        out.push(call);
        assert(calls.take(i + 1) =~= calls.take(i as int).push(call));
        i = i + 1;
    }
    assert(calls.take(n as int) =~= calls);
}

/// An approval for escrow goes to the escrow contract, one for payment to
/// the payment contract, and one for bartering to the barter contract.
pub proof fn lemma_target_by_purpose(escrow: Address, payment: Address, barter_utils: Address)
    ensures
        target_for(ApprovalPurpose::Escrow, escrow, payment, barter_utils) == escrow,
        target_for(ApprovalPurpose::Payment, escrow, payment, barter_utils) == payment,
        target_for(ApprovalPurpose::BarterUtils, escrow, payment, barter_utils) == barter_utils,
{
}

} // verus!
