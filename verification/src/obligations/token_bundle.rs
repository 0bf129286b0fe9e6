//! Token bundles: native currency and tokens of every standard traded as
//! one item, and the approvals a bundle needs.

use vstd::prelude::*;

use crate::obligations::approvals::{
    distinct_in_order, erc1155_approve_all_calls, erc721_approve_all_calls,
    lemma_distinct_in_order, push_approve_all_calls, push_distinct, select_target, target_for,
    ApprovalCall,
};
use crate::primitives::Address;
use crate::types::{ApprovalPurpose, Erc1155Data, Erc20Data, Erc721Data, TokenBundleData};

verus! {

/// The token bundle contracts of a deployment.
#[derive(Clone, Debug, PartialEq, Eq)]
pub struct TokenBundleAddresses {
    pub eas: Address,
    pub barter_utils: Address,
    pub escrow_obligation_nontierable: Address,
    pub escrow_obligation_tierable: Address,
    pub payment_obligation: Address,
}

/// Token bundle obligations at a given deployment.
#[derive(Clone, Debug)]
pub struct TokenBundleModule {
    pub addresses: TokenBundleAddresses,
}

/// The ERC20 approvals of `spender` for each token amount, in order.
pub open spec fn erc20_approve_calls(tokens: Seq<Erc20Data>, spender: Address) -> Seq<ApprovalCall> {
    tokens.map_values(
        |t: Erc20Data| ApprovalCall::Erc20Approve { token: t.address, spender, amount: t.value },
    )
}

/// The distinct ERC721 contracts of a bundle, in order of first appearance.
pub open spec fn erc721_contracts(bundle: TokenBundleData) -> Seq<Address> {
    distinct_in_order(bundle.erc721s@.map_values(|t: Erc721Data| t.address))
}

/// The distinct ERC1155 contracts of a bundle, in order of first appearance.
pub open spec fn erc1155_contracts(bundle: TokenBundleData) -> Seq<Address> {
    distinct_in_order(bundle.erc1155s@.map_values(|t: Erc1155Data| t.address))
}

/// The approvals that let `target` move every token of a bundle: one ERC20
/// approval per token amount, then one approval-for-all per distinct ERC721
/// contract, then one per distinct ERC1155 contract.
pub open spec fn bundle_approval_calls(bundle: TokenBundleData, target: Address) -> Seq<ApprovalCall> {
    erc20_approve_calls(bundle.erc20s@, target) + erc721_approve_all_calls(
        erc721_contracts(bundle),
        target,
        true,
    ) + erc1155_approve_all_calls(erc1155_contracts(bundle), target, true)
}

/// Every ERC721 and every ERC1155 contract of a bundle is approved for all
/// exactly once: the contracts approved hold no repetition and are exactly
/// the contracts the bundle names.
pub proof fn lemma_bundle_contracts_approved_once(bundle: TokenBundleData)
    ensures
        erc721_contracts(bundle).no_duplicates(),
        erc1155_contracts(bundle).no_duplicates(),
        forall|a: Address| #[trigger]
            erc721_contracts(bundle).contains(a) <==> exists|i: int|
                0 <= i < bundle.erc721s.len() && bundle.erc721s@[i].address == a,
        forall|a: Address| #[trigger]
            erc1155_contracts(bundle).contains(a) <==> exists|i: int|
                0 <= i < bundle.erc1155s.len() && bundle.erc1155s@[i].address == a,
{
    let s721 = bundle.erc721s@.map_values(|t: Erc721Data| t.address);
    let s1155 = bundle.erc1155s@.map_values(|t: Erc1155Data| t.address);
    lemma_distinct_in_order(s721);
    lemma_distinct_in_order(s1155);
    assert forall|a: Address| #[trigger] erc721_contracts(bundle).contains(a) <==> exists|i: int|
        0 <= i < bundle.erc721s.len() && bundle.erc721s@[i].address == a by {
        if s721.contains(a) {
            let k = choose|k: int| 0 <= k < s721.len() && s721[k] == a;
            assert(bundle.erc721s@[k].address == a);
        }
        if exists|i: int| 0 <= i < bundle.erc721s.len() && bundle.erc721s@[i].address == a {
            let k = choose|i: int| 0 <= i < bundle.erc721s.len() && bundle.erc721s@[i].address == a;
            assert(s721[k] == a);
        }
    }
    assert forall|a: Address| #[trigger] erc1155_contracts(bundle).contains(a) <==> exists|i: int|
        0 <= i < bundle.erc1155s.len() && bundle.erc1155s@[i].address == a by {
        if s1155.contains(a) {
            let k = choose|k: int| 0 <= k < s1155.len() && s1155[k] == a;
            assert(bundle.erc1155s@[k].address == a);
        }
        if exists|i: int| 0 <= i < bundle.erc1155s.len() && bundle.erc1155s@[i].address == a {
            let k = choose|i: int|
                0 <= i < bundle.erc1155s.len() && bundle.erc1155s@[i].address == a;
            assert(s1155[k] == a);
        }
    }
}

/// The distinct ERC721 contracts of a list of tokens, in order of first appearance.
fn distinct_erc721_contracts(tokens: &Vec<Erc721Data>) -> (r: Vec<Address>)
    ensures
        r@ == distinct_in_order(tokens@.map_values(|t: Erc721Data| t.address)),
{
    let ghost all = tokens@.map_values(|t: Erc721Data| t.address);
    let mut out: Vec<Address> = Vec::new();
    let n = tokens.len();
    let mut i: usize = 0;
    assert(all.take(0) =~= Seq::<Address>::empty());
    while i < n
        invariant
            n == tokens.len(),
            all == tokens@.map_values(|t: Erc721Data| t.address),
            i <= n,
            out@ == distinct_in_order(all.take(i as int)),
        decreases n - i,
    {
        let a = tokens[i].address;
        assert(all.take(i + 1).drop_last() =~= all.take(i as int));
        assert(all.take(i + 1).last() == a);
        push_distinct(&mut out, a);
        i = i + 1;
    }
    assert(all.take(n as int) =~= all);
    out
}

/// The distinct ERC1155 contracts of a list of tokens, in order of first appearance.
fn distinct_erc1155_contracts(tokens: &Vec<Erc1155Data>) -> (r: Vec<Address>)
    ensures
        r@ == distinct_in_order(tokens@.map_values(|t: Erc1155Data| t.address)),
{
    let ghost all = tokens@.map_values(|t: Erc1155Data| t.address);
    let mut out: Vec<Address> = Vec::new();
    let n = tokens.len();
    let mut i: usize = 0;
    assert(all.take(0) =~= Seq::<Address>::empty());
    while i < n
        invariant
            n == tokens.len(),
            all == tokens@.map_values(|t: Erc1155Data| t.address),
            i <= n,
            out@ == distinct_in_order(all.take(i as int)),
        decreases n - i,
    {
        let a = tokens[i].address;
        assert(all.take(i + 1).drop_last() =~= all.take(i as int));
        assert(all.take(i + 1).last() == a);
        push_distinct(&mut out, a);
        i = i + 1;
    }
    assert(all.take(n as int) =~= all);
    out
}

/// Appends one ERC20 approval of `spender` per token amount.
fn push_erc20_approvals(out: &mut Vec<ApprovalCall>, tokens: &Vec<Erc20Data>, spender: Address)
    ensures
        final(out)@ == old(out)@ + erc20_approve_calls(tokens@, spender),
{
    let ghost start = out@;
    let ghost calls = erc20_approve_calls(tokens@, spender);
    let n = tokens.len();
    let mut i: usize = 0;
    while i < n
        invariant
            n == tokens.len(),
            i <= n,
            calls == erc20_approve_calls(tokens@, spender),
            out@ == start + calls.take(i as int),
        decreases n - i,
    {
        let t = tokens[i];
        let call = ApprovalCall::Erc20Approve { token: t.address, spender, amount: t.value };
        out.push(call);
        assert(calls.take(i + 1) =~= calls.take(i as int).push(call));
        i = i + 1;
    }
    assert(calls.take(n as int) =~= calls);
}

impl TokenBundleModule {
    /// A module for the contracts at `addresses`.
    pub fn new(addresses: TokenBundleAddresses) -> (r: Self)
        ensures
            r.addresses == addresses,
    {
        TokenBundleModule { addresses }
    }

    /// The contract an approval for `purpose` is granted to.
    pub open spec fn target(&self, purpose: ApprovalPurpose) -> Address {
        target_for(
            purpose,
            self.addresses.escrow_obligation_nontierable,
            self.addresses.payment_obligation,
            self.addresses.barter_utils,
        )
    }

    /// The contract an approval for `purpose` is granted to.
    pub fn approval_target(&self, purpose: ApprovalPurpose) -> (r: Address)
        ensures
            r == self.target(purpose),
    {
        select_target(
            purpose,
            self.addresses.escrow_obligation_nontierable,
            self.addresses.payment_obligation,
            self.addresses.barter_utils,
        )
    }
}

/// Utility API for token bundles (approvals)
pub struct Util<'a> {
    pub module: &'a TokenBundleModule,
}

impl<'a> Util<'a> {
    pub fn new(module: &'a TokenBundleModule) -> (r: Self)
        ensures
            r.module == module,
    {
        Util { module }
    }

    /// The approvals, in the order they are sent, that let the contract for
    /// `purpose` move every token of the bundle.
    pub fn approve_calls(&self, bundle: &TokenBundleData, purpose: ApprovalPurpose) -> (r: Vec<
        ApprovalCall,
    >)
        ensures
            r@ == bundle_approval_calls(*bundle, self.module.target(purpose)),
    {
        let target = self.module.approval_target(purpose);
        let mut out: Vec<ApprovalCall> = Vec::new();
        push_erc20_approvals(&mut out, &bundle.erc20s, target);
        let c721 = distinct_erc721_contracts(&bundle.erc721s);
        push_approve_all_calls(&mut out, &c721, target, true, false);
        let c1155 = distinct_erc1155_contracts(&bundle.erc1155s);
        push_approve_all_calls(&mut out, &c1155, target, true, true);
        assert(out@ =~= bundle_approval_calls(*bundle, target));
        out
    }

    /// The revocations, in the order they are sent, of the approval for all
    /// of every distinct ERC1155 contract of the bundle.
    pub fn revoke_erc1155s_calls(&self, bundle: &TokenBundleData, purpose: ApprovalPurpose) -> (r:
        Vec<ApprovalCall>)
        ensures
            r@ == erc1155_approve_all_calls(
                erc1155_contracts(*bundle),
                self.module.target(purpose),
                false,
            ),
    {
        let target = self.module.approval_target(purpose);
        let mut out: Vec<ApprovalCall> = Vec::new();
        let c1155 = distinct_erc1155_contracts(&bundle.erc1155s);
        push_approve_all_calls(&mut out, &c1155, target, false, true);
        assert(out@ =~= erc1155_approve_all_calls(erc1155_contracts(*bundle), target, false));
        out
    }
}

/// The module's approvals go, by purpose, to its non-tierable escrow, its
/// payment contract and its barter contract.
pub proof fn lemma_approval_targets(m: TokenBundleModule)
    ensures
        m.target(ApprovalPurpose::Escrow) == m.addresses.escrow_obligation_nontierable,
        m.target(ApprovalPurpose::Payment) == m.addresses.payment_obligation,
        m.target(ApprovalPurpose::BarterUtils) == m.addresses.barter_utils,
{
}

/// The approvals of a bundle, call by call: first one ERC20 approval of
/// `target` per ERC20 entry, in order and with its amount; then one
/// approval-for-all of `target` per distinct ERC721 contract; then one per
/// distinct ERC1155 contract; nothing else.
pub proof fn lemma_bundle_approval_calls(bundle: TokenBundleData, target: Address)
    ensures
        ({
            let calls = bundle_approval_calls(bundle, target);
            let n20 = bundle.erc20s@.len();
            let c721 = erc721_contracts(bundle);
            let c1155 = erc1155_contracts(bundle);
            &&& calls.len() == n20 + c721.len() + c1155.len()
            &&& forall|i: int|
                0 <= i < n20 ==> #[trigger] calls[i] == ApprovalCall::Erc20Approve {
                    token: bundle.erc20s@[i].address,
                    spender: target,
                    amount: bundle.erc20s@[i].value,
                }
            &&& forall|j: int|
                0 <= j < c721.len() ==> #[trigger] calls[n20 + j] == ApprovalCall::Erc721SetApprovalForAll {
                    token: c721[j],
                    operator: target,
                    approved: true,
                }
            &&& forall|k: int|
                0 <= k < c1155.len() ==> #[trigger] calls[n20 + c721.len() + k]
                    == ApprovalCall::Erc1155SetApprovalForAll { token: c1155[k], operator: target, approved: true }
        }),
{
}

/// The revocations for a bundle: one per distinct ERC1155 contract, each
/// withdrawing `target`'s approval for all.
pub proof fn lemma_bundle_revocation_calls(bundle: TokenBundleData, target: Address)
    ensures
        ({
            let calls = erc1155_approve_all_calls(erc1155_contracts(bundle), target, false);
            let c1155 = erc1155_contracts(bundle);
            &&& calls.len() == c1155.len()
            &&& forall|k: int|
                0 <= k < c1155.len() ==> #[trigger] calls[k] == ApprovalCall::Erc1155SetApprovalForAll {
                    token: c1155[k],
                    operator: target,
                    approved: false,
                }
        }),
{
}

} // verus!
