//! Properties of effect resolution that relate several calls.
use vstd::prelude::*;
use crate::earnings::{fiat_value_spec, grand_fiat, grand_native, AccountReport};
use crate::effect::{native_delta_of, paid_to, sum_amounts, total_paid, Payment, TxnKind};

verus! {

/// Whether `kind` is a single-payer, single-payee transfer from `payer` to `payee`.
pub open spec fn is_transfer_between(kind: TxnKind, payer: Seq<u8>, payee: Seq<u8>) -> bool {
    match kind {
        TxnKind::PaymentV1 { payer: a, payee: b, .. } => a@.raw == payer && b@.raw == payee,
        TxnKind::TokenBurnV1 { payer: a, payee: b, .. } => a@.raw == payer && b@.raw == payee,
        _ => false,
    }
}

/// A transfer between two distinct accounts moves value from one to the
/// other: the payer's and the payee's native deltas cancel.
pub proof fn lemma_transfer_zero_sum(kind: TxnKind, payer: Seq<u8>, payee: Seq<u8>)
    requires
        is_transfer_between(kind, payer, payee),
        payer != payee,
    ensures
        native_delta_of(kind, payer) + native_delta_of(kind, payee) == 0,
{
}

/// Sum of the native deltas of `kind` over a list of accounts.
pub open spec fn deltas_sum(kind: TxnKind, accounts: Seq<Seq<u8>>) -> int
    decreases accounts.len(),
{
    if accounts.len() == 0 {
        0
    } else {
        deltas_sum(kind, accounts.drop_last()) + native_delta_of(kind, accounts.last())
    }
}

/// Sum, over a list of accounts, of what a payment list pays to each.
pub open spec fn paid_to_each(p: Seq<Payment>, accounts: Seq<Seq<u8>>) -> int
    decreases accounts.len(),
{
    if accounts.len() == 0 {
        0
    } else {
        paid_to_each(p, accounts.drop_last()) + paid_to(p, accounts.last())
    }
}

/// `a` for each entry of `accounts` that equals `x`.
pub open spec fn matching_amount(accounts: Seq<Seq<u8>>, x: Seq<u8>, a: int) -> int
    decreases accounts.len(),
{
    if accounts.len() == 0 {
        0
    } else {
        matching_amount(accounts.drop_last(), x, a) + if accounts.last() == x {
            a
        } else {
            0
        }
    }
}

proof fn lemma_matching_amount_absent(accounts: Seq<Seq<u8>>, x: Seq<u8>, a: int)
    requires
        !accounts.contains(x),
    ensures
        matching_amount(accounts, x, a) == 0,
    decreases accounts.len(),
{
    if accounts.len() > 0 {
        assert(!accounts.drop_last().contains(x)) by {
            if accounts.drop_last().contains(x) {
                let k = choose|k: int| 0 <= k < accounts.drop_last().len() && accounts.drop_last()[k] == x;
                assert(accounts[k] == x);
            }
        }
        assert(accounts.last() == accounts[accounts.len() - 1]);
        lemma_matching_amount_absent(accounts.drop_last(), x, a);
    }
}

proof fn lemma_matching_amount_once(accounts: Seq<Seq<u8>>, x: Seq<u8>, a: int)
    requires
        accounts.no_duplicates(),
        accounts.contains(x),
    ensures
        matching_amount(accounts, x, a) == a,
    decreases accounts.len(),
{
    let n = accounts.len() as int;
    let rest = accounts.drop_last();
    if accounts.last() == x {
        assert(!rest.contains(x)) by {
            if rest.contains(x) {
                let k = choose|k: int| 0 <= k < rest.len() && rest[k] == x;
                assert(accounts[k] == accounts[n - 1]);
            }
        }
        lemma_matching_amount_absent(rest, x, a);
    } else {
        let k = choose|k: int| 0 <= k < n && accounts[k] == x;
        assert(k != n - 1);
        assert(rest[k] == x);
        assert(rest.no_duplicates()) by {
            assert forall|i: int, j: int| 0 <= i < rest.len() && 0 <= j < rest.len() && i != j
                implies rest[i] != rest[j] by {
                assert(rest[i] == accounts[i] && rest[j] == accounts[j]);
            }
        }
        lemma_matching_amount_once(rest, x, a);
    }
}

proof fn lemma_paid_to_each_step(p: Seq<Payment>, accounts: Seq<Seq<u8>>)
    requires
        p.len() > 0,
    ensures
        paid_to_each(p, accounts) == paid_to_each(p.drop_last(), accounts) + matching_amount(
            accounts,
            p.last().payee@.raw,
            p.last().amount as int,
        ),
    decreases accounts.len(),
{
    if accounts.len() > 0 {
        lemma_paid_to_each_step(p, accounts.drop_last());
    }
}

proof fn lemma_paid_to_each_total(p: Seq<Payment>, accounts: Seq<Seq<u8>>)
    requires
        accounts.no_duplicates(),
        forall|i: int| 0 <= i < p.len() ==> accounts.contains(#[trigger] p[i].payee@.raw),
    ensures
        paid_to_each(p, accounts) == total_paid(p),
    decreases p.len(),
{
    if p.len() == 0 {
        lemma_paid_to_each_empty(p, accounts);
    } else {
        let q = p.drop_last();
        assert forall|i: int| 0 <= i < q.len() implies accounts.contains(#[trigger] q[i].payee@.raw) by {
            assert(q[i] == p[i]);
        }
        lemma_paid_to_each_total(q, accounts);
        lemma_paid_to_each_step(p, accounts);
        assert(accounts.contains(p[p.len() - 1].payee@.raw));
        lemma_matching_amount_once(accounts, p.last().payee@.raw, p.last().amount as int);
    }
}

proof fn lemma_paid_to_each_empty(p: Seq<Payment>, accounts: Seq<Seq<u8>>)
    requires
        p.len() == 0,
    ensures
        paid_to_each(p, accounts) == 0,
    decreases accounts.len(),
{
    if accounts.len() > 0 {
        lemma_paid_to_each_empty(p, accounts.drop_last());
    }
}

proof fn lemma_deltas_are_payments(kind: TxnKind, accounts: Seq<Seq<u8>>)
    requires
        kind is PaymentV2,
        !accounts.contains(kind->PaymentV2_payer@.raw),
    ensures
        deltas_sum(kind, accounts) == paid_to_each(kind->PaymentV2_payments@, accounts),
    decreases accounts.len(),
{
    if accounts.len() > 0 {
        let rest = accounts.drop_last();
        assert(!rest.contains(kind->PaymentV2_payer@.raw)) by {
            if rest.contains(kind->PaymentV2_payer@.raw) {
                let k = choose|k: int| 0 <= k < rest.len() && rest[k] == kind->PaymentV2_payer@.raw;
                assert(accounts[k] == rest[k]);
            }
        }
        assert(accounts.last() == accounts[accounts.len() - 1]);
        lemma_deltas_are_payments(kind, rest);
    }
}

/// A multi-recipient payment moves value without creating or destroying it:
/// the payer's delta plus the deltas of all distinct payees is zero, where
/// the payer is not among the payees.
pub proof fn lemma_multi_payment_zero_sum(kind: TxnKind, payees: Seq<Seq<u8>>)
    requires
        kind is PaymentV2,
        payees.no_duplicates(),
        forall|i: int|
            0 <= i < kind->PaymentV2_payments@.len() ==> payees.contains(
                #[trigger] kind->PaymentV2_payments@[i].payee@.raw,
            ),
        !payees.contains(kind->PaymentV2_payer@.raw),
    ensures
        native_delta_of(kind, kind->PaymentV2_payer@.raw) + deltas_sum(kind, payees) == 0,
{
    lemma_deltas_are_payments(kind, payees);
    lemma_paid_to_each_total(kind->PaymentV2_payments@, payees);
}

proof fn lemma_sum_remove(s: Seq<u64>, j: int)
    requires
        0 <= j < s.len(),
    ensures
        sum_amounts(s) == sum_amounts(s.remove(j)) + s[j],
    decreases s.len(),
{
    if j == s.len() - 1 {
        assert(s.remove(j) =~= s.drop_last());
    } else {
        assert(s.remove(j).drop_last() =~= s.drop_last().remove(j));
        assert(s.remove(j).last() == s.last());
        lemma_sum_remove(s.drop_last(), j);
    }
}

/// Summing a list of amounts gives the same total in any order.
pub proof fn lemma_sum_order_irrelevant(a: Seq<u64>, b: Seq<u64>)
    requires
        a.to_multiset() == b.to_multiset(),
    ensures
        sum_amounts(a) == sum_amounts(b),
    decreases a.len(),
{
    broadcast use vstd::seq_lib::group_to_multiset_ensures;

    if a.len() == 0 {
        assert(a.to_multiset().len() == a.len());
        assert(b.to_multiset().len() == b.len());
        assert(b.len() == 0);
    } else {
        let x = a.last();
        let rest = a.drop_last();
        assert(rest.push(x) =~= a);
        assert(a.to_multiset().count(x) > 0);
        assert(b.contains(x));
        let j = choose|j: int| 0 <= j < b.len() && b[j] == x;
        assert(b.remove(j).to_multiset() =~= rest.to_multiset());
        lemma_sum_order_irrelevant(rest, b.remove(j));
        lemma_sum_remove(b, j);
    }
}

/// The rewards listed in a reward transaction, if it is one.
pub open spec fn reward_list(kind: TxnKind) -> Option<Seq<u64>> {
    match kind {
        TxnKind::RewardsV1 { rewards } => Some(rewards@),
        TxnKind::RewardsV2 { rewards } => Some(rewards@),
        _ => None,
    }
}

/// Reward resolution does not depend on the order of the reward list: two
/// reward transactions that list the same amounts in any order credit the
/// same total.
pub proof fn lemma_reward_order_irrelevant(k1: TxnKind, k2: TxnKind, account: Seq<u8>)
    requires
        reward_list(k1) is Some,
        reward_list(k2) is Some,
        reward_list(k1)->Some_0.to_multiset() == reward_list(k2)->Some_0.to_multiset(),
    ensures
        native_delta_of(k1, account) == native_delta_of(k2, account),
{
    lemma_sum_order_irrelevant(reward_list(k1)->Some_0, reward_list(k2)->Some_0);
}

/// For a fixed positive amount and positive ownership, a higher oracle price
/// gives a strictly higher fiat value.
pub proof fn lemma_fiat_value_monotonic_in_price(amount: u64, ownership: u8, low_price: u64, high_price: u64)
    requires
        amount > 0,
        ownership > 0,
        low_price < high_price,
    ensures
        fiat_value_spec(amount as int, ownership as int, low_price as int) < fiat_value_spec(
            amount as int,
            ownership as int,
            high_price as int,
        ),
{
    let w = (amount as int) * (ownership as int);
    assert(w > 0) by (nonlinear_arith)
        requires
            amount > 0,
            ownership > 0,
            w == (amount as int) * (ownership as int),
    ;
    assert(w * (low_price as int) < w * (high_price as int)) by (nonlinear_arith)
        requires
            w > 0,
            low_price < high_price,
    ;
}

/// Grand totals are additive over any split of the accounts into two groups,
/// and do not depend on which group comes first.
pub proof fn lemma_grand_totals_partition(a: Seq<AccountReport>, b: Seq<AccountReport>)
    ensures
        grand_native(a + b) == grand_native(a) + grand_native(b),
        grand_fiat(a + b) == grand_fiat(a) + grand_fiat(b),
        grand_native(a + b) == grand_native(b + a),
        grand_fiat(a + b) == grand_fiat(b + a),
{
    lemma_grand_append(a, b);
    lemma_grand_append(b, a);
}

proof fn lemma_grand_append(a: Seq<AccountReport>, b: Seq<AccountReport>)
    ensures
        grand_native(a + b) == grand_native(a) + grand_native(b),
        grand_fiat(a + b) == grand_fiat(a) + grand_fiat(b),
    decreases b.len(),
{
    if b.len() == 0 {
        assert(a + b =~= a);
    } else {
        assert((a + b).drop_last() =~= a + b.drop_last());
        assert((a + b).last() == b.last());
        lemma_grand_append(a, b.drop_last());
    }
}

} // verus!
