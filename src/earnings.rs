//! Ownership-weighted earnings: per-reward values, per-account totals and
//! grand totals, in exact fixed-point integers.
//!
//! Units: reward amounts are in the native token's smallest units (10^-8);
//! oracle prices in 10^-8 fiat units; ownership in whole percent. A weighted
//! native value (amount times percent) is thus in 10^-10 tokens, and a fiat
//! value (weighted native value times price) in 10^-18 fiat units.
use vstd::prelude::*;

verus! {

/// How an ownership fraction is turned into whole percentage points.
#[derive(Clone, Copy, Debug, PartialEq, Eq, Structural)]
pub enum PercentRounding {
    /// Drop the part below one percent (12.9% gives 12%).
    Truncate,
    /// Round to the nearest percent, halves up (12.5% gives 13%).
    Nearest,
}

/// Why an aggregation could not complete.
#[derive(Clone, Copy, Debug, PartialEq, Eq, Structural)]
pub enum AggregateError {
    /// A value or a total does not fit in 128 bits.
    Overflow,
}

/// Whole percentage points of an ownership fraction given in millionths.
pub open spec fn ownership_percent_spec(millionths: int, rounding: PercentRounding) -> int {
    match rounding {
        PercentRounding::Truncate => millionths / 10000,
        PercentRounding::Nearest => (millionths + 5000) / 10000,
    }
}

/// Whole percentage points of an ownership fraction given in millionths
/// (`1_000_000` is full ownership).
pub fn ownership_percent(millionths: u32, rounding: PercentRounding) -> (r: u8)
    requires
        millionths <= 1_000_000,
    ensures
        r as int == ownership_percent_spec(millionths as int, rounding),
        r <= 100,
{
    match rounding {
        PercentRounding::Truncate => (millionths / 10000) as u8,
        PercentRounding::Nearest => ((millionths + 5000) / 10000) as u8,
    }
}

/// Weighted native value of a reward: amount times ownership percent.
pub open spec fn native_value_spec(amount: int, ownership: int) -> int {
    amount * ownership
}

/// Fiat value of a reward: weighted native value times price.
pub open spec fn fiat_value_spec(amount: int, ownership: int, price: int) -> int {
    amount * ownership * price
}

/// The weighted native value and the fiat value of one reward.
pub fn weigh_reward(amount: u64, price: u64, ownership: u8) -> (r: Result<(u128, u128), AggregateError>)
    requires
        ownership <= 100,
    ensures
        match r {
            Ok((n, f)) => {
                &&& n as int == native_value_spec(amount as int, ownership as int)
                &&& f as int == fiat_value_spec(amount as int, ownership as int, price as int)
            },
            Err(e) => e == AggregateError::Overflow && fiat_value_spec(
                amount as int,
                ownership as int,
                price as int,
            ) > u128::MAX,
        },
{
    assert((amount as int) * (ownership as int) <= (u64::MAX as int) * 100) by (nonlinear_arith)
        requires
            amount <= u64::MAX,
            ownership <= 100,
    ;
    let native = (amount as u128) * (ownership as u128);
    match native.checked_mul(price as u128) {
        Some(fiat) => Ok((native, fiat)),
        None => Err(AggregateError::Overflow),
    }
}

/// A reward transaction as fetched for an account.
pub struct RewardRecord {
    /// RFC 3339 time of the block.
    pub timestamp: String,
    pub hash: String,
    pub block: u64,
    /// Native smallest units.
    pub amount: u64,
}

/// One tracked account: its label, its key and its ownership percent.
pub struct AccountConfig {
    pub label: String,
    pub pubkey: String,
    pub ownership: u8,
}

/// One row of an earnings report: a reward with its weighted values.
pub struct Entry {
    pub pubkey: String,
    pub timestamp: String,
    pub hash: String,
    pub block: u64,
    pub raw_amount: u64,
    pub oracle_price: u64,
    pub ownership: u8,
    pub native_value: u128,
    pub fiat_value: u128,
}

/// Accumulated weighted native value and fiat value.
#[derive(Clone, Copy, Debug, PartialEq, Eq, Structural)]
pub struct Totals {
    pub native: u128,
    pub fiat: u128,
}

impl Totals {
    pub fn zero() -> (r: Totals)
        ensures
            r.native == 0,
            r.fiat == 0,
    {
        Totals { native: 0, fiat: 0 }
    }

    /// Adds one pair of values; fails, leaving the totals as they were, where
    /// either sum does not fit.
    pub fn accumulate(&mut self, native: u128, fiat: u128) -> (r: Result<(), AggregateError>)
        ensures
            match r {
                Ok(()) => {
                    &&& final(self).native == old(self).native + native
                    &&& final(self).fiat == old(self).fiat + fiat
                },
                Err(e) => {
                    &&& e == AggregateError::Overflow
                    &&& (old(self).native + native > u128::MAX || old(self).fiat + fiat > u128::MAX)
                    &&& *final(self) == *old(self)
                },
            },
    {
        if native > u128::MAX - self.native || fiat > u128::MAX - self.fiat {
            return Err(AggregateError::Overflow);
        }
        self.native = self.native + native;
        self.fiat = self.fiat + fiat;
        Ok(())
    }
}

/// Whether the reward at index `i` has an oracle price.
pub open spec fn priced(prices: Seq<Option<u64>>, i: int) -> bool {
    prices[i] is Some
}

/// How many of the first `n` rewards have an oracle price.
pub open spec fn priced_upto(prices: Seq<Option<u64>>, n: int) -> int
    decreases n,
{
    if n <= 0 {
        0
    } else {
        priced_upto(prices, n - 1) + if priced(prices, n - 1) {
            1int
        } else {
            0
        }
    }
}

/// Weighted native value of the priced rewards among the first `n`.
pub open spec fn native_upto(rewards: Seq<RewardRecord>, prices: Seq<Option<u64>>, ownership: int, n: int) -> int
    decreases n,
{
    if n <= 0 {
        0
    } else {
        native_upto(rewards, prices, ownership, n - 1) + if priced(prices, n - 1) {
            native_value_spec(rewards[n - 1].amount as int, ownership)
        } else {
            0
        }
    }
}

/// Fiat value of the priced rewards among the first `n`, each at its own price.
pub open spec fn fiat_upto(rewards: Seq<RewardRecord>, prices: Seq<Option<u64>>, ownership: int, n: int) -> int
    decreases n,
{
    if n <= 0 {
        0
    } else {
        fiat_upto(rewards, prices, ownership, n - 1) + if priced(prices, n - 1) {
            fiat_value_spec(rewards[n - 1].amount as int, ownership, prices[n - 1]->Some_0 as int)
        } else {
            0
        }
    }
}

proof fn lemma_upto_monotonic(rewards: Seq<RewardRecord>, prices: Seq<Option<u64>>, ownership: int, n: int, m: int)
    requires
        0 <= n <= m,
        ownership >= 0,
    ensures
        0 <= native_upto(rewards, prices, ownership, n) <= native_upto(rewards, prices, ownership, m),
        0 <= fiat_upto(rewards, prices, ownership, n) <= fiat_upto(rewards, prices, ownership, m),
        0 <= priced_upto(prices, n) <= priced_upto(prices, m) <= m,
        priced_upto(prices, m) - priced_upto(prices, n) <= m - n,
    decreases m,
{
    if m > 0 {
        if n < m {
            lemma_upto_monotonic(rewards, prices, ownership, n, m - 1);
        } else {
            lemma_upto_monotonic(rewards, prices, ownership, n - 1, n - 1);
        }
        let a = rewards[m - 1].amount as int;
        let p = prices[m - 1]->Some_0 as int;
        assert(a * ownership >= 0 && a * ownership * p >= 0) by (nonlinear_arith)
            requires
                a >= 0,
                ownership >= 0,
                p >= 0,
        ;
    }
}

proof fn lemma_priced_rank(prices: Seq<Option<u64>>, j: int, i: int)
    requires
        0 <= j < i,
        priced(prices, j),
    ensures
        priced_upto(prices, j) < priced_upto(prices, i),
    decreases i,
{
    if j < i - 1 {
        lemma_priced_rank(prices, j, i - 1);
    }
}

proof fn lemma_unpriced_rank(prices: Seq<Option<u64>>, j: int, i: int)
    requires
        0 <= j < i,
        !priced(prices, j),
    ensures
        j - priced_upto(prices, j) < i - priced_upto(prices, i),
    decreases i,
{
    if j < i - 1 {
        lemma_unpriced_rank(prices, j, i - 1);
    }
}

/// The report of one account: its rows, its totals, and the hashes of the
/// rewards left out for want of an oracle price.
pub struct AccountReport {
    pub label: String,
    pub pubkey: String,
    pub entries: Vec<Entry>,
    pub totals: Totals,
    pub skipped: Vec<String>,
}

/// The row that one reward gives.
pub open spec fn entry_matches(e: Entry, pubkey: Seq<char>, r: RewardRecord, price: u64, ownership: u8) -> bool {
    &&& e.pubkey@ == pubkey
    &&& e.timestamp@ == r.timestamp@
    &&& e.hash@ == r.hash@
    &&& e.block == r.block
    &&& e.raw_amount == r.amount
    &&& e.oracle_price == price
    &&& e.ownership == ownership
    &&& e.native_value as int == native_value_spec(r.amount as int, ownership as int)
    &&& e.fiat_value as int == fiat_value_spec(r.amount as int, ownership as int, price as int)
}

/// What the report of an account holds after the first `n` rewards.
pub open spec fn report_upto(
    account: AccountConfig,
    rewards: Seq<RewardRecord>,
    prices: Seq<Option<u64>>,
    n: int,
    entries: Seq<Entry>,
    skipped: Seq<String>,
    totals: Totals,
) -> bool {
    let own = account.ownership as int;
    &&& entries.len() == priced_upto(prices, n)
    &&& skipped.len() == n - priced_upto(prices, n)
    &&& forall|i: int| 0 <= i < n && priced(prices, i) ==> entry_matches(
        #[trigger] entries[priced_upto(prices, i)],
        account.pubkey@,
        rewards[i],
        prices[i]->Some_0,
        account.ownership,
    )
    &&& forall|i: int| 0 <= i < n && !priced(prices, i) ==> (#[trigger] skipped[i - priced_upto(prices, i)])@ == rewards[i].hash@
    &&& totals.native as int == native_upto(rewards, prices, own, n)
    &&& totals.fiat as int == fiat_upto(rewards, prices, own, n)
}

/// Builds the report of one account from its rewards, in the order given,
/// where `prices[i]` is the oracle price at the block of `rewards[i]`, or
/// `None` where none could be had: such a reward gets no row and its hash is
/// listed as skipped. Nothing is reordered or deduplicated. Fails exactly
/// where a total does not fit in 128 bits.
pub fn aggregate_account(account: &AccountConfig, rewards: &Vec<RewardRecord>, prices: &Vec<Option<u64>>) -> (r: Result<AccountReport, AggregateError>)
    requires
        rewards@.len() == prices@.len(),
        account.ownership <= 100,
    ensures
        match r {
            Ok(rep) => {
                &&& rep.label@ == account.label@
                &&& rep.pubkey@ == account.pubkey@
                &&& report_upto(*account, rewards@, prices@, rewards@.len() as int, rep.entries@, rep.skipped@, rep.totals)
            },
            Err(e) => {
                &&& e == AggregateError::Overflow
                &&& (native_upto(rewards@, prices@, account.ownership as int, rewards@.len() as int) > u128::MAX
                    || fiat_upto(rewards@, prices@, account.ownership as int, rewards@.len() as int) > u128::MAX)
            },
        },
{
    let ghost own = account.ownership as int;
    let ghost n = rewards@.len() as int;
    let mut entries: Vec<Entry> = Vec::new();
    let mut skipped: Vec<String> = Vec::new();
    let mut totals = Totals::zero();
    let mut i: usize = 0;
    while i < rewards.len()
        invariant
            rewards@.len() == prices@.len(),
            n == rewards@.len(),
            own == account.ownership as int,
            account.ownership <= 100,
            i <= rewards@.len(),
            report_upto(*account, rewards@, prices@, i as int, entries@, skipped@, totals),
        decreases rewards@.len() - i,
    {
        let reward = &rewards[i];
        proof {
            lemma_upto_monotonic(rewards@, prices@, own, i + 1, n);
            lemma_upto_monotonic(rewards@, prices@, own, i as int, i as int);
        }
        match prices[i] {
            None => {
                let ghost old_skipped = skipped@;
                skipped.push(reward.hash.clone());
                proof {
                    assert forall|j: int| 0 <= j < i + 1 && !priced(prices@, j) implies (#[trigger] skipped@[j
                        - priced_upto(prices@, j)])@ == rewards@[j].hash@ by {
                        if j < i {
                            lemma_unpriced_rank(prices@, j, i as int);
                            lemma_upto_monotonic(rewards@, prices@, own, 0, j);
                            assert(skipped@[j - priced_upto(prices@, j)] == old_skipped[j - priced_upto(prices@, j)]);
                        }
                    }
                }
            },
            Some(price) => {
                let (native, fiat) = match weigh_reward(reward.amount, price, account.ownership) {
                    Ok(v) => v,
                    Err(e) => {
                        return Err(e);
                    },
                };
                match totals.accumulate(native, fiat) {
                    Ok(()) => {},
                    Err(e) => {
                        return Err(e);
                    },
                }
                let ghost old_entries = entries@;
                entries.push(
                    Entry {
                        pubkey: account.pubkey.clone(),
                        timestamp: reward.timestamp.clone(),
                        hash: reward.hash.clone(),
                        block: reward.block,
                        raw_amount: reward.amount,
                        oracle_price: price,
                        ownership: account.ownership,
                        native_value: native,
                        fiat_value: fiat,
                    },
                );
                proof {
                    assert forall|j: int| 0 <= j < i + 1 && priced(prices@, j) implies entry_matches(
                        #[trigger] entries@[priced_upto(prices@, j)],
                        account.pubkey@,
                        rewards@[j],
                        prices@[j]->Some_0,
                        account.ownership,
                    ) by {
                        if j < i {
                            lemma_priced_rank(prices@, j, i as int);
                            lemma_upto_monotonic(rewards@, prices@, own, 0, j);
                            assert(entries@[priced_upto(prices@, j)] == old_entries[priced_upto(prices@, j)]);
                        }
                    }
                }
            },
        }
        i = i + 1;
    }
    Ok(AccountReport { label: account.label.clone(), pubkey: account.pubkey.clone(), entries, totals, skipped })
}

/// Sum of the per-account weighted native totals.
pub open spec fn grand_native(reports: Seq<AccountReport>) -> int
    decreases reports.len(),
{
    if reports.len() == 0 {
        0
    } else {
        grand_native(reports.drop_last()) + reports.last().totals.native
    }
}

/// Sum of the per-account fiat totals.
pub open spec fn grand_fiat(reports: Seq<AccountReport>) -> int
    decreases reports.len(),
{
    if reports.len() == 0 {
        0
    } else {
        grand_fiat(reports.drop_last()) + reports.last().totals.fiat
    }
}

proof fn lemma_grand_prefix(reports: Seq<AccountReport>, i: int)
    requires
        0 <= i <= reports.len(),
    ensures
        0 <= grand_native(reports.subrange(0, i)) <= grand_native(reports),
        0 <= grand_fiat(reports.subrange(0, i)) <= grand_fiat(reports),
    decreases reports.len(),
{
    if reports.len() > 0 {
        if i == reports.len() {
            assert(reports.subrange(0, i) =~= reports);
            lemma_grand_prefix(reports.drop_last(), i - 1);
            assert(reports.drop_last().subrange(0, i - 1) =~= reports.drop_last());
        } else {
            lemma_grand_prefix(reports.drop_last(), i);
            assert(reports.drop_last().subrange(0, i) =~= reports.subrange(0, i));
        }
    }
}

/// The grand totals: the sums of the per-account totals. Fails exactly where
/// a sum does not fit in 128 bits.
pub fn grand_totals(reports: &Vec<AccountReport>) -> (r: Result<Totals, AggregateError>)
    ensures
        match r {
            Ok(t) => t.native as int == grand_native(reports@) && t.fiat as int == grand_fiat(reports@),
            Err(e) => e == AggregateError::Overflow && (grand_native(reports@) > u128::MAX
                || grand_fiat(reports@) > u128::MAX),
        },
{
    let mut totals = Totals::zero();
    let mut i: usize = 0;
    while i < reports.len()
        invariant
            i <= reports@.len(),
            totals.native as int == grand_native(reports@.subrange(0, i as int)),
            totals.fiat as int == grand_fiat(reports@.subrange(0, i as int)),
        decreases reports@.len() - i,
    {
        proof {
            assert(reports@.subrange(0, i + 1).drop_last() =~= reports@.subrange(0, i as int));
            lemma_grand_prefix(reports@, i + 1);
        }
        match totals.accumulate(reports[i].totals.native, reports[i].totals.fiat) {
            Ok(()) => {},
            Err(e) => {
                return Err(e);
            },
        }
        i = i + 1;
    }
    assert(reports@.subrange(0, i as int) =~= reports@);
    Ok(totals)
}

} // verus!
