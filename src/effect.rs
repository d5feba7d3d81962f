//! The economic effect of one transaction on one account.
use vstd::prelude::*;
use crate::identity::{AccountIdentity, IdentityView};

verus! {

/// One (payee, amount) pair of a multi-recipient payment; amounts are in the
/// native token's smallest units.
pub struct Payment {
    pub payee: AccountIdentity,
    pub amount: u64,
}

/// A transaction's variant and the fields that its effect policy reads.
/// Native amounts are in smallest units; fees are as the ledger states them.
pub enum TxnKind {
    PaymentV1 { payer: AccountIdentity, payee: AccountIdentity, amount: u64, fee: u64 },
    PaymentV2 { payer: AccountIdentity, payments: Vec<Payment>, fee: u64 },
    RewardsV1 { rewards: Vec<u64> },
    RewardsV2 { rewards: Vec<u64> },
    TokenBurnV1 { payer: AccountIdentity, payee: AccountIdentity, amount: u64, fee: u64 },
    AddGatewayV1,
    AssertLocationV1,
    AssertLocationV2,
    BundleV1,
    CoinbaseV1,
    ConsensusGroupFailureV1,
    ConsensusGroupV1,
    CreateHtlcV1,
    DcCoinbaseV1,
    GenGatewayV1,
    GenPriceOracleV1,
    OuiV1,
    PocReceiptsV1,
    PocReceiptsV2,
    PocRequestV1,
    PriceOracleV1,
    RedeemHtlcV1,
    RoutingV1,
    SecurityCoinbaseV1,
    SecurityExchangeV1,
    StakeValidatorV1,
    StateChannelCloseV1,
    StateChannelOpenV1,
    TokenBurnExchangeRateV1,
    TransferHotspotV1,
    TransferValidatorStakeV1,
    UnstakeValidatorV1,
    UpdateGatewayOuiV1,
    ValidatorHeartbeatV1,
    VarsV1,
    /// A variant that the ledger reports and this model does not know.
    Unknown,
}

/// A transaction with the metadata shared by all variants.
pub struct TransactionRecord {
    pub height: u64,
    pub hash: String,
    /// Seconds since the Unix epoch.
    pub time: u64,
    pub kind: TxnKind,
}

/// Who is on the other side of an effect.
pub enum Counterparty {
    /// A peer account, by its display string.
    Account(String),
    /// A payment to more than one recipient.
    ManyPayees,
    /// The ledger's reward emission.
    Rewards,
}

/// The mathematical value of a counterparty.
pub enum CounterpartyView {
    Account(Seq<char>),
    ManyPayees,
    Rewards,
}

impl View for Counterparty {
    type V = CounterpartyView;

    open spec fn view(&self) -> CounterpartyView {
        match self {
            Counterparty::Account(s) => CounterpartyView::Account(s@),
            Counterparty::ManyPayees => CounterpartyView::ManyPayees,
            Counterparty::Rewards => CounterpartyView::Rewards,
        }
    }
}

/// The effect of a transaction on an account. `native_delta` is in the native
/// token's smallest units (10^-8 of a token); `fee_token_delta` is in units of
/// 10^-16 (smallest native units times a price in 10^-8 fiat units).
pub struct EconomicEffect {
    pub counterparty: Option<Counterparty>,
    pub native_delta: i128,
    pub fee_token_delta: u128,
    pub fee: u64,
}

/// The mathematical value of an effect.
pub struct EffectView {
    pub counterparty: Option<CounterpartyView>,
    pub native_delta: int,
    pub fee_token_delta: int,
    pub fee: int,
}

impl View for EconomicEffect {
    type V = EffectView;

    open spec fn view(&self) -> EffectView {
        EffectView {
            counterparty: match self.counterparty {
                Some(c) => Some(c@),
                None => None,
            },
            native_delta: self.native_delta as int,
            fee_token_delta: self.fee_token_delta as int,
            fee: self.fee as int,
        }
    }
}

/// Why an effect could not be resolved.
#[derive(Clone, Copy, Debug, PartialEq, Eq, Structural)]
pub enum ResolveError {
    /// The fee-token conversion needs an oracle price and none was found.
    OraclePriceUnavailable,
}

/// A list that memory can hold: no more entries than `isize::MAX`.
pub open spec fn fits_in_memory(len: int) -> bool {
    len <= isize::MAX
}

/// Sum of a list of amounts.
pub open spec fn sum_amounts(s: Seq<u64>) -> int
    decreases s.len(),
{
    if s.len() == 0 {
        0
    } else {
        sum_amounts(s.drop_last()) + s.last()
    }
}

/// Sum of all amounts of a payment list.
pub open spec fn total_paid(p: Seq<Payment>) -> int
    decreases p.len(),
{
    if p.len() == 0 {
        0
    } else {
        total_paid(p.drop_last()) + p.last().amount
    }
}

/// Sum of the amounts of a payment list that go to the account `who`.
pub open spec fn paid_to(p: Seq<Payment>, who: Seq<u8>) -> int
    decreases p.len(),
{
    if p.len() == 0 {
        0
    } else {
        paid_to(p.drop_last(), who) + if p.last().payee@.raw == who {
            p.last().amount as int
        } else {
            0
        }
    }
}

/// Whether the lists of a transaction can be held in memory.
pub open spec fn kind_fits(kind: TxnKind) -> bool {
    match kind {
        TxnKind::PaymentV2 { payments, .. } => fits_in_memory(payments@.len() as int),
        TxnKind::RewardsV1 { rewards } => fits_in_memory(rewards@.len() as int),
        TxnKind::RewardsV2 { rewards } => fits_in_memory(rewards@.len() as int),
        _ => true,
    }
}

/// Native delta of a single-payer, single-payee transfer.
pub open spec fn transfer_delta(payer: IdentityView, payee: IdentityView, amount: u64, account: Seq<u8>) -> int {
    if payer.raw == account {
        -amount
    } else if payee.raw == account {
        amount as int
    } else {
        0
    }
}

/// Counterparty of a single-payer, single-payee transfer.
pub open spec fn transfer_counterparty(payer: IdentityView, payee: IdentityView, account: Seq<u8>) -> Option<CounterpartyView> {
    if payer.raw == account {
        Some(CounterpartyView::Account(payee.display))
    } else if payee.raw == account {
        Some(CounterpartyView::Account(payer.display))
    } else {
        None
    }
}

/// The native-token delta that a transaction makes to `account`.
pub open spec fn native_delta_of(kind: TxnKind, account: Seq<u8>) -> int {
    match kind {
        TxnKind::PaymentV1 { payer, payee, amount, .. } => transfer_delta(payer@, payee@, amount, account),
        TxnKind::TokenBurnV1 { payer, payee, amount, .. } => transfer_delta(payer@, payee@, amount, account),
        TxnKind::PaymentV2 { payer, payments, .. } => if payer@.raw == account {
            -total_paid(payments@)
        } else {
            paid_to(payments@, account)
        },
        TxnKind::RewardsV1 { rewards } => sum_amounts(rewards@),
        TxnKind::RewardsV2 { rewards } => sum_amounts(rewards@),
        _ => 0,
    }
}

/// The counterparty that a transaction shows to `account`.
pub open spec fn counterparty_of(kind: TxnKind, account: Seq<u8>) -> Option<CounterpartyView> {
    match kind {
        TxnKind::PaymentV1 { payer, payee, .. } => transfer_counterparty(payer@, payee@, account),
        TxnKind::TokenBurnV1 { payer, payee, .. } => transfer_counterparty(payer@, payee@, account),
        TxnKind::PaymentV2 { payer, payments, .. } => if payer@.raw == account {
            if payments@.len() == 1 {
                Some(CounterpartyView::Account(payments@[0].payee@.display))
            } else {
                Some(CounterpartyView::ManyPayees)
            }
        } else {
            Some(CounterpartyView::Account(payer@.display))
        },
        TxnKind::RewardsV1 { .. } => Some(CounterpartyView::Rewards),
        TxnKind::RewardsV2 { .. } => Some(CounterpartyView::Rewards),
        _ => None,
    }
}

/// The fee recorded on every effect of a transaction.
pub open spec fn fee_of(kind: TxnKind) -> int {
    match kind {
        TxnKind::PaymentV1 { fee, .. } => fee as int,
        TxnKind::PaymentV2 { fee, .. } => fee as int,
        TxnKind::TokenBurnV1 { fee, .. } => fee as int,
        _ => 0,
    }
}

/// Whether resolving the effect on `account` converts native tokens into fee
/// tokens, which takes an oracle price: `account` is the payee of a burn.
pub open spec fn needs_price_spec(kind: TxnKind, account: Seq<u8>) -> bool {
    match kind {
        TxnKind::TokenBurnV1 { payee, .. } => payee@.raw == account,
        _ => false,
    }
}

/// The burned amount of a burn, zero for other variants.
pub open spec fn burned_amount(kind: TxnKind) -> int {
    match kind {
        TxnKind::TokenBurnV1 { amount, .. } => amount as int,
        _ => 0,
    }
}

/// The effect of a transaction on `account`, given the oracle price at the
/// transaction's height where one was found.
pub open spec fn effect_spec(kind: TxnKind, account: Seq<u8>, price: Option<u64>) -> Result<EffectView, ResolveError> {
    if needs_price_spec(kind, account) && price is None {
        Err(ResolveError::OraclePriceUnavailable)
    } else {
        Ok(EffectView {
            counterparty: counterparty_of(kind, account),
            native_delta: native_delta_of(kind, account),
            fee_token_delta: if needs_price_spec(kind, account) {
                burned_amount(kind) * (price->Some_0 as int)
            } else {
                0
            },
            fee: fee_of(kind),
        })
    }
}

proof fn lemma_sum_step(i: int, total: int, a: int)
    requires
        0 <= total <= i * (u64::MAX as int),
        0 <= a <= u64::MAX,
        0 <= i,
        i + 1 <= isize::MAX,
    ensures
        total + a <= (i + 1) * (u64::MAX as int),
        (i + 1) * (u64::MAX as int) <= (isize::MAX as int) * (u64::MAX as int),
{
    assert((i + 1) * (u64::MAX as int) <= (isize::MAX as int) * (u64::MAX as int)) by (nonlinear_arith)
        requires
            i + 1 <= isize::MAX,
    ;
    assert(total + a <= (i + 1) * (u64::MAX as int)) by (nonlinear_arith)
        requires
            total <= i * (u64::MAX as int),
            a <= u64::MAX,
    ;
}

/// Sum of a list of amounts.
pub fn sum_rewards(rewards: &Vec<u64>) -> (r: i128)
    requires
        fits_in_memory(rewards@.len() as int),
    ensures
        r as int == sum_amounts(rewards@),
{
    let mut total: i128 = 0;
    let mut i: usize = 0;
    while i < rewards.len()
        invariant
            i <= rewards@.len(),
            fits_in_memory(rewards@.len() as int),
            total as int == sum_amounts(rewards@.subrange(0, i as int)),
            0 <= total <= (i as int) * (u64::MAX as int),
        decreases rewards@.len() - i,
    {
        proof {
            lemma_sum_step(i as int, total as int, rewards@[i as int] as int);
            assert(rewards@.subrange(0, i + 1).drop_last() =~= rewards@.subrange(0, i as int));
        }
        total = total + rewards[i] as i128;
        i = i + 1;
    }
    assert(rewards@.subrange(0, i as int) =~= rewards@);
    total
}

/// Sum of all amounts of a payment list.
pub fn sum_payments(payments: &Vec<Payment>) -> (r: i128)
    requires
        fits_in_memory(payments@.len() as int),
    ensures
        r as int == total_paid(payments@),
        r >= 0,
{
    let mut total: i128 = 0;
    let mut i: usize = 0;
    while i < payments.len()
        invariant
            i <= payments@.len(),
            fits_in_memory(payments@.len() as int),
            total as int == total_paid(payments@.subrange(0, i as int)),
            0 <= total <= (i as int) * (u64::MAX as int),
        decreases payments@.len() - i,
    {
        proof {
            lemma_sum_step(i as int, total as int, payments@[i as int].amount as int);
            assert(payments@.subrange(0, i + 1).drop_last() =~= payments@.subrange(0, i as int));
        }
        total = total + payments[i].amount as i128;
        i = i + 1;
    }
    assert(payments@.subrange(0, i as int) =~= payments@);
    total
}

/// Sum of the amounts of a payment list that go to `account`.
pub fn sum_paid_to(payments: &Vec<Payment>, account: &AccountIdentity) -> (r: i128)
    requires
        fits_in_memory(payments@.len() as int),
    ensures
        r as int == paid_to(payments@, account@.raw),
{
    let mut total: i128 = 0;
    let mut i: usize = 0;
    while i < payments.len()
        invariant
            i <= payments@.len(),
            fits_in_memory(payments@.len() as int),
            total as int == paid_to(payments@.subrange(0, i as int), account@.raw),
            0 <= total <= (i as int) * (u64::MAX as int),
        decreases payments@.len() - i,
    {
        proof {
            lemma_sum_step(i as int, total as int, payments@[i as int].amount as int);
            assert(payments@.subrange(0, i + 1).drop_last() =~= payments@.subrange(0, i as int));
        }
        if account.same_account(&payments[i].payee) {
            total = total + payments[i].amount as i128;
        }
        i = i + 1;
    }
    assert(payments@.subrange(0, i as int) =~= payments@);
    total
}

fn account_counterparty(id: &AccountIdentity) -> (r: Counterparty)
    ensures
        r@ == CounterpartyView::Account(id@.display),
{
    Counterparty::Account(id.to_display())
}

/// Transfer policy: the payer pays `amount` to the payee.
fn transfer_effect(payer: &AccountIdentity, payee: &AccountIdentity, amount: u64, fee: u64, account: &AccountIdentity) -> (e: EconomicEffect)
    ensures
        e@.native_delta == transfer_delta(payer@, payee@, amount, account@.raw),
        e@.counterparty == transfer_counterparty(payer@, payee@, account@.raw),
        e@.fee == fee,
        e@.fee_token_delta == 0,
{
    if account.same_account(payer) {
        EconomicEffect {
            counterparty: Some(account_counterparty(payee)),
            native_delta: -(amount as i128),
            fee_token_delta: 0,
            fee,
        }
    } else if account.same_account(payee) {
        EconomicEffect {
            counterparty: Some(account_counterparty(payer)),
            native_delta: amount as i128,
            fee_token_delta: 0,
            fee,
        }
    } else {
        EconomicEffect { counterparty: None, native_delta: 0, fee_token_delta: 0, fee }
    }
}

/// Multi-recipient transfer policy.
fn multi_payment_effect(payer: &AccountIdentity, payments: &Vec<Payment>, fee: u64, account: &AccountIdentity) -> (e: EconomicEffect)
    requires
        fits_in_memory(payments@.len() as int),
    ensures
        e@.native_delta == (if payer@.raw == account@.raw {
            -total_paid(payments@)
        } else {
            paid_to(payments@, account@.raw)
        }),
        e@.counterparty == (if payer@.raw == account@.raw {
            if payments@.len() == 1 {
                Some(CounterpartyView::Account(payments@[0].payee@.display))
            } else {
                Some(CounterpartyView::ManyPayees)
            }
        } else {
            Some(CounterpartyView::Account(payer@.display))
        }),
        e@.fee == fee,
        e@.fee_token_delta == 0,
{
    if account.same_account(payer) {
        let counterparty = if payments.len() == 1 {
            account_counterparty(&payments[0].payee)
        } else {
            Counterparty::ManyPayees
        };
        let total = sum_payments(payments);
        EconomicEffect { counterparty: Some(counterparty), native_delta: -total, fee_token_delta: 0, fee }
    } else {
        EconomicEffect {
            counterparty: Some(account_counterparty(payer)),
            native_delta: sum_paid_to(payments, account),
            fee_token_delta: 0,
            fee,
        }
    }
}

/// Reward policy: every listed reward is credited; the emission is the counterparty.
fn rewards_effect(rewards: &Vec<u64>) -> (e: EconomicEffect)
    requires
        fits_in_memory(rewards@.len() as int),
    ensures
        e@.native_delta == sum_amounts(rewards@),
        e@.counterparty == Some(CounterpartyView::Rewards),
        e@.fee == 0,
        e@.fee_token_delta == 0,
{
    EconomicEffect {
        counterparty: Some(Counterparty::Rewards),
        native_delta: sum_rewards(rewards),
        fee_token_delta: 0,
        fee: 0,
    }
}

/// Transfer policy with fee-token conversion: the payee of a burn receives
/// fee tokens worth the burned amount at the oracle price.
fn token_burn_effect(
    payer: &AccountIdentity,
    payee: &AccountIdentity,
    amount: u64,
    fee: u64,
    account: &AccountIdentity,
    price: Option<u64>,
) -> (r: Result<EconomicEffect, ResolveError>)
    ensures
        match r {
            Ok(e) => {
                &&& !(payee@.raw == account@.raw && price is None)
                &&& e@.native_delta == transfer_delta(payer@, payee@, amount, account@.raw)
                &&& e@.counterparty == transfer_counterparty(payer@, payee@, account@.raw)
                &&& e@.fee == fee
                &&& e@.fee_token_delta == (if payee@.raw == account@.raw {
                    amount * (price->Some_0 as int)
                } else {
                    0
                })
            },
            Err(err) => payee@.raw == account@.raw && price is None
                && err == ResolveError::OraclePriceUnavailable,
        },
{
    let mut e = transfer_effect(payer, payee, amount, fee, account);
    if account.same_account(payee) {
        match price {
            Some(p) => {
                assert((amount as int) * (p as int) <= u128::MAX) by (nonlinear_arith)
                    requires
                        amount <= u64::MAX,
                        p <= u64::MAX,
                ;
                e.fee_token_delta = (amount as u128) * (p as u128);
            },
            None => {
                return Err(ResolveError::OraclePriceUnavailable);
            },
        }
    }
    Ok(e)
}

/// Null policy: no economic effect.
fn null_effect() -> (e: EconomicEffect)
    ensures
        e@.native_delta == 0,
        e@.counterparty is None,
        e@.fee == 0,
        e@.fee_token_delta == 0,
{
    EconomicEffect { counterparty: None, native_delta: 0, fee_token_delta: 0, fee: 0 }
}

/// Whether resolving the effect of `kind` on `account` needs an oracle price.
pub fn needs_price(kind: &TxnKind, account: &AccountIdentity) -> (r: bool)
    ensures
        r == needs_price_spec(*kind, account@.raw),
{
    match kind {
        TxnKind::TokenBurnV1 { payee, .. } => account.same_account(payee),
        _ => false,
    }
}

/// The economic effect of a transaction on `account`. `price` is the oracle
/// price (in 10^-8 fiat units) at the transaction's height, where one was
/// found; only the payee of a burn needs it.
pub fn resolve_effect(txn: &TransactionRecord, account: &AccountIdentity, price: Option<u64>) -> (r: Result<EconomicEffect, ResolveError>)
    requires
        kind_fits(txn.kind),
    ensures
        match r {
            Ok(e) => effect_spec(txn.kind, account@.raw, price) == Ok::<EffectView, ResolveError>(e@),
            Err(err) => effect_spec(txn.kind, account@.raw, price) == Err::<EffectView, ResolveError>(err),
        },
{
    match &txn.kind {
        TxnKind::PaymentV1 { payer, payee, amount, fee } => Ok(transfer_effect(payer, payee, *amount, *fee, account)),
        TxnKind::PaymentV2 { payer, payments, fee } => Ok(multi_payment_effect(payer, payments, *fee, account)),
        TxnKind::RewardsV1 { rewards } => Ok(rewards_effect(rewards)),
        TxnKind::RewardsV2 { rewards } => Ok(rewards_effect(rewards)),
        TxnKind::TokenBurnV1 { payer, payee, amount, fee } => token_burn_effect(payer, payee, *amount, *fee, account, price),
        TxnKind::AddGatewayV1 => Ok(null_effect()),
        TxnKind::AssertLocationV1 => Ok(null_effect()),
        TxnKind::AssertLocationV2 => Ok(null_effect()),
        TxnKind::BundleV1 => Ok(null_effect()),
        TxnKind::CoinbaseV1 => Ok(null_effect()),
        TxnKind::ConsensusGroupFailureV1 => Ok(null_effect()),
        TxnKind::ConsensusGroupV1 => Ok(null_effect()),
        TxnKind::CreateHtlcV1 => Ok(null_effect()),
        TxnKind::DcCoinbaseV1 => Ok(null_effect()),
        TxnKind::GenGatewayV1 => Ok(null_effect()),
        TxnKind::GenPriceOracleV1 => Ok(null_effect()),
        TxnKind::OuiV1 => Ok(null_effect()),
        TxnKind::PocReceiptsV1 => Ok(null_effect()),
        TxnKind::PocReceiptsV2 => Ok(null_effect()),
        TxnKind::PocRequestV1 => Ok(null_effect()),
        TxnKind::PriceOracleV1 => Ok(null_effect()),
        TxnKind::RedeemHtlcV1 => Ok(null_effect()),
        TxnKind::RoutingV1 => Ok(null_effect()),
        TxnKind::SecurityCoinbaseV1 => Ok(null_effect()),
        TxnKind::SecurityExchangeV1 => Ok(null_effect()),
        TxnKind::StakeValidatorV1 => Ok(null_effect()),
        TxnKind::StateChannelCloseV1 => Ok(null_effect()),
        TxnKind::StateChannelOpenV1 => Ok(null_effect()),
        TxnKind::TokenBurnExchangeRateV1 => Ok(null_effect()),
        TxnKind::TransferHotspotV1 => Ok(null_effect()),
        TxnKind::TransferValidatorStakeV1 => Ok(null_effect()),
        TxnKind::UnstakeValidatorV1 => Ok(null_effect()),
        TxnKind::UpdateGatewayOuiV1 => Ok(null_effect()),
        TxnKind::ValidatorHeartbeatV1 => Ok(null_effect()),
        TxnKind::VarsV1 => Ok(null_effect()),
        TxnKind::Unknown => Ok(null_effect()),
    }
}

} // verus!
