//! Projection of a transaction and its effect to a generic ledger row.
use vstd::prelude::*;
use crate::effect::{
    effect_spec, resolve_effect, kind_fits, Counterparty, CounterpartyView, EffectView, ResolveError,
    TransactionRecord, TxnKind,
};
use crate::identity::AccountIdentity;

verus! {

/// The RFC 3339 form of a UTC time given in seconds since the Unix epoch, or
/// `None` where the time is out of the representable range.
pub uninterp spec fn rfc3339_utc(secs: int) -> Option<Seq<char>>;

/// Relies on chrono's `DateTime::<Utc>::from_timestamp(secs, 0)`, `None` out
/// of range, and `DateTime::to_rfc3339`; in UTC the text depends on the time
/// alone.
#[verifier::external_body]
fn utc_rfc3339(secs: i64) -> (r: Option<String>)
    ensures
        match r {
            Some(t) => rfc3339_utc(secs as int) == Some(t@),
            None => rfc3339_utc(secs as int) is None,
        },
{
    match chrono::DateTime::from_timestamp(secs, 0) {
        Some(t) => Some(t.to_rfc3339()),
        None => None,
    }
}

/// The RFC 3339 form of a block time in seconds since the Unix epoch.
pub fn utc_timestamp_from_epoch(time: u64) -> (r: Option<String>)
    ensures
        time <= i64::MAX ==> match r {
            Some(t) => rfc3339_utc(time as int) == Some(t@),
            None => rfc3339_utc(time as int) is None,
        },
        time > i64::MAX ==> r is None,
{
    if time > i64::MAX as u64 {
        None
    } else {
        utc_rfc3339(time as i64)
    }
}

/// The name of a transaction's variant.
pub open spec fn kind_label_spec(kind: TxnKind) -> Seq<char> {
    match kind {
        TxnKind::PaymentV1 { .. } => "PaymentV1"@,
        TxnKind::PaymentV2 { .. } => "PaymentV2"@,
        TxnKind::RewardsV1 { .. } => "RewardsV1"@,
        TxnKind::RewardsV2 { .. } => "RewardsV2"@,
        TxnKind::TokenBurnV1 { .. } => "TokenBurnV1"@,
        TxnKind::AddGatewayV1 => "AddGatewayV1"@,
        TxnKind::AssertLocationV1 => "AssertLocationV1"@,
        TxnKind::AssertLocationV2 => "AssertLocationV2"@,
        TxnKind::BundleV1 => "BundleV1"@,
        TxnKind::CoinbaseV1 => "CoinbaseV1"@,
        TxnKind::ConsensusGroupFailureV1 => "ConsensusGroupFailureV1"@,
        TxnKind::ConsensusGroupV1 => "ConsensusGroupV1"@,
        TxnKind::CreateHtlcV1 => "CreateHtlcV1"@,
        TxnKind::DcCoinbaseV1 => "DcCoinbaseV1"@,
        TxnKind::GenGatewayV1 => "GenGatewayV1"@,
        TxnKind::GenPriceOracleV1 => "GenPriceOracleV1"@,
        TxnKind::OuiV1 => "OuiV1"@,
        TxnKind::PocReceiptsV1 => "PocReceiptsV1"@,
        TxnKind::PocReceiptsV2 => "PocReceiptsV2"@,
        TxnKind::PocRequestV1 => "PocRequestV1"@,
        TxnKind::PriceOracleV1 => "PriceOracleV1"@,
        TxnKind::RedeemHtlcV1 => "RedeemHtlcV1"@,
        TxnKind::RoutingV1 => "RoutingV1"@,
        TxnKind::SecurityCoinbaseV1 => "SecurityCoinbaseV1"@,
        TxnKind::SecurityExchangeV1 => "SecurityExchangeV1"@,
        TxnKind::StakeValidatorV1 => "StakeValidatorV1"@,
        TxnKind::StateChannelCloseV1 => "StateChannelCloseV1"@,
        TxnKind::StateChannelOpenV1 => "StateChannelOpenV1"@,
        TxnKind::TokenBurnExchangeRateV1 => "TokenBurnExchangeRateV1"@,
        TxnKind::TransferHotspotV1 => "TransferHotspotV1"@,
        TxnKind::TransferValidatorStakeV1 => "TransferValidatorStakeV1"@,
        TxnKind::UnstakeValidatorV1 => "UnstakeValidatorV1"@,
        TxnKind::UpdateGatewayOuiV1 => "UpdateGatewayOuiV1"@,
        TxnKind::ValidatorHeartbeatV1 => "ValidatorHeartbeatV1"@,
        TxnKind::VarsV1 => "VarsV1"@,
        TxnKind::Unknown => "Unknown"@,
    }
}

/// The name of a transaction's variant.
pub fn kind_label(kind: &TxnKind) -> (r: &'static str)
    ensures
        r@ == kind_label_spec(*kind),
{
    match kind {
        TxnKind::PaymentV1 { .. } => "PaymentV1",
        TxnKind::PaymentV2 { .. } => "PaymentV2",
        TxnKind::RewardsV1 { .. } => "RewardsV1",
        TxnKind::RewardsV2 { .. } => "RewardsV2",
        TxnKind::TokenBurnV1 { .. } => "TokenBurnV1",
        TxnKind::AddGatewayV1 => "AddGatewayV1",
        TxnKind::AssertLocationV1 => "AssertLocationV1",
        TxnKind::AssertLocationV2 => "AssertLocationV2",
        TxnKind::BundleV1 => "BundleV1",
        TxnKind::CoinbaseV1 => "CoinbaseV1",
        TxnKind::ConsensusGroupFailureV1 => "ConsensusGroupFailureV1",
        TxnKind::ConsensusGroupV1 => "ConsensusGroupV1",
        TxnKind::CreateHtlcV1 => "CreateHtlcV1",
        TxnKind::DcCoinbaseV1 => "DcCoinbaseV1",
        TxnKind::GenGatewayV1 => "GenGatewayV1",
        TxnKind::GenPriceOracleV1 => "GenPriceOracleV1",
        TxnKind::OuiV1 => "OuiV1",
        TxnKind::PocReceiptsV1 => "PocReceiptsV1",
        TxnKind::PocReceiptsV2 => "PocReceiptsV2",
        TxnKind::PocRequestV1 => "PocRequestV1",
        TxnKind::PriceOracleV1 => "PriceOracleV1",
        TxnKind::RedeemHtlcV1 => "RedeemHtlcV1",
        TxnKind::RoutingV1 => "RoutingV1",
        TxnKind::SecurityCoinbaseV1 => "SecurityCoinbaseV1",
        TxnKind::SecurityExchangeV1 => "SecurityExchangeV1",
        TxnKind::StakeValidatorV1 => "StakeValidatorV1",
        TxnKind::StateChannelCloseV1 => "StateChannelCloseV1",
        TxnKind::StateChannelOpenV1 => "StateChannelOpenV1",
        TxnKind::TokenBurnExchangeRateV1 => "TokenBurnExchangeRateV1",
        TxnKind::TransferHotspotV1 => "TransferHotspotV1",
        TxnKind::TransferValidatorStakeV1 => "TransferValidatorStakeV1",
        TxnKind::UnstakeValidatorV1 => "UnstakeValidatorV1",
        TxnKind::UpdateGatewayOuiV1 => "UpdateGatewayOuiV1",
        TxnKind::ValidatorHeartbeatV1 => "ValidatorHeartbeatV1",
        TxnKind::VarsV1 => "VarsV1",
        TxnKind::Unknown => "Unknown",
    }
}

/// How a counterparty is written in a row: `NA` for none, the account's
/// display string, `many_payees` or `Rewards`.
pub open spec fn counterparty_text_spec(c: Option<CounterpartyView>) -> Seq<char> {
    match c {
        None => "NA"@,
        Some(CounterpartyView::Account(s)) => s,
        Some(CounterpartyView::ManyPayees) => "many_payees"@,
        Some(CounterpartyView::Rewards) => "Rewards"@,
    }
}

/// How a counterparty is written in a row.
pub fn counterparty_text(c: &Option<Counterparty>) -> (r: String)
    ensures
        r@ == counterparty_text_spec(match c {
            Some(x) => Some(x@),
            None => None,
        }),
{
    match c {
        None => "NA".to_owned(),
        Some(Counterparty::Account(s)) => s.clone(),
        Some(Counterparty::ManyPayees) => "many_payees".to_owned(),
        Some(Counterparty::Rewards) => "Rewards".to_owned(),
    }
}

/// A row of the all-transactions report.
pub struct LedgerRow {
    pub label: String,
    /// RFC 3339 block time; `None` where the time is out of range.
    pub timestamp: Option<String>,
    pub height: u64,
    pub hash: String,
    pub counterparty: String,
    pub native_delta: i128,
    pub fee_token_delta: u128,
    pub fee: u64,
}

/// Whether `row` shows `txn` with the effect `e`.
pub open spec fn row_matches(row: LedgerRow, txn: TransactionRecord, e: EffectView) -> bool {
    &&& row.label@ == kind_label_spec(txn.kind)
    &&& (txn.time <= i64::MAX ==> match row.timestamp {
        Some(t) => rfc3339_utc(txn.time as int) == Some(t@),
        None => rfc3339_utc(txn.time as int) is None,
    })
    &&& (txn.time > i64::MAX ==> row.timestamp is None)
    &&& row.height == txn.height
    &&& row.hash@ == txn.hash@
    &&& row.counterparty@ == counterparty_text_spec(e.counterparty)
    &&& row.native_delta as int == e.native_delta
    &&& row.fee_token_delta as int == e.fee_token_delta
    &&& row.fee as int == e.fee
}

impl TransactionRecord {
    /// The ledger row of this transaction as seen by `account`; `price` is as
    /// for `resolve_effect`.
    pub fn to_row(&self, account: &AccountIdentity, price: Option<u64>) -> (r: Result<LedgerRow, ResolveError>)
        requires
            kind_fits(self.kind),
        ensures
            match r {
                Ok(row) => {
                    &&& effect_spec(self.kind, account@.raw, price) is Ok
                    &&& row_matches(row, *self, effect_spec(self.kind, account@.raw, price)->Ok_0)
                },
                Err(err) => effect_spec(self.kind, account@.raw, price) == Err::<EffectView, ResolveError>(err),
            },
    {
        let effect = match resolve_effect(self, account, price) {
            Ok(e) => e,
            Err(err) => {
                return Err(err);
            },
        };
        let row = LedgerRow {
            label: kind_label(&self.kind).to_owned(),
            timestamp: utc_timestamp_from_epoch(self.time),
            height: self.height,
            hash: self.hash.clone(),
            counterparty: counterparty_text(&effect.counterparty),
            native_delta: effect.native_delta,
            fee_token_delta: effect.fee_token_delta,
            fee: effect.fee,
        };
        assert(row_matches(row, *self, effect@));
        Ok(row)
    }
}

} // verus!
