use helium_ledger_report::effect::{
    resolve_effect, needs_price, Counterparty, EconomicEffect, Payment, ResolveError, TransactionRecord, TxnKind,
};
use helium_ledger_report::identity::AccountIdentity;
use helium_ledger_report::ledger_row::{counterparty_text, kind_label, utc_timestamp_from_epoch};

fn id(n: u8) -> AccountIdentity {
    AccountIdentity::from_bytes(vec![0, 1, n, n, n])
}

fn record(kind: TxnKind) -> TransactionRecord {
    TransactionRecord { height: 1000, hash: "h".to_string(), time: 0, kind }
}

fn account_of(e: &EconomicEffect) -> String {
    match &e.counterparty {
        Some(Counterparty::Account(s)) => s.clone(),
        _ => panic!("no account counterparty"),
    }
}

fn payment_v1(amount: u64) -> TransactionRecord {
    record(TxnKind::PaymentV1 { payer: id(1), payee: id(2), amount, fee: 35000 })
}

#[test]
fn payment_v1_payer_pays_and_payee_receives() {
    let txn = payment_v1(500);
    let payer = resolve_effect(&txn, &id(1), None).unwrap();
    assert_eq!(payer.native_delta, -500);
    assert_eq!(account_of(&payer), id(2).to_display());
    assert_eq!(payer.fee, 35000);
    assert_eq!(payer.fee_token_delta, 0);
    let payee = resolve_effect(&txn, &id(2), None).unwrap();
    assert_eq!(payee.native_delta, 500);
    assert_eq!(account_of(&payee), id(1).to_display());
    assert_eq!(payee.fee, 35000);
    assert_eq!(payer.native_delta + payee.native_delta, 0);
}

#[test]
fn payment_v1_other_account_sees_nothing() {
    let e = resolve_effect(&payment_v1(500), &id(9), None).unwrap();
    assert_eq!(e.native_delta, 0);
    assert!(e.counterparty.is_none());
    assert_eq!(e.fee, 35000);
}

fn payment_v2(list: Vec<(u8, u64)>) -> TransactionRecord {
    let payments = list.into_iter().map(|(n, amount)| Payment { payee: id(n), amount }).collect();
    record(TxnKind::PaymentV2 { payer: id(1), payments, fee: 10 })
}

#[test]
fn payment_v2_payer_pays_the_sum() {
    let txn = payment_v2(vec![(2, 100), (3, 250), (2, 50)]);
    let e = resolve_effect(&txn, &id(1), None).unwrap();
    assert_eq!(e.native_delta, -400);
    assert!(matches!(e.counterparty, Some(Counterparty::ManyPayees)));
    assert_eq!(e.fee, 10);
}

#[test]
fn payment_v2_single_payee_is_named() {
    let txn = payment_v2(vec![(3, 70)]);
    let e = resolve_effect(&txn, &id(1), None).unwrap();
    assert_eq!(e.native_delta, -70);
    assert_eq!(account_of(&e), id(3).to_display());
}

#[test]
fn payment_v2_repeated_payee_accumulates() {
    let txn = payment_v2(vec![(2, 100), (3, 250), (2, 50)]);
    let e = resolve_effect(&txn, &id(2), None).unwrap();
    assert_eq!(e.native_delta, 150);
    assert_eq!(account_of(&e), id(1).to_display());
}

#[test]
fn payment_v2_deltas_sum_to_zero() {
    let txn = payment_v2(vec![(2, 100), (3, 250), (2, 50), (4, 7)]);
    let mut sum = resolve_effect(&txn, &id(1), None).unwrap().native_delta;
    for n in [2u8, 3, 4] {
        sum += resolve_effect(&txn, &id(n), None).unwrap().native_delta;
    }
    assert_eq!(sum, 0);
}

#[test]
fn payment_v2_empty_list() {
    let txn = payment_v2(vec![]);
    let e = resolve_effect(&txn, &id(1), None).unwrap();
    assert_eq!(e.native_delta, 0);
    assert!(matches!(e.counterparty, Some(Counterparty::ManyPayees)));
}

#[test]
fn rewards_sum_all_amounts_in_any_order() {
    let a = record(TxnKind::RewardsV1 { rewards: vec![5, 10, 20] });
    let b = record(TxnKind::RewardsV2 { rewards: vec![20, 5, 10] });
    let ea = resolve_effect(&a, &id(7), None).unwrap();
    let eb = resolve_effect(&b, &id(8), None).unwrap();
    assert_eq!(ea.native_delta, 35);
    assert_eq!(eb.native_delta, 35);
    assert!(matches!(ea.counterparty, Some(Counterparty::Rewards)));
    assert_eq!(ea.fee, 0);
}

#[test]
fn rewards_with_largest_amounts_do_not_overflow() {
    let txn = record(TxnKind::RewardsV1 { rewards: vec![u64::MAX, u64::MAX] });
    let e = resolve_effect(&txn, &id(1), None).unwrap();
    assert_eq!(e.native_delta, 2 * (u64::MAX as i128));
}

fn burn() -> TransactionRecord {
    record(TxnKind::TokenBurnV1 { payer: id(1), payee: id(2), amount: 300_000_000, fee: 0 })
}

#[test]
fn token_burn_payee_receives_fee_tokens_at_oracle_price() {
    let txn = burn();
    assert!(needs_price(&txn.kind, &id(2)));
    let e = resolve_effect(&txn, &id(2), Some(150_000_000)).unwrap();
    assert_eq!(e.fee_token_delta, 300_000_000u128 * 150_000_000u128);
    assert_eq!(e.native_delta, 300_000_000);
    assert_eq!(account_of(&e), id(1).to_display());
}

#[test]
fn token_burn_without_price_is_unavailable() {
    let txn = burn();
    let r = resolve_effect(&txn, &id(2), None);
    assert_eq!(r.err(), Some(ResolveError::OraclePriceUnavailable));
}

#[test]
fn token_burn_payer_needs_no_price() {
    let txn = burn();
    assert!(!needs_price(&txn.kind, &id(1)));
    let e = resolve_effect(&txn, &id(1), None).unwrap();
    assert_eq!(e.native_delta, -300_000_000);
    assert_eq!(e.fee_token_delta, 0);
}

#[test]
fn null_policy_transaction_has_no_effect() {
    for kind in [TxnKind::AddGatewayV1, TxnKind::StateChannelCloseV1, TxnKind::VarsV1, TxnKind::Unknown] {
        let e = resolve_effect(&record(kind), &id(1), None).unwrap();
        assert_eq!(e.native_delta, 0);
        assert_eq!(e.fee_token_delta, 0);
        assert_eq!(e.fee, 0);
        assert!(e.counterparty.is_none());
    }
}

#[test]
fn to_row_projects_effect_and_metadata() {
    let txn = TransactionRecord {
        height: 42,
        hash: "abc".to_string(),
        time: 1_600_000_000,
        kind: TxnKind::PaymentV1 { payer: id(1), payee: id(2), amount: 9, fee: 3 },
    };
    let row = txn.to_row(&id(1), None).unwrap();
    assert_eq!(row.label, "PaymentV1");
    assert_eq!(row.timestamp.as_deref(), Some("2020-09-13T12:26:40+00:00"));
    assert_eq!(row.height, 42);
    assert_eq!(row.hash, "abc");
    assert_eq!(row.counterparty, id(2).to_display());
    assert_eq!(row.native_delta, -9);
    assert_eq!(row.fee, 3);
    let other = txn.to_row(&id(5), None).unwrap();
    assert_eq!(other.counterparty, "NA");
}

#[test]
fn to_row_propagates_unavailable_price() {
    assert_eq!(burn().to_row(&id(2), None).err(), Some(ResolveError::OraclePriceUnavailable));
}

#[test]
fn labels_and_counterparty_texts() {
    assert_eq!(kind_label(&TxnKind::TokenBurnV1 { payer: id(1), payee: id(2), amount: 1, fee: 0 }), "TokenBurnV1");
    assert_eq!(kind_label(&TxnKind::PocReceiptsV2), "PocReceiptsV2");
    assert_eq!(counterparty_text(&Some(Counterparty::Rewards)), "Rewards");
    assert_eq!(counterparty_text(&Some(Counterparty::ManyPayees)), "many_payees");
    assert_eq!(counterparty_text(&None), "NA");
}

#[test]
fn epoch_timestamps() {
    assert_eq!(utc_timestamp_from_epoch(0).as_deref(), Some("1970-01-01T00:00:00+00:00"));
    assert_eq!(utc_timestamp_from_epoch(u64::MAX), None);
}
