use helium_ledger_report::earnings::{
    aggregate_account, grand_totals, ownership_percent, weigh_reward, AccountConfig, AggregateError,
    PercentRounding, RewardRecord, Totals,
};

const TOKEN: u64 = 100_000_000;

fn reward(block: u64, amount: u64) -> RewardRecord {
    RewardRecord { timestamp: format!("t{}", block), hash: format!("h{}", block), block, amount }
}

fn config(label: &str, ownership: u8) -> AccountConfig {
    AccountConfig { label: label.to_string(), pubkey: format!("key-{}", label), ownership }
}

#[test]
fn ownership_percent_rounding_modes() {
    assert_eq!(ownership_percent(456_700, PercentRounding::Nearest), 46);
    assert_eq!(ownership_percent(456_700, PercentRounding::Truncate), 45);
    assert_eq!(ownership_percent(500_000, PercentRounding::Truncate), 50);
    assert_eq!(ownership_percent(125_000, PercentRounding::Nearest), 13);
    assert_eq!(ownership_percent(1_000_000, PercentRounding::Nearest), 100);
    assert_eq!(ownership_percent(0, PercentRounding::Nearest), 0);
}

#[test]
fn weigh_reward_exact_values() {
    // 100 tokens at 50% and a price of 2.0
    let (native, fiat) = weigh_reward(100 * TOKEN, 2 * TOKEN, 50).unwrap();
    assert_eq!(native, 50 * 10_000_000_000u128);
    assert_eq!(fiat, 100 * 1_000_000_000_000_000_000u128);
}

#[test]
fn weigh_reward_overflow() {
    assert_eq!(weigh_reward(u64::MAX, u64::MAX, 100), Err(AggregateError::Overflow));
    assert!(weigh_reward(u64::MAX, u64::MAX, 1).is_ok());
}

#[test]
fn fiat_value_increases_with_price() {
    let (_, low) = weigh_reward(7, 100, 30).unwrap();
    let (_, high) = weigh_reward(7, 101, 30).unwrap();
    assert!(low < high);
    let (_, zero_a) = weigh_reward(7, 100, 0).unwrap();
    let (_, zero_b) = weigh_reward(7, 101, 0).unwrap();
    assert_eq!(zero_a, zero_b);
}

#[test]
fn single_account_half_ownership_scenario() {
    let account = config("pool", ownership_percent(500_000, PercentRounding::Nearest));
    let rewards = vec![reward(10, 100 * TOKEN), reward(11, 50 * TOKEN)];
    let prices = vec![Some(2 * TOKEN), Some(3 * TOKEN)];
    let report = aggregate_account(&account, &rewards, &prices).unwrap();
    assert_eq!(report.entries.len(), 2);
    // native values in 10^-10 tokens, fiat values in 10^-18
    assert_eq!(report.totals.native, 75 * 10_000_000_000u128);
    assert_eq!(report.totals.fiat, 175 * 1_000_000_000_000_000_000u128);
    assert_eq!(report.entries[0].native_value, 50 * 10_000_000_000u128);
    assert_eq!(report.entries[1].fiat_value, 75 * 1_000_000_000_000_000_000u128);
    assert_eq!(report.entries[1].block, 11);
    assert_eq!(report.entries[1].hash, "h11");
    assert_eq!(report.entries[0].pubkey, "key-pool");
    assert_eq!(report.entries[0].ownership, 50);
    assert_eq!(report.label, "pool");
}

#[test]
fn aggregate_keeps_duplicates_and_order() {
    let account = config("a", 100);
    let rewards = vec![reward(5, 10), reward(3, 20), reward(5, 10)];
    let report = aggregate_account(&account, &rewards, &vec![Some(1), Some(1), Some(1)]).unwrap();
    let blocks: Vec<u64> = report.entries.iter().map(|e| e.block).collect();
    assert_eq!(blocks, vec![5, 3, 5]);
    assert_eq!(report.totals.native, 4000);
}

#[test]
fn aggregate_empty_account() {
    let report = aggregate_account(&config("e", 40), &vec![], &vec![]).unwrap();
    assert!(report.entries.is_empty());
    assert!(report.skipped.is_empty());
    assert_eq!(report.totals, Totals { native: 0, fiat: 0 });
}

#[test]
fn aggregate_skips_rewards_without_price() {
    let account = config("s", 100);
    let rewards = vec![reward(1, 10), reward(2, 20), reward(3, 30), reward(4, 40)];
    let prices = vec![Some(2), None, Some(3), None];
    let report = aggregate_account(&account, &rewards, &prices).unwrap();
    let blocks: Vec<u64> = report.entries.iter().map(|e| e.block).collect();
    assert_eq!(blocks, vec![1, 3]);
    assert_eq!(report.skipped, vec!["h2".to_string(), "h4".to_string()]);
    assert_eq!(report.totals, Totals { native: 4000, fiat: 1000 * 2 + 3000 * 3 });
    assert_eq!(report.entries[1].oracle_price, 3);
}

#[test]
fn aggregate_total_overflow() {
    let account = config("big", 100);
    let rewards = vec![reward(1, u64::MAX), reward(2, u64::MAX)];
    let prices = vec![Some(u64::MAX / 100), Some(u64::MAX / 100)];
    assert!(matches!(aggregate_account(&account, &rewards, &prices), Err(AggregateError::Overflow)));
}

#[test]
fn grand_totals_sum_accounts_in_any_grouping() {
    let a = aggregate_account(&config("a", 50), &vec![reward(1, 100)], &vec![Some(3)]).unwrap();
    let b = aggregate_account(&config("b", 100), &vec![reward(2, 10), reward(3, 1)], &vec![Some(2), Some(5)]).unwrap();
    let c = aggregate_account(&config("c", 25), &vec![reward(4, 8)], &vec![Some(7)]).unwrap();
    let expected = Totals {
        native: a.totals.native + b.totals.native + c.totals.native,
        fiat: a.totals.fiat + b.totals.fiat + c.totals.fiat,
    };
    assert_eq!(expected, Totals { native: 5000 + 1100 + 200, fiat: 15000 + 2500 + 1400 });
    let first = grand_totals(&vec![a]).unwrap();
    let rest = grand_totals(&vec![b, c]).unwrap();
    assert_eq!(first.native + rest.native, expected.native);
    assert_eq!(first.fiat + rest.fiat, expected.fiat);
}

#[test]
fn grand_totals_overflow() {
    let mut big = aggregate_account(&config("x", 1), &vec![], &vec![]).unwrap();
    big.totals = Totals { native: u128::MAX, fiat: 0 };
    let one = aggregate_account(&config("y", 100), &vec![reward(1, 1)], &vec![Some(1)]).unwrap();
    assert_eq!(grand_totals(&vec![big, one]), Err(AggregateError::Overflow));
}

#[test]
fn accumulate_failure_leaves_totals() {
    let mut t = Totals { native: u128::MAX - 1, fiat: 5 };
    assert_eq!(t.accumulate(2, 0), Err(AggregateError::Overflow));
    assert_eq!(t, Totals { native: u128::MAX - 1, fiat: 5 });
    assert_eq!(t.accumulate(1, 1), Ok(()));
    assert_eq!(t, Totals { native: u128::MAX, fiat: 6 });
}
