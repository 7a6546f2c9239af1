use offchain_labs::billing::BillingLedger;

#[test]
fn test_billing_refund_flow() {
    // Deposit 1000 credits; the estimate says 500, the run actually costs
    // 300; after pre-charge and refund the balance is 700.
    let mut ledger = BillingLedger::new();
    ledger.deposit("user", 1000).unwrap();
    ledger.check_and_deduct("user", 500).unwrap();
    ledger.refund("user", 500, 300).unwrap();
    assert_eq!(ledger.balance_of("user"), 700);
}

#[test]
fn test_billing_conservation_net_change_is_actual_cost() {
    let mut ledger = BillingLedger::new();
    ledger.deposit("worker", 900).unwrap();
    let before = ledger.balance_of("worker");
    ledger.check_and_deduct("worker", 400).unwrap();
    ledger.refund("worker", 400, 250).unwrap();
    let after = ledger.balance_of("worker");
    assert_eq!(before - after, 250);
}

#[test]
fn test_insufficient_balance_charges_nothing() {
    let mut ledger = BillingLedger::new();
    ledger.deposit("user", 100).unwrap();
    let charge = ledger.check_and_deduct("user", 101);
    assert!(charge.is_err());
    assert_eq!(ledger.balance_of("user"), 100);
}

#[test]
fn test_unknown_user_reads_zero_and_cannot_be_charged() {
    let mut ledger = BillingLedger::new();
    assert_eq!(ledger.balance_of("nobody"), 0);
    assert!(ledger.check_and_deduct("nobody", 1).is_err());
}

#[test]
fn test_exact_charge_leaves_zero() {
    let mut ledger = BillingLedger::new();
    ledger.deposit("user", 55).unwrap();
    ledger.check_and_deduct("user", 55).unwrap();
    assert_eq!(ledger.balance_of("user"), 0);
}

#[test]
fn test_refund_with_actual_at_or_above_charge_credits_nothing() {
    let mut ledger = BillingLedger::new();
    ledger.deposit("user", 10).unwrap();
    ledger.refund("user", 5, 5).unwrap();
    ledger.refund("user", 5, 9).unwrap();
    assert_eq!(ledger.balance_of("user"), 10);
}

#[test]
fn test_deposit_overflow_is_rejected() {
    let mut ledger = BillingLedger::new();
    ledger.deposit("user", u64::MAX).unwrap();
    let second = ledger.deposit("user", 1);
    assert!(second.is_err());
    assert_eq!(ledger.balance_of("user"), u64::MAX);
}
