use energy_core::credit::burn_credits;
use energy_core::credit::initialize;
use energy_core::credit::mint_credits;
use energy_core::credit::transfer_credits;
use energy_core::credit::ErrorCode;

fn fresh_ledger() -> energy_core::credit::TokenInfo {
    initialize(1, 2, 6, "EnergyCredit".to_string(), "NRG".to_string())
}

#[test]
fn initialize_starts_at_genesis() {
    let t = fresh_ledger();
    assert_eq!(t.authority, 1);
    assert_eq!(t.mint, 2);
    assert_eq!(t.decimals, 6);
    assert_eq!(t.name, "EnergyCredit");
    assert_eq!(t.symbol, "NRG");
    assert_eq!(t.total_supply, 0);
}

#[test]
fn mint_grows_supply_and_reports_event() {
    let mut t = fresh_ledger();
    let ev = mint_credits(&mut t, 7, 100, 50, "meter-1".to_string(), 1000).unwrap();
    assert_eq!(t.total_supply, 100);
    assert_eq!(ev.user, 7);
    assert_eq!(ev.meter_id, "meter-1");
    assert_eq!(ev.energy_produced, 50);
    assert_eq!(ev.credits_minted, 100);
    assert_eq!(ev.timestamp, 1000);
}

#[test]
fn mint_zero_amount_fails_and_mutates_nothing() {
    let mut t = fresh_ledger();
    mint_credits(&mut t, 7, 5, 5, "meter-1".to_string(), 0).unwrap();
    let r = mint_credits(&mut t, 7, 0, 50, "meter-1".to_string(), 1000);
    assert_eq!(r.unwrap_err(), ErrorCode::InvalidAmount);
    assert_eq!(t.total_supply, 5);
}

#[test]
fn mint_empty_meter_id_fails() {
    let mut t = fresh_ledger();
    let r = mint_credits(&mut t, 7, 100, 50, String::new(), 1000);
    assert_eq!(r.unwrap_err(), ErrorCode::InvalidMeterId);
    assert_eq!(t.total_supply, 0);
}

#[test]
fn mint_past_counter_range_fails_with_overflow() {
    let mut t = fresh_ledger();
    mint_credits(&mut t, 7, u64::MAX, 50, "meter-1".to_string(), 0).unwrap();
    let r = mint_credits(&mut t, 7, 1, 1, "meter-1".to_string(), 1000);
    assert_eq!(r.unwrap_err(), ErrorCode::Overflow);
    assert_eq!(t.total_supply, u64::MAX);
}

#[test]
fn burn_shrinks_supply_and_reports_event() {
    let mut t = fresh_ledger();
    mint_credits(&mut t, 7, 100, 50, "meter-1".to_string(), 0).unwrap();
    let ev = burn_credits(&mut t, 7, 40, 20, "meter-1".to_string(), 2000).unwrap();
    assert_eq!(t.total_supply, 60);
    assert_eq!(ev.user, 7);
    assert_eq!(ev.meter_id, "meter-1");
    assert_eq!(ev.energy_consumed, 20);
    assert_eq!(ev.credits_burned, 40);
    assert_eq!(ev.timestamp, 2000);
}

#[test]
fn burn_zero_amount_fails_and_mutates_nothing() {
    let mut t = fresh_ledger();
    mint_credits(&mut t, 7, 100, 50, "meter-1".to_string(), 0).unwrap();
    let r = burn_credits(&mut t, 7, 0, 20, "meter-1".to_string(), 2000);
    assert_eq!(r.unwrap_err(), ErrorCode::InvalidAmount);
    assert_eq!(t.total_supply, 100);
}

#[test]
fn burn_empty_meter_id_fails() {
    let mut t = fresh_ledger();
    mint_credits(&mut t, 7, 100, 50, "meter-1".to_string(), 0).unwrap();
    let r = burn_credits(&mut t, 7, 10, 20, String::new(), 2000);
    assert_eq!(r.unwrap_err(), ErrorCode::InvalidMeterId);
    assert_eq!(t.total_supply, 100);
}

#[test]
fn burn_beyond_supply_fails_with_insufficient_supply() {
    let mut t = fresh_ledger();
    mint_credits(&mut t, 7, 100, 50, "meter-1".to_string(), 0).unwrap();
    let r = burn_credits(&mut t, 7, 101, 50, "meter-1".to_string(), 2000);
    assert_eq!(r.unwrap_err(), ErrorCode::InsufficientSupply);
    assert_eq!(t.total_supply, 100);
}

#[test]
fn supply_is_net_of_mints_and_burns() {
    let mut t = fresh_ledger();
    mint_credits(&mut t, 7, 100, 50, "m".to_string(), 0).unwrap();
    mint_credits(&mut t, 8, 250, 125, "m".to_string(), 400).unwrap();
    burn_credits(&mut t, 7, 30, 15, "m".to_string(), 800).unwrap();
    mint_credits(&mut t, 9, 5, 2, "m".to_string(), 1200).unwrap();
    burn_credits(&mut t, 8, 200, 100, "m".to_string(), 1600).unwrap();
    assert_eq!(t.total_supply, 100 + 250 - 30 + 5 - 200);
}

#[test]
fn transfer_validates_amount_and_reports_event() {
    let ev = transfer_credits(3, 4, 25, 500).unwrap();
    assert_eq!(ev.from, 3);
    assert_eq!(ev.to, 4);
    assert_eq!(ev.amount, 25);
    assert_eq!(ev.timestamp, 500);
    let r = transfer_credits(3, 4, 0, 500);
    assert_eq!(r.unwrap_err(), ErrorCode::InvalidAmount);
}
