use phoenix_bond::errors::BondError;
use phoenix_bond::state::Adjust;
use phoenix_bond::state::Bond;
use phoenix_bond::state::BondData;
use phoenix_bond::state::Terms;
use phoenix_bond::table::StrMap;
use phoenix_bond::PhoenixBond;
use phoenix_bond::constants::DECIMAL;

fn s(x: &str) -> String {
    x.to_string()
}

fn plain_bond_data(total_debt: u128, vesting_term: u64, last_decay: u64) -> BondData {
    BondData {
        token_pure: s("pure.token"),
        treasury: s("treasury"),
        bond_balance: 0,
        bond_holder: StrMap::new(),
        terms: Terms {
            control_variable: 0,
            vesting_term,
            minimum_price: 0,
            max_payout: u128::MAX,
            fee: 0,
        },
        adjust: Adjust { add: true, rate: 0, target: u128::MAX },
        total_debt,
        last_decay,
        bond_sold: 0,
        total_deposit: 0,
    }
}

/// A registry with one bond registered for "pay.token".
fn registry_with_bond(
    bond_balance: u128,
    control_variable: u128,
    vesting_term: u64,
    minimum_price: u128,
) -> PhoenixBond {
    let mut reg = PhoenixBond::new(s("owner"));
    let r = reg.add_new_bond(
        &s("owner"),
        s("pay.token"),
        s("pure.token"),
        s("treasury"),
        bond_balance,
        control_variable,
        vesting_term,
        minimum_price,
        0,
    );
    assert_eq!(r, Ok(()));
    reg
}

#[test]
fn debt_decays_linearly_and_is_clamped() {
    let b = plain_bond_data(1000, 432000, 0);
    // No time elapsed: nothing decayed, full debt outstanding.
    assert_eq!(b.debt_decay(0), 0);
    assert_eq!(b.current_debt(0), 1000);
    // Half the vesting term: half the debt decayed.
    assert_eq!(b.debt_decay(216000), 500);
    assert_eq!(b.current_debt(216000), 500);
    // At and beyond the vesting term: everything decayed, never more.
    assert_eq!(b.debt_decay(432000), 1000);
    assert_eq!(b.current_debt(432000), 0);
    assert_eq!(b.debt_decay(1_000_000), 1000);
    assert_eq!(b.current_debt(1_000_000), 0);
}

#[test]
fn current_debt_never_exceeds_total_debt() {
    let b = plain_bond_data(999, 432000, 100);
    for now in [100u64, 101, 1000, 216100, 432100, 500000] {
        assert!(b.current_debt(now) <= b.total_debt);
    }
    assert_eq!(b.current_debt(100), b.total_debt);
}

#[test]
fn bond_price_floors_at_minimum_and_grows_with_debt() {
    let mut b = plain_bond_data(0, 432000, 0);
    b.terms.control_variable = 1_000_000_000_000;
    b.terms.minimum_price = 150;
    // Zero debt: zero ratio prices at zero, floored to the minimum.
    assert_eq!(b.get_bond_price(1_000_000_000_000, 0), Ok(150));
    // Growing debt at fixed supply: the price never goes down.
    let mut last: u128 = 0;
    for debt in [0u128, 1, 10, 100, 1000, 10000] {
        b.total_debt = debt;
        let p = b.get_bond_price(1_000_000_000_000, 0).unwrap();
        assert!(p >= last);
        assert!(p >= b.terms.minimum_price);
        last = p;
    }
    // Zero supply is rejected explicitly.
    assert_eq!(b.get_bond_price(0, 0), Err(BondError::DivisionByZero));
}

#[test]
fn bond_price_exact_value_on_the_curve() {
    let mut b = plain_bond_data(100, 432000, 0);
    b.terms.control_variable = 249_999_999_990_000_000_000;
    b.terms.minimum_price = 2_000_000_000_000;
    // ratio = 100 * DECIMAL / supply = 100; price =
    // (cv * 100 + DECIMAL) * 100 / DECIMAL = 2_500_000_000_000.
    assert_eq!(b.get_bond_price(1_000_000_000_000, 0), Ok(2_500_000_000_000));
}

#[test]
fn set_terms_validates_each_bound_in_order() {
    let mut t = Terms { control_variable: 1, vesting_term: 500000, minimum_price: 2, max_payout: 2000, fee: 20000 };
    let before = t;
    assert_eq!(t.set_terms(9, 431999, 9, 2000, 20000), Err(BondError::VestingTooShort));
    assert_eq!(t, before);
    assert_eq!(t.set_terms(9, 432000, 9, 999, 20000), Err(BondError::MaxPayoutTooSmall));
    assert_eq!(t, before);
    assert_eq!(t.set_terms(9, 432000, 9, 1000, 9999), Err(BondError::FeeRejected));
    assert_eq!(t, before);
    assert_eq!(t.set_terms(9, 432000, 9, 1000, 10000), Ok(()));
    assert_eq!(
        t,
        Terms { control_variable: 9, vesting_term: 432000, minimum_price: 9, max_payout: 1000, fee: 10000 }
    );
}

#[test]
fn set_adjust_validates_the_rate() {
    let mut b = plain_bond_data(0, 500000, 0);
    // Minimum rate is vesting_term * 30 / 1000 = 15000.
    assert_eq!(b.set_adjust(true, 14999, 7), Err(BondError::RateTooSmall));
    assert_eq!(b.adjust, Adjust { add: true, rate: 0, target: u128::MAX });
    assert_eq!(b.set_adjust(false, 15000, 7), Ok(()));
    assert_eq!(b.adjust, Adjust { add: false, rate: 15000, target: 7 });
}

#[test]
fn set_bond_overwrites_every_field() {
    let mut h = Bond { value_remaining: 1, payout_remaining: 2, vesting_period: 3, last_time: 4, price_paid: 5 };
    h.set_bond(10, 20, 30, 40, 50);
    assert_eq!(
        h,
        Bond { value_remaining: 10, payout_remaining: 20, vesting_period: 30, last_time: 40, price_paid: 50 }
    );
}

#[test]
fn add_new_bond_is_owner_only() {
    let mut reg = PhoenixBond::new(s("owner"));
    let r = reg.add_new_bond(
        &s("intruder"),
        s("pay.token"),
        s("pure.token"),
        s("treasury"),
        1,
        1,
        432000,
        1,
        0,
    );
    assert_eq!(r, Err(BondError::NotOwner));
    // Nothing was registered.
    assert_eq!(reg.get_bond_balance(&s("pay.token")), Err(BondError::UnknownBond));
}

#[test]
fn unknown_bond_deposit_fails_without_state_change() {
    let reg = registry_with_bond(10, 1, 432000, 1);
    assert_eq!(reg.deposit(&s("other.token"), &s("alice"), 5), Err(BondError::UnknownBond));
    // The registered bond's books are untouched.
    assert_eq!(reg.get_bond_balance(&s("pay.token")), Ok(10));
    assert_eq!(reg.get_total_deposit(&s("pay.token")), Ok(0));
}

#[test]
fn deposit_names_the_payout_asset_to_query() {
    let reg = registry_with_bond(10, 1, 432000, 1);
    assert_eq!(reg.deposit(&s("pay.token"), &s("alice"), 5), Ok(s("pure.token")));
}

#[test]
fn deposit_workflow_applies_the_documented_deltas() {
    // Zero debt prices at the floor of 200_000_000_000; a deposit of
    // 1_000_000 buys 1_000_000 * DECIMAL / 200_000_000_000 = 5_000_000.
    let mut reg = registry_with_bond(10_000_000, 1, 432000, 200_000_000_000);
    let r = reg.get_supply_callback(&s("pay.token"), &s("alice"), 1_000_000, Some(1_000_000), 7);
    assert_eq!(r, Ok(5_000_000));
    assert_eq!(reg.get_bond_balance(&s("pay.token")), Ok(5_000_000));
    assert_eq!(reg.get_total_deposit(&s("pay.token")), Ok(1_000_000));
    let h = reg.get_bond_holder(&s("pay.token"), &s("alice")).unwrap();
    assert_eq!(
        h,
        Bond {
            value_remaining: 1_000_000,
            payout_remaining: 5_000_000,
            vesting_period: 432000,
            last_time: 7,
            price_paid: 200_000_000_000,
        }
    );
}

#[test]
fn deposit_rejects_a_payout_beyond_the_balance() {
    // Floor price 10_000_000_000 makes the payout 100_000_000, which is
    // larger than the 10_000_000 still for sale.
    let mut reg = registry_with_bond(10_000_000, 1, 432000, 10_000_000_000);
    let r = reg.get_supply_callback(&s("pay.token"), &s("alice"), 1_000_000, Some(1_000_000), 0);
    assert_eq!(r, Err(BondError::BondTooLarge));
    assert_eq!(reg.get_bond_balance(&s("pay.token")), Ok(10_000_000));
    assert_eq!(reg.get_total_deposit(&s("pay.token")), Ok(0));
    assert_eq!(reg.get_bond_holder(&s("pay.token"), &s("alice")), Err(BondError::NoBondHolder));
}

#[test]
fn failed_supply_query_changes_nothing() {
    let mut reg = registry_with_bond(10_000_000, 1, 432000, 200_000_000_000);
    let r = reg.get_supply_callback(&s("pay.token"), &s("alice"), 1_000_000, None, 9);
    assert_eq!(r, Err(BondError::SupplyQueryFailed));
    assert_eq!(reg.get_bond_balance(&s("pay.token")), Ok(10_000_000));
    assert_eq!(reg.get_total_deposit(&s("pay.token")), Ok(0));
    assert_eq!(reg.get_bond_holder(&s("pay.token"), &s("alice")), Err(BondError::NoBondHolder));
}

#[test]
fn zero_supply_answer_is_rejected() {
    let mut reg = registry_with_bond(10_000_000, 1, 432000, 200_000_000_000);
    let r = reg.get_supply_callback(&s("pay.token"), &s("alice"), 1_000_000, Some(0), 0);
    assert_eq!(r, Err(BondError::DivisionByZero));
    assert_eq!(reg.get_total_deposit(&s("pay.token")), Ok(0));
}

#[test]
fn callback_for_an_unknown_bond_changes_nothing() {
    let mut reg = registry_with_bond(10, 1, 432000, 1);
    let r = reg.get_supply_callback(&s("other.token"), &s("alice"), 1, Some(1), 0);
    assert_eq!(r, Err(BondError::UnknownBond));
    assert_eq!(reg.get_bond_balance(&s("pay.token")), Ok(10));
}

#[test]
fn percent_vested_tracks_elapsed_time_exactly() {
    let mut reg = registry_with_bond(10_000_000, 1, 432000, 200_000_000_000);
    reg.get_supply_callback(&s("pay.token"), &s("alice"), 1_000_000, Some(1), 0).unwrap();
    assert_eq!(reg.percent_vested(&s("alice"), 0, &s("pay.token")), Ok(0));
    assert_eq!(reg.percent_vested(&s("alice"), 216000, &s("pay.token")), Ok(5000));
    assert_eq!(reg.percent_vested(&s("alice"), 431999, &s("pay.token")), Ok(9999));
    assert_eq!(reg.percent_vested(&s("alice"), 432000, &s("pay.token")), Ok(10000));
    // Uncapped past the vesting period.
    assert_eq!(reg.percent_vested(&s("alice"), 864000, &s("pay.token")), Ok(20000));
}

#[test]
fn pending_payout_is_the_vested_fraction() {
    let mut reg = registry_with_bond(10_000_000, 1, 432000, 200_000_000_000);
    reg.get_supply_callback(&s("pay.token"), &s("alice"), 1_000_000, Some(1), 0).unwrap();
    // Payout owed is 5_000_000.
    assert_eq!(reg.pending_payout(&s("alice"), 0, &s("pay.token")), Ok(0));
    assert_eq!(reg.pending_payout(&s("alice"), 216000, &s("pay.token")), Ok(2_500_000));
    assert_eq!(reg.pending_payout(&s("alice"), 432000, &s("pay.token")), Ok(5_000_000));
    assert_eq!(reg.pending_payout(&s("alice"), 864000, &s("pay.token")), Ok(5_000_000));
}

#[test]
fn redeem_without_a_holder_record_fails_without_state_change() {
    let reg = registry_with_bond(10, 1, 432000, 1);
    assert_eq!(
        reg.redeem(&s("alice"), &s("pay.token"), 0),
        Err(BondError::NoBondHolder)
    );
    assert_eq!(reg.get_bond_balance(&s("pay.token")), Ok(10));
    assert_eq!(
        reg.redeem(&s("alice"), &s("other.token"), 0),
        Err(BondError::UnknownBond)
    );
}

#[test]
fn redeem_workflow_halves_a_half_vested_position() {
    // Build a holder owed value 1000 and payout 500: floor price of
    // 2 * DECIMAL turns a deposit of 1000 into a payout of 500.
    let mut reg = registry_with_bond(10_000_000, 1, 432000, 2 * DECIMAL);
    reg.get_supply_callback(&s("pay.token"), &s("alice"), 1000, Some(1), 0).unwrap();
    let h = reg.get_bond_holder(&s("pay.token"), &s("alice")).unwrap();
    assert_eq!(h.value_remaining, 1000);
    assert_eq!(h.payout_remaining, 500);
    // Redeeming half-way through the vesting period asks to mint 250.
    let action = reg.redeem(&s("alice"), &s("pay.token"), 216000).unwrap();
    assert_eq!(action, (s("pure.token"), 250));
    // A successful mint finalizes the holder's ledger.
    let r = reg.redeem_callback(&s("alice"), 216000, &s("pay.token"), 250, true, 216000);
    assert_eq!(r, Ok(()));
    let h = reg.get_bond_holder(&s("pay.token"), &s("alice")).unwrap();
    assert_eq!(h.value_remaining, 500);
    assert_eq!(h.payout_remaining, 250);
    assert_eq!(h.last_time, 216000);
}

#[test]
fn failed_mint_changes_nothing() {
    let mut reg = registry_with_bond(10_000_000, 1, 432000, 2 * DECIMAL);
    reg.get_supply_callback(&s("pay.token"), &s("alice"), 1000, Some(1), 0).unwrap();
    let before = reg.get_bond_holder(&s("pay.token"), &s("alice")).unwrap();
    let r = reg.redeem_callback(&s("alice"), 216000, &s("pay.token"), 250, false, 216000);
    assert_eq!(r, Err(BondError::MintFailed));
    assert_eq!(reg.get_bond_holder(&s("pay.token"), &s("alice")).unwrap(), before);
}

#[test]
fn overminting_is_rejected_without_state_change() {
    let mut reg = registry_with_bond(10_000_000, 1, 432000, 2 * DECIMAL);
    reg.get_supply_callback(&s("pay.token"), &s("alice"), 1000, Some(1), 0).unwrap();
    let before = reg.get_bond_holder(&s("pay.token"), &s("alice")).unwrap();
    // The holder is owed 500 in all; minting 501 would underflow.
    let r = reg.redeem_callback(&s("alice"), 216000, &s("pay.token"), 501, true, 216000);
    assert_eq!(r, Err(BondError::MintExceedsPayout));
    assert_eq!(reg.get_bond_holder(&s("pay.token"), &s("alice")).unwrap(), before);
}

#[test]
fn second_deposit_merges_and_resets_the_clock() {
    // First deposit at the floor price 2 * DECIMAL: 100 buys 50.
    // Second deposit prices on the curve at 2.5 * DECIMAL: 100 buys 40.
    let mut reg = registry_with_bond(
        1_000_000,
        249_999_999_990_000_000_000,
        432000,
        2 * DECIMAL,
    );
    reg.get_supply_callback(&s("pay.token"), &s("alice"), 100, Some(DECIMAL), 0).unwrap();
    let h = reg.get_bond_holder(&s("pay.token"), &s("alice")).unwrap();
    assert_eq!(h.value_remaining, 100);
    assert_eq!(h.payout_remaining, 50);
    assert_eq!(h.last_time, 0);
    assert_eq!(h.price_paid, 2 * DECIMAL);
    // Outstanding debt of 100 against a supply of DECIMAL gives ratio 100
    // and a curve price of 2_500_000_000_000.
    let r = reg.get_supply_callback(&s("pay.token"), &s("alice"), 100, Some(DECIMAL), 5);
    assert_eq!(r, Ok(40));
    let h = reg.get_bond_holder(&s("pay.token"), &s("alice")).unwrap();
    assert_eq!(h.value_remaining, 200);
    assert_eq!(h.payout_remaining, 90);
    assert_eq!(h.vesting_period, 432000);
    assert_eq!(h.last_time, 5);
    assert_eq!(h.price_paid, 2_500_000_000_000);
}

#[test]
fn reads_are_idempotent() {
    let mut reg = registry_with_bond(10_000_000, 1, 432000, 200_000_000_000);
    reg.get_supply_callback(&s("pay.token"), &s("alice"), 1_000_000, Some(1), 0).unwrap();
    assert_eq!(
        reg.get_bond_holder(&s("pay.token"), &s("alice")),
        reg.get_bond_holder(&s("pay.token"), &s("alice"))
    );
    assert_eq!(
        reg.get_bond_balance(&s("pay.token")),
        reg.get_bond_balance(&s("pay.token"))
    );
    assert_eq!(
        reg.get_total_deposit(&s("pay.token")),
        reg.get_total_deposit(&s("pay.token"))
    );
}

#[test]
fn set_vesting_period_rewrites_only_the_term() {
    let mut reg = registry_with_bond(10_000_000, 1, 432000, 200_000_000_000);
    assert_eq!(reg.set_vesting_period(&s("other.token"), 5), Err(BondError::UnknownBond));
    assert_eq!(reg.set_vesting_period(&s("pay.token"), 864000), Ok(()));
    // A deposit landing afterwards snapshots the new term.
    reg.get_supply_callback(&s("pay.token"), &s("alice"), 1_000_000, Some(1), 0).unwrap();
    let h = reg.get_bond_holder(&s("pay.token"), &s("alice")).unwrap();
    assert_eq!(h.vesting_period, 864000);
    // The balance for sale was left alone.
    assert_eq!(reg.get_bond_balance(&s("pay.token")), Ok(5_000_000));
}

#[test]
fn registry_bond_price_reads_through_to_the_bond() {
    let reg = registry_with_bond(10_000_000, 1, 432000, 200_000_000_000);
    assert_eq!(reg.get_bond_price(&s("pay.token"), 1_000_000, 0), Ok(200_000_000_000));
    assert_eq!(reg.get_bond_price(&s("pay.token"), 0, 0), Err(BondError::DivisionByZero));
    assert_eq!(reg.get_bond_price(&s("other.token"), 1, 0), Err(BondError::UnknownBond));
}

#[test]
fn str_map_binds_and_unbinds_keys() {
    let mut m: StrMap<u64> = StrMap::new();
    assert!(!m.contains_key(&s("a")));
    m.insert(s("a"), 1);
    m.insert(s("b"), 2);
    assert!(m.contains_key(&s("a")));
    assert_eq!(m.get(&s("a")), Some(&1));
    assert_eq!(m.get(&s("b")), Some(&2));
    assert_eq!(m.get(&s("c")), None);
    m.insert(s("a"), 3);
    assert_eq!(m.get(&s("a")), Some(&3));
    assert_eq!(m.remove(&s("a")), Some(3));
    assert_eq!(m.get(&s("a")), None);
    assert_eq!(m.remove(&s("a")), None);
    assert_eq!(m.get(&s("b")), Some(&2));
}
