use rgb_fungible::amount::{decimal_scale, AccountingAmount, AccountingValue, MAX_DECIMAL_BITS};

fn amount(bits: u8, atomic: u64) -> AccountingAmount {
    AccountingAmount::from_fractioned_atomic_value(bits, atomic)
}

#[test]
fn atomic_constructor_keeps_value_and_precision() {
    let a = amount(8, 123_456);
    assert_eq!(a.atomic_value(), 123_456);
    assert_eq!(a.fractional_bits(), 8);
}

#[test]
fn default_amount_is_zero_at_precision_zero() {
    let a = AccountingAmount::default();
    assert_eq!(a.atomic_value(), 0);
    assert_eq!(a.fractional_bits(), 0);
}

#[test]
fn decimal_scale_is_power_of_ten() {
    assert_eq!(decimal_scale(0), 1);
    assert_eq!(decimal_scale(1), 10);
    assert_eq!(decimal_scale(8), 100_000_000);
    assert_eq!(decimal_scale(MAX_DECIMAL_BITS), 10_000_000_000_000_000_000);
}

#[test]
fn decimal_constructor_adds_scaled_fraction_unshifted() {
    // 1.50 at precision 2: whole 1, fraction 50 of 100
    let a = AccountingAmount::from_fractioned_accounting_value(
        2,
        AccountingValue { whole: 1, fraction: 50 },
    );
    assert_eq!(a.atomic_value(), 51);
    assert_eq!(a.fractional_bits(), 2);
}

#[test]
fn transmutate_gives_atomic_value_of_decimal() {
    assert_eq!(
        AccountingAmount::transmutate(2, AccountingValue { whole: 1, fraction: 50 }),
        51
    );
    assert_eq!(
        AccountingAmount::transmutate(0, AccountingValue { whole: 42, fraction: 0 }),
        42
    );
}

#[test]
fn accounting_value_splits_by_binary_shift() {
    // 51 = 0b110011: above two bits 0b1100 = 12, below them 0b11 = 3
    let v = amount(2, 51).accounting_value();
    assert_eq!(v, AccountingValue { whole: 12, fraction: 3 });
    let v = amount(0, 51).accounting_value();
    assert_eq!(v, AccountingValue { whole: 51, fraction: 0 });
    let v = amount(63, u64::MAX).accounting_value();
    assert_eq!(v, AccountingValue { whole: 1, fraction: u64::MAX >> 1 });
}

#[test]
fn decimal_round_trip_holds_at_precision_zero() {
    let v = AccountingValue { whole: 7_000, fraction: 0 };
    let back = AccountingAmount::from_fractioned_accounting_value(0, v).accounting_value();
    assert_eq!(back, v);
}

#[test]
fn decimal_round_trip_holds_without_whole_part() {
    // fraction 3 fits below two binary places
    let v = AccountingValue { whole: 0, fraction: 3 };
    let back = AccountingAmount::from_fractioned_accounting_value(2, v).accounting_value();
    assert_eq!(back, v);
}

#[test]
fn decimal_round_trip_fails_with_whole_part_and_precision() {
    // 1.50 at precision 2 reads back as 12 and 3 hundredths
    let v = AccountingValue { whole: 1, fraction: 50 };
    let back = AccountingAmount::from_fractioned_accounting_value(2, v).accounting_value();
    assert_eq!(back, AccountingValue { whole: 12, fraction: 3 });
    assert_ne!(back, v);
}

#[test]
fn decimal_round_trip_fails_when_fraction_exceeds_binary_places() {
    // fraction 50 needs six binary places, precision 2 offers two
    let v = AccountingValue { whole: 0, fraction: 50 };
    let back = AccountingAmount::from_fractioned_accounting_value(2, v).accounting_value();
    assert_eq!(back, AccountingValue { whole: 12, fraction: 2 });
}

#[test]
fn add_sums_atomic_values() {
    let c = amount(8, 40) + amount(8, 2);
    assert_eq!(c, amount(8, 42));
}

#[test]
fn add_is_commutative() {
    let a = amount(3, 1_000);
    let b = amount(3, 234);
    assert_eq!(a + b, b + a);
    assert_eq!((a + b).atomic_value(), 1_234);
}

#[test]
fn add_is_associative() {
    let a = amount(3, 1_000);
    let b = amount(3, 234);
    let c = amount(3, 5);
    assert_eq!((a + b) + c, a + (b + c));
    assert_eq!(((a + b) + c).atomic_value(), 1_239);
}

#[test]
fn add_assign_adds_in_place() {
    let mut a = amount(8, 40);
    a.add_assign(amount(8, 2));
    assert_eq!(a, amount(8, 42));
}

#[test]
fn checked_add_refuses_differing_precision() {
    assert_eq!(amount(8, 40).checked_add(amount(7, 2)), None);
    assert_eq!(amount(0, 0).checked_add(amount(1, 0)), None);
}

#[test]
fn checked_add_refuses_overflow() {
    assert_eq!(amount(8, u64::MAX).checked_add(amount(8, 1)), None);
    assert_eq!(
        amount(8, u64::MAX - 1).checked_add(amount(8, 1)),
        Some(amount(8, u64::MAX))
    );
}

#[test]
fn checked_add_agrees_with_add() {
    let a = amount(4, 17);
    let b = amount(4, 25);
    assert_eq!(a.checked_add(b), Some(a + b));
}
