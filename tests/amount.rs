use koncord::amount::{Amount, SCALE};

#[test]
fn amount_new_scales_to_ten_thousandths() {
    assert_eq!(Amount::new(15, 1).units(), 15_000);
    assert_eq!(Amount::new(1, 0).units(), 10_000);
    assert_eq!(Amount::new(1, SCALE).units(), 1);
    assert_eq!(Amount::new(-25, 2).units(), -2_500);
    assert_eq!(Amount::new(0, SCALE), Amount::zero());
}

#[test]
fn amount_digits_past_four_places_are_cut() {
    assert_eq!(Amount::new(123_456, 5).units(), 12_345);
    assert_eq!(Amount::new(-123_456, 5).units(), -12_345);
    assert_eq!(Amount::new(1, 28).units(), 0);
    assert_eq!(Amount::new(-1, 28).units(), 0);
}

#[test]
fn amount_from_largest_mantissa() {
    let max = 79228162514264337593543950335;
    assert_eq!(Amount::from_parts(max, 0).units(), max * 10_000);
    assert_eq!(Amount::from_parts(-max, 0).units(), -max * 10_000);
    assert_eq!(Amount::from_parts(max, 28).units(), 79_228);
}

#[test]
fn amount_checked_arithmetic() {
    let a = Amount::from_units(7);
    let b = Amount::from_units(3);
    assert_eq!(a.checked_add(&b), Some(Amount::from_units(10)));
    assert_eq!(a.checked_sub(&b), Some(Amount::from_units(4)));
    assert_eq!(Amount::from_units(i128::MAX).checked_add(&b), None);
    assert_eq!(Amount::from_units(i128::MIN).checked_sub(&b), None);
    assert!(a.exceeds(&b));
    assert!(!b.exceeds(&a));
    assert!(!a.exceeds(&a));
    assert!(a.is_positive());
    assert!(!Amount::zero().is_positive());
}

#[test]
fn deposit_that_cannot_be_held_is_rejected() {
    let mut client = koncord::client::Client::new(3);
    let big = Amount::from_units(i128::MAX - 5);
    client.get_mut().deposit(big);
    client.get_mut().deposit(Amount::from_units(10));
    let balance = client.account().balance();
    assert_eq!(balance.available(), big);
    assert_eq!(balance.total(), big);
}
