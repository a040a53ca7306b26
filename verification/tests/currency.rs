use polokol::constants::currency::deposit;
use polokol::constants::currency::CENTS;
use polokol::constants::currency::DOLLARS;
use polokol::constants::currency::MILLICENTS;
use polokol::primitives::advance;

#[test]
fn currency_units() {
    assert_eq!(MILLICENTS, 1_000_000_000);
    assert_eq!(CENTS, 1_000_000_000_000);
    assert_eq!(DOLLARS, 100_000_000_000_000);
}

#[test]
fn deposit_charges_items_and_bytes() {
    assert_eq!(deposit(0, 0), 0);
    assert_eq!(deposit(1, 0), 15 * CENTS);
    assert_eq!(deposit(0, 1), 6 * CENTS);
    assert_eq!(deposit(2, 3), 48_000_000_000_000);
    assert_eq!(deposit(1, 32), 207 * CENTS);
}

#[test]
fn deposit_of_the_largest_arguments_fits() {
    assert_eq!(deposit(u32::MAX, u32::MAX), 90_194_313_195_000_000_000_000);
}

#[test]
fn counter_advances_by_one_and_stops_at_the_top() {
    assert_eq!(advance(0), 1);
    assert_eq!(advance(41), 42);
    assert_eq!(advance(u32::MAX - 1), u32::MAX);
    assert_eq!(advance(u32::MAX), u32::MAX);
}
