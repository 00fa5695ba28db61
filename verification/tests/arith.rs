use pallet_auction::{bid_step, BID_ADD_BLOCKS, BID_STEP_PERC, MIN_AUCTION_DUR};

#[test]
fn the_step_is_a_tenth_rounded_up() {
    assert_eq!(bid_step(0), 0);
    assert_eq!(bid_step(1), 1);
    assert_eq!(bid_step(9), 1);
    assert_eq!(bid_step(10), 1);
    assert_eq!(bid_step(11), 2);
    assert_eq!(bid_step(50), 5);
    assert_eq!(bid_step(51), 6);
    assert_eq!(bid_step(60), 6);
    assert_eq!(bid_step(1_000_000), 100_000);
    assert_eq!(bid_step(1_000_001), 100_001);
    assert_eq!(bid_step(12_345_678_901_234_567_890), 1_234_567_890_123_456_789);
}

#[test]
fn the_step_of_the_largest_amount_is_computed_without_overflow() {
    assert_eq!(bid_step(u128::MAX), u128::MAX / 10 + 1);
    assert_eq!(bid_step(u128::MAX - 5), (u128::MAX - 5) / 10);
}

#[test]
fn the_step_agrees_with_the_formula() {
    let mut amount: u128 = 0;
    while amount < 5_000 {
        assert_eq!(bid_step(amount), (amount * 10 + 99) / 100);
        amount += 1;
    }
    let mut amount: u128 = 999_990;
    while amount < 1_000_020 {
        assert_eq!(bid_step(amount), (amount * 10 + 99) / 100);
        amount += 1;
    }
}

#[test]
fn the_constants_are_what_the_rules_say() {
    assert_eq!(BID_STEP_PERC, 10);
    assert_eq!(BID_ADD_BLOCKS, 10);
    assert_eq!(MIN_AUCTION_DUR, 10);
}
