use arbitration::arbitration::schedule::{bond_for, cost_for, fees_for};
use arbitration::arbitration::{Config, Error};
use arbitration::primitives::{saturating_mul, saturating_mul_u32, Balance, Origin, UNIT};

fn config(floor_1: Balance, floor_2: Balance, floor_3: Balance) -> Config {
    Config {
        ai_oracle: Origin::Root,
        pallet_id: *b"tsk/arbt",
        min_jurors: 3,
        ai_processing_period: 100,
        voting_period: 200,
        appeal_period: 100,
        minimum_ai_bond: floor_1,
        minimum_first_appeal_bond: floor_2,
        minimum_final_appeal_bond: floor_3,
    }
}

#[test]
fn bond_is_the_share_of_the_budget_where_the_floor_is_lower() {
    let c = config(0, 0, 0);
    assert_eq!(bond_for(&c, 100_000, 1), Ok(5_000));
    assert_eq!(bond_for(&c, 100_000, 2), Ok(20_000));
    assert_eq!(bond_for(&c, 100_000, 3), Ok(50_000));
}

#[test]
fn bond_is_the_floor_where_the_share_is_lower() {
    let c = config(UNIT / 2, 2 * UNIT, 5 * UNIT);
    assert_eq!(bond_for(&c, 100_000, 1), Ok(UNIT / 2));
    assert_eq!(bond_for(&c, 100_000, 2), Ok(2 * UNIT));
    assert_eq!(bond_for(&c, 100_000, 3), Ok(5 * UNIT));
    assert_eq!(bond_for(&c, 100 * UNIT, 1), Ok(5 * UNIT));
    assert_eq!(bond_for(&c, 100 * UNIT, 2), Ok(20 * UNIT));
    assert_eq!(bond_for(&c, 100 * UNIT, 3), Ok(50 * UNIT));
    // The share and the floor meet.
    assert_eq!(bond_for(&c, 10 * UNIT, 1), Ok(UNIT / 2));
    assert_eq!(bond_for(&c, 10 * UNIT + 20, 1), Ok(UNIT / 2 + 1));
}

#[test]
fn first_round_of_a_hundred_units() {
    let c = config(UNIT / 2, 2 * UNIT, 5 * UNIT);
    let budget = 100 * UNIT;
    assert_eq!(bond_for(&c, budget, 1), Ok(budget / 20));
    assert_eq!(cost_for(budget, 1), Ok(budget / 50));
}

#[test]
fn cost_is_the_share_of_the_budget() {
    assert_eq!(cost_for(100_000, 1), Ok(2_000));
    assert_eq!(cost_for(100_000, 2), Ok(5_000));
    assert_eq!(cost_for(100_000, 3), Ok(8_000));
}

#[test]
fn fees_are_a_share_and_a_quarter_of_it() {
    assert_eq!(fees_for(100_000, 2), Ok((1_000, 250)));
    assert_eq!(fees_for(100_000, 3), Ok((2_000, 500)));
}

#[test]
fn shares_round_down() {
    let c = config(0, 0, 0);
    assert_eq!(bond_for(&c, 99, 1), Ok(4));
    assert_eq!(bond_for(&c, 19, 1), Ok(0));
    assert_eq!(cost_for(99, 1), Ok(1));
    assert_eq!(cost_for(49, 1), Ok(0));
    assert_eq!(cost_for(13, 3), Ok(1));
    assert_eq!(fees_for(99, 2), Ok((0, 0)));
    assert_eq!(fees_for(350, 3), Ok((7, 1)));
    assert_eq!(fees_for(0, 2), Ok((0, 0)));
}

#[test]
fn rounds_outside_the_schedule_are_refused() {
    let c = config(1, 1, 1);
    assert_eq!(bond_for(&c, 100_000, 0), Err(Error::InvalidRound));
    assert_eq!(bond_for(&c, 100_000, 4), Err(Error::InvalidRound));
    assert_eq!(bond_for(&c, 100_000, u32::MAX), Err(Error::InvalidRound));
    assert_eq!(cost_for(100_000, 0), Err(Error::InvalidRound));
    assert_eq!(cost_for(100_000, 4), Err(Error::InvalidRound));
    assert_eq!(fees_for(100_000, 0), Err(Error::InvalidRound));
    assert_eq!(fees_for(100_000, 1), Err(Error::InvalidRound));
    assert_eq!(fees_for(100_000, 4), Err(Error::InvalidRound));
}

#[test]
fn shares_of_a_budget_beyond_measure_saturate() {
    let c = config(0, 0, 0);
    let huge = Balance::MAX;
    assert_eq!(bond_for(&c, huge, 1), Ok(Balance::MAX / 100));
    assert_eq!(bond_for(&c, huge, 3), Ok(Balance::MAX / 100));
    assert_eq!(cost_for(huge, 2), Ok(Balance::MAX / 100));
    assert_eq!(fees_for(huge, 3), Ok((Balance::MAX / 100, Balance::MAX / 400)));
    // The largest budget whose half still fits.
    let edge = Balance::MAX / 50;
    assert_eq!(bond_for(&c, edge, 3), Ok(edge * 50 / 100));
    assert_eq!(bond_for(&c, edge + 1, 3), Ok(Balance::MAX / 100));
}

#[test]
fn products_saturate() {
    assert_eq!(saturating_mul(7, 6), 42);
    assert_eq!(saturating_mul(Balance::MAX, 2), Balance::MAX);
    assert_eq!(saturating_mul(Balance::MAX, 0), 0);
    assert_eq!(saturating_mul_u32(1000, 1000), 1_000_000);
    assert_eq!(saturating_mul_u32(u32::MAX, 2), u32::MAX);
    assert_eq!(saturating_mul_u32(65_536, 65_536), u32::MAX);
}
