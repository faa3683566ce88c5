//! The schedule of bonds, costs and jury fees: shares of the budget of a project, by
//! round.

use vstd::prelude::*;
use crate::arbitration::{Config, Error};
use crate::primitives::{saturating_mul, spec_saturating_mul, Balance};

verus! {

/// The last round that a dispute can reach.
pub const MAX_ROUND: u32 = 3;

/// The share of the budget, in percent, that the bond of a round is.
pub open spec fn bond_percentage(round: u32) -> Option<u32> {
    if round == 1 {
        Some(5u32)
    } else if round == 2 {
        Some(20u32)
    } else if round == 3 {
        Some(50u32)
    } else {
        None
    }
}

/// The share of the budget, in percent, that the arbitration of a round costs.
pub open spec fn cost_percentage(round: u32) -> Option<u32> {
    if round == 1 {
        Some(2u32)
    } else if round == 2 {
        Some(5u32)
    } else if round == 3 {
        Some(8u32)
    } else {
        None
    }
}

/// The share of the budget, in percent, that one juror of a round is owed; the first
/// round has no jury.
pub open spec fn fee_percentage(round: u32) -> Option<u32> {
    if round == 2 {
        Some(1u32)
    } else if round == 3 {
        Some(2u32)
    } else {
        None
    }
}

/// That many percent of a budget: the product, held at the largest amount, over a
/// hundred and rounded down.
pub open spec fn percent_of(budget: Balance, percentage: u32) -> Balance {
    spec_saturating_mul(budget, percentage as Balance) / 100
}

/// The larger of two amounts.
pub open spec fn max_balance(a: Balance, b: Balance) -> Balance {
    if a >= b {
        a
    } else {
        b
    }
}

impl Config {
    /// The least bond of a round.
    pub open spec fn minimum_bond(self, round: u32) -> Balance {
        if round == 1 {
            self.minimum_ai_bond
        } else if round == 2 {
            self.minimum_first_appeal_bond
        } else {
            self.minimum_final_appeal_bond
        }
    }
}

/// The bond of a round: its share of the budget, and the least bond of the round where
/// that is more. No bond for a round that is not 1, 2 or 3.
pub open spec fn appeal_bond(config: Config, budget: Balance, round: u32) -> Option<Balance> {
    match bond_percentage(round) {
        Some(percentage) => Some(max_balance(percent_of(budget, percentage), config.minimum_bond(round))),
        None => None,
    }
}

/// The cost of the arbitration of a round: its share of the budget. No cost for a
/// round that is not 1, 2 or 3.
pub open spec fn arbitration_cost(budget: Balance, round: u32) -> Option<Balance> {
    match cost_percentage(round) {
        Some(percentage) => Some(percent_of(budget, percentage)),
        None => None,
    }
}

/// What one juror of a round is owed: the fee, its share of the budget, and the bonus
/// for a vote with the majority, a quarter of the fee. Nothing for a round that is
/// not 2 or 3.
pub open spec fn jury_fees(budget: Balance, round: u32) -> Option<(Balance, Balance)> {
    match fee_percentage(round) {
        Some(percentage) => Some((percent_of(budget, percentage), percent_of(budget, percentage) / 4)),
        None => None,
    }
}

fn percent(budget: Balance, percentage: u32) -> (amount: Balance)
    ensures
        amount == percent_of(budget, percentage),
{
    saturating_mul(budget, percentage as Balance) / 100
}

/// Computes the bond of a round for a budget.
pub fn bond_for(config: &Config, budget: Balance, round: u32) -> (r: Result<Balance, Error>)
    ensures
        match r {
            Ok(bond) => appeal_bond(*config, budget, round) == Some(bond),
            Err(e) => appeal_bond(*config, budget, round) is None && e == Error::InvalidRound,
        },
{
    let (bond_percentage, minimum_bond) = if round == 1 {
        (5u32, config.minimum_ai_bond)
    } else if round == 2 {
        (20u32, config.minimum_first_appeal_bond)
    } else if round == 3 {
        (50u32, config.minimum_final_appeal_bond)
    } else {
        return Err(Error::InvalidRound);
    };
    let share = percent(budget, bond_percentage);
    if share >= minimum_bond {
        Ok(share)
    } else {
        Ok(minimum_bond)
    }
}

/// Computes the cost of the arbitration of a round for a budget.
pub fn cost_for(budget: Balance, round: u32) -> (r: Result<Balance, Error>)
    ensures
        match r {
            Ok(cost) => arbitration_cost(budget, round) == Some(cost),
            Err(e) => arbitration_cost(budget, round) is None && e == Error::InvalidRound,
        },
{
    let cost_percentage = if round == 1 {
        2u32
    } else if round == 2 {
        5u32
    } else if round == 3 {
        8u32
    } else {
        return Err(Error::InvalidRound);
    };
    Ok(percent(budget, cost_percentage))
}

/// Computes what one juror of a round is owed for a budget: the fee and the bonus.
pub fn fees_for(budget: Balance, round: u32) -> (r: Result<(Balance, Balance), Error>)
    ensures
        match r {
            Ok(fees) => jury_fees(budget, round) == Some(fees),
            Err(e) => jury_fees(budget, round) is None && e == Error::InvalidRound,
        },
{
    let base_fee_percentage = if round == 2 {
        1u32
    } else if round == 3 {
        2u32
    } else {
        return Err(Error::InvalidRound);
    };
    let base_fee = percent(budget, base_fee_percentage);
    let performance_bonus = base_fee / 4;
    Ok((base_fee, performance_bonus))
}

/// For a budget whose shares do not pass the largest amount, and a round from 1 to 3,
/// the bond is the larger of the round's share of the budget and the round's least
/// bond, and the cost is the round's share of the budget.
pub proof fn lemma_schedule(config: Config, budget: Balance, round: u32)
    requires
        1 <= round <= 3,
        budget * 50 <= Balance::MAX,
    ensures
        bond_percentage(round) is Some,
        cost_percentage(round) is Some,
        appeal_bond(config, budget, round) == Some(
            max_balance(
                ((budget * bond_percentage(round).unwrap()) / 100) as Balance,
                config.minimum_bond(round),
            ),
        ),
        arbitration_cost(budget, round) == Some(
            ((budget * cost_percentage(round).unwrap()) / 100) as Balance,
        ),
{
    assert(budget * 2 <= budget * 50 && budget * 5 <= budget * 50 && budget * 8 <= budget * 50
        && budget * 20 <= budget * 50) by (nonlinear_arith)
        requires
            budget >= 0,
    ;
}

/// The first round of a dispute about a budget that a hundred divides takes a
/// twentieth of the budget as the bond, where the least bond is no more, and a
/// fiftieth as the cost.
pub proof fn lemma_first_round_shares(config: Config, budget: Balance)
    requires
        budget * 50 <= Balance::MAX,
        budget % 100 == 0,
        config.minimum_ai_bond <= budget / 20,
    ensures
        appeal_bond(config, budget, 1) == Some((budget / 20) as Balance),
        arbitration_cost(budget, 1) == Some((budget / 50) as Balance),
{
    lemma_schedule(config, budget, 1);
    assert((budget * 5) / 100 == budget / 20 && (budget * 2) / 100 == budget / 50) by (nonlinear_arith)
        requires
            budget >= 0,
            budget % 100 == 0,
    ;
}

} // verus!
