//! The scores that the store shows of an account: one as a freelancer, one as a
//! client, each a capped sum of parts.

use vstd::prelude::*;
use sp_runtime::Permill;
use crate::permill::{permill_parts, MILLION};
use crate::primitives::{saturating_mul_u32, spec_saturating_mul_u32, AccountId, Balance, BlockNumber};
use crate::reputation::{Error, Pallet, ReputationData};

verus! {

/// The highest score.
pub const MAX_SCORE: u32 = 10000;

/// The smaller of two counts.
pub open spec fn min_u32(a: u32, b: u32) -> u32 {
    if a <= b {
        a
    } else {
        b
    }
}

/// The part of a score for the share of projects completed: the share in percent,
/// times 25, times the weight, over 100.
pub open spec fn completion_score(stats: ReputationData, weight: u32) -> u32 {
    let total_projects = stats.projects_completed.saturating_add(stats.projects_failed);
    if total_projects == 0 {
        0
    } else {
        let completion_rate = (spec_saturating_mul_u32(stats.projects_completed, 100) / total_projects) as u32;
        (spec_saturating_mul_u32(spec_saturating_mul_u32(completion_rate, 25), weight) / 100) as u32
    }
}

/// The part of a score for the ratings received: half the mean rating.
pub open spec fn rating_score(stats: ReputationData) -> u32 {
    if stats.total_ratings_received == 0 {
        0
    } else {
        stats.avg_rating_received / 2
    }
}

/// The points for the number of completed projects: steep for the first five,
/// flatter up to twenty and up to fifty, and 1000 beyond.
pub open spec fn project_points(completed: u32) -> u32 {
    if completed == 0 {
        0
    } else if completed <= 5 {
        (completed * 100) as u32
    } else if completed <= 20 {
        (500 + (completed - 5) * 20) as u32
    } else if completed <= 50 {
        (800 + (completed - 20) * 5) as u32
    } else {
        1000
    }
}

/// The points for the earnings: a tenth up to 10000, then 1000 and a hundredth of
/// what is above, and 1000 beyond 100000.
pub open spec fn value_points(earned: Balance) -> u32 {
    if earned == 0 {
        0
    } else if earned <= 10000 {
        (earned / 10) as u32
    } else if earned <= 100000 {
        (1000 + (earned - 10000) / 100) as u32
    } else {
        1000
    }
}

/// The part of a score for the volume of work: both kinds of points, at most 2000.
pub open spec fn volume_score(stats: ReputationData) -> u32 {
    min_u32(project_points(stats.projects_completed).saturating_add(value_points(stats.total_earned)), 2000)
}

/// The points for the age of an account in blocks; an age beyond 32 bits counts as
/// none.
pub open spec fn age_points(age: BlockNumber) -> u32 {
    if age > u32::MAX || age <= 10000 {
        0
    } else if age <= 50000 {
        250
    } else if age <= 100000 {
        500
    } else {
        750
    }
}

/// The points for the blocks since the last activity.
pub open spec fn recency_points(since: BlockNumber) -> u32 {
    if since < 10000 {
        750
    } else if since < 50000 {
        500
    } else if since < 100000 {
        250
    } else {
        0
    }
}

/// The part of a score for activity: the points for age and recency, less the decay
/// of that many parts per million, at most 1500.
pub open spec fn activity_score(stats: ReputationData, current_block: BlockNumber, decay_parts: u32) -> u32 {
    let base_score = age_points(current_block.saturating_sub(stats.registration_block)).saturating_add(
        recency_points(current_block.saturating_sub(stats.last_activity_block)),
    );
    min_u32(
        (spec_saturating_mul_u32(base_score, MILLION.saturating_sub(decay_parts)) / MILLION) as u32,
        1500,
    )
}

/// The part of a score for disputes: 1500 without any, else fifteen times the share
/// won in percent, at most 1500, less the penalty for every dispute lost.
pub open spec fn dispute_score(stats: ReputationData, penalty_weight: u32) -> u32 {
    let total_disputes = stats.disputes_won.saturating_add(stats.disputes_lost);
    if total_disputes == 0 {
        1500
    } else {
        let win_rate = (spec_saturating_mul_u32(stats.disputes_won, 100) / total_disputes) as u32;
        min_u32(spec_saturating_mul_u32(win_rate, 15), 1500).saturating_sub(
            spec_saturating_mul_u32(stats.disputes_lost, penalty_weight),
        )
    }
}

/// The score of an account as a freelancer: the five parts together, at most 10000.
pub open spec fn reputation_score(
    stats: ReputationData,
    completion_weight: u32,
    dispute_penalty: u32,
    decay_parts: u32,
    current_block: BlockNumber,
) -> u32 {
    min_u32(
        completion_score(stats, completion_weight).saturating_add(rating_score(stats)).saturating_add(
            volume_score(stats),
        ).saturating_add(activity_score(stats, current_block, decay_parts)).saturating_add(
            dispute_score(stats, dispute_penalty),
        ),
        MAX_SCORE,
    )
}

/// The points of a client for what it has spent: a twentieth up to 50000, and 3000
/// beyond.
pub open spec fn payment_points(spent: Balance) -> u32 {
    if spent == 0 {
        0
    } else if spent <= 50000 {
        (spent / 20) as u32
    } else {
        3000
    }
}

/// The score of an account as a client: thirty times the share of posted projects
/// that were completed, the points for payments, 2000 less twenty times the share
/// that failed, and twenty times the share of started disputes that were won (2000
/// without any), at most 10000.
pub open spec fn client_reputation(stats: ReputationData) -> u32 {
    let posting_score = if stats.projects_posted > 0 {
        spec_saturating_mul_u32(
            (spec_saturating_mul_u32(stats.projects_completed, 100) / stats.projects_posted) as u32,
            30,
        )
    } else {
        0
    };
    let cancel_rate = if stats.projects_posted > 0 {
        (spec_saturating_mul_u32(stats.projects_failed, 100) / stats.projects_posted) as u32
    } else {
        0
    };
    let cancellation_score = 2000u32.saturating_sub(spec_saturating_mul_u32(cancel_rate, 20));
    let disputes = if stats.disputes_initiated > 0 {
        spec_saturating_mul_u32(
            (spec_saturating_mul_u32(stats.disputes_won, 100) / stats.disputes_initiated) as u32,
            20,
        )
    } else {
        2000
    };
    min_u32(
        posting_score.saturating_add(payment_points(stats.total_spent)).saturating_add(
            cancellation_score,
        ).saturating_add(disputes),
        MAX_SCORE,
    )
}

fn least(a: u32, b: u32) -> (r: u32)
    ensures
        r == min_u32(a, b),
{
    if a <= b {
        a
    } else {
        b
    }
}

impl Pallet {
    /// The score of a registered account as a freelancer at block `now`.
    pub fn calculate_reputation_score(&self, account: AccountId, now: BlockNumber) -> (r: Result<u32, Error>)
        ensures
            match r {
                Ok(score) => self@.registered(account) && score == reputation_score(
                    self@.reputation_stats[account],
                    self@.reputation_weights.completion_weight,
                    self@.reputation_weights.dispute_penalty,
                    permill_parts(self@.reputation_weights.time_decay_rate),
                    now,
                ),
                Err(e) => !self@.registered(account) && e == Error::UserNotRegistered,
            },
    {
        let stats = self.reputation_stats(account);
        if !(stats.registration_block > 0) {
            return Err(Error::UserNotRegistered);
        }
        let weights = self.reputation_weights();
        let completion_score = Self::calculate_completion_score(&stats, weights.completion_weight);
        let rating_score = Self::calculate_rating_score(&stats);
        let volume_score = Self::calculate_volume_score(&stats);
        let activity_score = Self::calculate_activity_score(&stats, now, weights.time_decay_rate);
        let dispute_score = Self::calculate_dispute_score(&stats, weights.dispute_penalty);
        let total_score = completion_score.saturating_add(rating_score).saturating_add(
            volume_score,
        ).saturating_add(activity_score).saturating_add(dispute_score);
        Ok(least(total_score, MAX_SCORE))
    }

    fn calculate_completion_score(stats: &ReputationData, weight: u32) -> (score: u32)
        ensures
            score == completion_score(*stats, weight),
    {
        let total_projects = stats.projects_completed.saturating_add(stats.projects_failed);
        if total_projects == 0 {
            return 0;
        }
        let completion_rate = saturating_mul_u32(stats.projects_completed, 100) / total_projects;
        saturating_mul_u32(saturating_mul_u32(completion_rate, 25), weight) / 100
    }

    fn calculate_rating_score(stats: &ReputationData) -> (score: u32)
        ensures
            score == rating_score(*stats),
    {
        if stats.total_ratings_received == 0 {
            return 0;
        }
        stats.avg_rating_received / 2
    }

    fn calculate_volume_score(stats: &ReputationData) -> (score: u32)
        ensures
            score == volume_score(*stats),
    {
        let completed = stats.projects_completed;
        let project_score: u32 = if completed == 0 {
            0
        } else if completed <= 5 {
            completed * 100
        } else if completed <= 20 {
            500 + (completed - 5) * 20
        } else if completed <= 50 {
            800 + (completed - 20) * 5
        } else {
            1000
        };
        let earned = stats.total_earned;
        let value_score: u32 = if earned == 0 {
            0
        } else if earned <= 10000 {
            (earned / 10) as u32
        } else if earned <= 100000 {
            1000 + ((earned - 10000) / 100) as u32
        } else {
            1000
        };
        least(project_score.saturating_add(value_score), 2000)
    }

    fn calculate_activity_score(stats: &ReputationData, current_block: BlockNumber, decay_rate: Permill) -> (score: u32)
        ensures
            score == activity_score(*stats, current_block, permill_parts(decay_rate)),
    {
        let account_age = current_block.saturating_sub(stats.registration_block);
        let age_score: u32 = if account_age > 0xffff_ffff || account_age <= 10000 {
            0
        } else if account_age <= 50000 {
            250
        } else if account_age <= 100000 {
            500
        } else {
            750
        };
        let recency = current_block.saturating_sub(stats.last_activity_block);
        let recency_score: u32 = if recency < 10000 {
            750
        } else if recency < 50000 {
            500
        } else if recency < 100000 {
            250
        } else {
            0
        };
        let base_score = age_score.saturating_add(recency_score);
        let decay_factor = decay_rate.deconstruct();
        let decayed = saturating_mul_u32(base_score, MILLION.saturating_sub(decay_factor)) / MILLION;
        least(decayed, 1500)
    }

    fn calculate_dispute_score(stats: &ReputationData, penalty_weight: u32) -> (score: u32)
        ensures
            score == dispute_score(*stats, penalty_weight),
    {
        let total_disputes = stats.disputes_won.saturating_add(stats.disputes_lost);
        if total_disputes == 0 {
            return 1500;
        }
        let win_rate = saturating_mul_u32(stats.disputes_won, 100) / total_disputes;
        let base_score = least(saturating_mul_u32(win_rate, 15), 1500);
        let penalty = saturating_mul_u32(stats.disputes_lost, penalty_weight);
        base_score.saturating_sub(penalty)
    }

    /// The score of a registered account as a client.
    pub fn calculate_client_reputation(&self, account: AccountId) -> (r: Result<u32, Error>)
        ensures
            match r {
                Ok(score) => self@.registered(account) && score == client_reputation(
                    self@.reputation_stats[account],
                ),
                Err(e) => !self@.registered(account) && e == Error::UserNotRegistered,
            },
    {
        let stats = self.reputation_stats(account);
        if !(stats.registration_block > 0) {
            return Err(Error::UserNotRegistered);
        }
        let posting_score = if stats.projects_posted > 0 {
            let completion_rate = saturating_mul_u32(stats.projects_completed, 100) / stats.projects_posted;
            saturating_mul_u32(completion_rate, 30)
        } else {
            0
        };
        let spent = stats.total_spent;
        let payment_score: u32 = if spent == 0 {
            0
        } else if spent <= 50000 {
            (spent / 20) as u32
        } else {
            3000
        };
        let cancel_rate = if stats.projects_posted > 0 {
            saturating_mul_u32(stats.projects_failed, 100) / stats.projects_posted
        } else {
            0
        };
        let cancellation_score = 2000u32.saturating_sub(saturating_mul_u32(cancel_rate, 20));
        let dispute_score = if stats.disputes_initiated > 0 {
            let win_rate = saturating_mul_u32(stats.disputes_won, 100) / stats.disputes_initiated;
            saturating_mul_u32(win_rate, 20)
        } else {
            2000
        };
        let total = posting_score.saturating_add(payment_score).saturating_add(
            cancellation_score,
        ).saturating_add(dispute_score);
        Ok(least(total, MAX_SCORE))
    }
}

} // verus!
