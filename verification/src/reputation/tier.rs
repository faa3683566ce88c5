//! The tier classifier: from what an account has done to the class of juror it is.

use vstd::prelude::*;
use crate::primitives::Balance;
use crate::reputation::{JurorTier, Pallet, ReputationData};

verus! {

/// Completed projects that Gold asks for.
pub const GOLD_PROJECTS: u32 = 50;

/// Earnings that Gold asks for.
pub const GOLD_EARNED: Balance = 50000;

/// Completed projects that Silver asks for.
pub const SILVER_PROJECTS: u32 = 20;

/// Earnings that Silver asks for.
pub const SILVER_EARNED: Balance = 10000;

/// Completed projects that Bronze asks for.
pub const BRONZE_PROJECTS: u32 = 5;

/// Earnings that Bronze asks for.
pub const BRONZE_EARNED: Balance = 1000;

impl JurorTier {
    /// The place of a tier in the order Ineligible, Bronze, Silver, Gold.
    pub open spec fn spec_rank(self) -> nat {
        match self {
            JurorTier::Ineligible => 0,
            JurorTier::Bronze => 1,
            JurorTier::Silver => 2,
            JurorTier::Gold => 3,
        }
    }

    /// The place of a tier in the order Ineligible, Bronze, Silver, Gold.
    #[verifier::when_used_as_spec(spec_rank_u8)]
    pub fn rank(self) -> (r: u8)
        ensures
            r == self.spec_rank(),
    {
        match self {
            JurorTier::Ineligible => 0,
            JurorTier::Bronze => 1,
            JurorTier::Silver => 2,
            JurorTier::Gold => 3,
        }
    }

    /// The rank as the executable `rank` returns it.
    pub open spec fn spec_rank_u8(self) -> u8 {
        self.spec_rank() as u8
    }

    /// Whether this tier is at least `other`.
    pub fn at_least(self, other: JurorTier) -> (b: bool)
        ensures
            b == (self.spec_rank() >= other.spec_rank()),
    {
        self.rank() >= other.rank()
    }
}

impl Default for JurorTier {
    fn default() -> (tier: JurorTier)
        ensures
            tier == JurorTier::Ineligible,
    {
        JurorTier::Ineligible
    }
}

/// The tier of an account with that many completed projects, those earnings and that
/// many lost disputes: one lost dispute shuts every tier.
pub open spec fn tier_of(projects_completed: u32, total_earned: Balance, disputes_lost: u32) -> JurorTier {
    if disputes_lost > 0 {
        JurorTier::Ineligible
    } else if projects_completed >= GOLD_PROJECTS && total_earned >= GOLD_EARNED {
        JurorTier::Gold
    } else if projects_completed >= SILVER_PROJECTS && total_earned >= SILVER_EARNED {
        JurorTier::Silver
    } else if projects_completed >= BRONZE_PROJECTS && total_earned >= BRONZE_EARNED {
        JurorTier::Bronze
    } else {
        JurorTier::Ineligible
    }
}

/// The tier that follows from the statistics of an account.
pub open spec fn tier_from_stats(stats: ReputationData) -> JurorTier {
    tier_of(stats.projects_completed, stats.total_earned, stats.disputes_lost)
}

impl Pallet {
    /// Classifies an account by what the store holds of it.
    pub fn calculate_tier_from_stats(stats: &ReputationData) -> (tier: JurorTier)
        ensures
            tier == tier_from_stats(*stats),
    {
        if stats.disputes_lost > 0 {
            return JurorTier::Ineligible;
        }
        if stats.projects_completed >= GOLD_PROJECTS && stats.total_earned >= GOLD_EARNED {
            JurorTier::Gold
        } else if stats.projects_completed >= SILVER_PROJECTS && stats.total_earned >= SILVER_EARNED {
            JurorTier::Silver
        } else if stats.projects_completed >= BRONZE_PROJECTS && stats.total_earned >= BRONZE_EARNED {
            JurorTier::Bronze
        } else {
            JurorTier::Ineligible
        }
    }
}

/// The tier is a function of completed projects, earnings and lost disputes alone:
/// two records that agree on the three have one tier.
pub proof fn lemma_tier_depends_on_three(a: ReputationData, b: ReputationData)
    requires
        a.projects_completed == b.projects_completed,
        a.total_earned == b.total_earned,
        a.disputes_lost == b.disputes_lost,
    ensures
        tier_from_stats(a) == tier_from_stats(b),
{
}

/// Without a lost dispute, more completed projects and more earnings never lower the
/// tier.
pub proof fn lemma_tier_monotone(
    completed: u32,
    earned: Balance,
    more_completed: u32,
    more_earned: Balance,
)
    requires
        completed <= more_completed,
        earned <= more_earned,
    ensures
        tier_of(completed, earned, 0).spec_rank() <= tier_of(more_completed, more_earned, 0).spec_rank(),
{
}

/// Reaching a threshold in both figures, without a lost dispute, gives at least the
/// tier of that threshold.
pub proof fn lemma_tier_thresholds(completed: u32, earned: Balance)
    ensures
        completed >= GOLD_PROJECTS && earned >= GOLD_EARNED ==> tier_of(completed, earned, 0)
            == JurorTier::Gold,
        completed >= SILVER_PROJECTS && earned >= SILVER_EARNED ==> tier_of(
            completed,
            earned,
            0,
        ).spec_rank() >= JurorTier::Silver.spec_rank(),
        completed >= BRONZE_PROJECTS && earned >= BRONZE_EARNED ==> tier_of(
            completed,
            earned,
            0,
        ).spec_rank() >= JurorTier::Bronze.spec_rank(),
{
}

/// Any lost dispute makes an account ineligible, whatever else it has done.
pub proof fn lemma_loss_disqualifies(completed: u32, earned: Balance, lost: u32)
    requires
        lost > 0,
    ensures
        tier_of(completed, earned, lost) == JurorTier::Ineligible,
{
}

} // verus!
