//! What holds of every juror, whatever its history.

use vstd::prelude::*;
use crate::ledger::LedgerView;
use crate::primitives::AccountId;
use crate::reputation::{JurorTier, ReputationView};

verus! {

/// A registered juror that has lost a dispute is evicted when its tier is brought in
/// line: it leaves the registry, no stake of it stays on record, and what it had
/// staked is freed on the ledger. Nothing can refuse the eviction.
pub proof fn lemma_loss_evicts(registry: ReputationView, ledger: LedgerView, who: AccountId)
    requires
        registry.opted_in(who),
        registry.tier(who) != JurorTier::Ineligible,
        registry.reputation_stats.contains_key(who),
        registry.reputation_stats[who].disputes_lost > 0,
    ensures
        !registry.tier_update_blocked(who),
        !registry.update_juror_tier(who).opted_in(who),
        registry.update_juror_tier(who).tier(who) == JurorTier::Ineligible,
        !registry.update_juror_tier(who).stake_of.contains_key(who),
        registry.stake_of.contains_key(who) ==> registry.update_juror_tier_ledger(ledger, who)
            == ledger.unreserve(who, registry.stake_of[who]),
{
}

/// A juror whose tier is in line with its statistics stays where it is.
pub proof fn lemma_tier_in_line_stays(registry: ReputationView, ledger: LedgerView, who: AccountId)
    requires
        registry.tier(who) == registry.earned_tier(who),
    ensures
        !registry.tier_update_blocked(who),
        registry.update_juror_tier(who) == registry,
        registry.update_juror_tier_ledger(ledger, who) == ledger,
{
}

} // verus!
