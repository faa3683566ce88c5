//! The reputation store and the juror registry: what every account has done, the
//! tier that follows from it, the staked pools of jurors and the selection of juries.

pub mod interface;
pub mod laws;
pub mod registry;
pub mod score;
pub mod selector;
pub mod store;
pub mod tier;

use vstd::prelude::*;
use std::collections::HashMap;
use sp_runtime::Permill;
use crate::bounded::{account_list_items, account_list_new, AccountList, Uri};
use crate::permill::permill_parts;
use crate::primitives::{AccountId, Balance, BlockNumber, Origin, ProjectId};
use crate::reputation::tier::tier_from_stats;

verus! {

/// What the store keeps of one account.
#[derive(Clone, Copy, PartialEq, Eq, Debug)]
pub struct ReputationData {
    /// The block at which the account registered; zero for an account that has not.
    pub registration_block: BlockNumber,
    /// The block of the account's last recorded activity.
    pub last_activity_block: BlockNumber,
    /// Projects brought to an accepted end.
    pub projects_completed: u32,
    /// Projects cancelled or lost in a dispute.
    pub projects_failed: u32,
    /// Everything earned as a freelancer.
    pub total_earned: Balance,
    /// Projects posted as a client.
    pub projects_posted: u32,
    /// Everything committed as a client.
    pub total_spent: Balance,
    /// Disputes that the account started.
    pub disputes_initiated: u32,
    /// Disputes won.
    pub disputes_won: u32,
    /// Disputes lost.
    pub disputes_lost: u32,
    /// The mean of the ratings received, on a scale from 0 to 5000.
    pub avg_rating_received: u32,
    /// The number of ratings received.
    pub total_ratings_received: u32,
    /// The number of jury votes cast.
    pub jury_participation: u32,
    /// The share of those votes that went with the majority.
    pub jury_accuracy: Permill,
}

/// Who vouches for an attestation.
#[derive(Clone, Copy, PartialEq, Eq, Debug, Structural)]
pub enum AttestorType {
    ClientApproval,
    ArbitrationWin,
    ArbitrationLoss,
    JuryParticipation,
}

/// What an attestation says of the account.
#[derive(Clone, Copy, PartialEq, Eq, Debug, Structural)]
pub enum AttestationOutcome {
    Positive,
    Negative,
    Neutral,
}

/// A record that a project or an arbitration left on an account.
#[derive(PartialEq, Eq, Debug)]
pub struct Attestation {
    pub attestor: AttestorType,
    pub project_id: ProjectId,
    pub outcome: AttestationOutcome,
    pub value: Balance,
    pub timestamp: BlockNumber,
    pub metadata: Uri,
}

/// The weights of the factors of a reputation score.
#[derive(Clone, Copy, PartialEq, Eq, Debug)]
pub struct WeightConfig {
    pub completion_weight: u32,
    pub dispute_penalty: u32,
    pub arbitration_bonus: u32,
    pub jury_weight: u32,
    pub time_decay_rate: Permill,
    pub activity_bonus: u32,
}

/// Figures over all scores, kept for normalisation.
#[derive(Clone, Copy, PartialEq, Eq, Debug, Structural)]
pub struct GlobalReputationStats {
    pub total_users: u32,
    pub average_score: u32,
    pub median_score: u32,
    pub max_score: u32,
    pub min_score: u32,
}

/// The class that decides which rounds an account may judge.
#[derive(Clone, Copy, PartialEq, Eq, PartialOrd, Ord, Debug, Structural)]
pub enum JurorTier {
    /// Not qualified or not staked.
    Ineligible,
    /// May judge a first appeal.
    Bronze,
    /// May judge a final appeal.
    Silver,
    /// The highest class.
    Gold,
}

/// What the registry and the store report.
#[derive(Clone, Copy, PartialEq, Eq, Debug, Structural)]
pub enum Event {
    UserRegistered { account: AccountId },
    ProjectCompleted { freelancer: AccountId, project_id: ProjectId },
    DisputeResolved { winner: AccountId, loser: AccountId, project_id: ProjectId },
    WeightsUpdated,
    GlobalStatsUpdated,
    JurorTierUpdated { account: AccountId },
    JurorRegistered { account: AccountId },
    JurorDeregistered { account: AccountId },
    JurorAutomaticallyDeregistered { account: AccountId },
    JurorSlashed { account: AccountId, amount: Balance },
}

/// Why the registry or the store refused.
#[derive(Clone, Copy, PartialEq, Eq, Debug, Structural)]
pub enum Error {
    AlreadyRegistered,
    UserNotRegistered,
    NoNFTFound,
    InvalidScore,
    ArithmeticOverflow,
    TooManySkills,
    AlreadyRegisteredAsJuror,
    NotRegisteredAsJuror,
    InsufficientTier,
    JurorPoolFull,
    StakeTooLow,
    Busy,
}

/// What the store and the registry are configured with.
#[derive(Clone, Copy, PartialEq, Eq, Debug)]
pub struct Config {
    /// The origin that may change the weights.
    pub governance: Origin,
    /// The share of a stake that one slash takes.
    pub slash_ratio: Permill,
}

/// The reputation store and the juror registry.
pub struct Pallet {
    /// What the store and the registry are configured with.
    pub config: Config,
    /// The statistics of every registered account.
    pub reputation_stats: HashMap<AccountId, ReputationData>,
    /// The attestations, by [`attestation_key`].
    pub attestations: HashMap<u128, Attestation>,
    /// The weights of the factors of a score.
    pub reputation_weights: WeightConfig,
    /// Figures over all scores.
    pub global_stats: GlobalReputationStats,
    /// The tier under which each registered juror stands in a pool.
    pub juror_tiers: HashMap<AccountId, JurorTier>,
    /// The accounts that registered as jurors.
    pub juror_registry: HashMap<AccountId, bool>,
    /// The pool of Gold jurors.
    pub gold_jurors: AccountList,
    /// The pool of Silver jurors.
    pub silver_jurors: AccountList,
    /// The pool of Bronze jurors.
    pub bronze_jurors: AccountList,
    /// Where the next selection starts in the Gold pool.
    pub next_gold_index: u32,
    /// Where the next selection starts in the Silver pool.
    pub next_silver_index: u32,
    /// Where the next selection starts in the Bronze pool.
    pub next_bronze_index: u32,
    /// The stake that joining the registry costs.
    pub juror_stake: Balance,
    /// The stake that each registered juror has reserved.
    pub stake_of: HashMap<AccountId, Balance>,
    /// The jurors that sit on an open dispute.
    pub juror_busy: HashMap<AccountId, bool>,
}

/// The store and the registry as contracts see them.
pub struct ReputationView {
    pub governance: Origin,
    pub slash_ratio: Permill,
    pub reputation_stats: Map<AccountId, ReputationData>,
    pub attestations: Map<u128, Attestation>,
    pub reputation_weights: WeightConfig,
    pub global_stats: GlobalReputationStats,
    pub juror_tiers: Map<AccountId, JurorTier>,
    pub juror_registry: Map<AccountId, bool>,
    pub gold_jurors: Seq<AccountId>,
    pub silver_jurors: Seq<AccountId>,
    pub bronze_jurors: Seq<AccountId>,
    pub next_gold_index: u32,
    pub next_silver_index: u32,
    pub next_bronze_index: u32,
    pub juror_stake: Balance,
    pub stake_of: Map<AccountId, Balance>,
    pub juror_busy: Map<AccountId, bool>,
}

impl View for Pallet {
    type V = ReputationView;

    open spec fn view(&self) -> ReputationView {
        ReputationView {
            governance: self.config.governance,
            slash_ratio: self.config.slash_ratio,
            reputation_stats: self.reputation_stats@,
            attestations: self.attestations@,
            reputation_weights: self.reputation_weights,
            global_stats: self.global_stats,
            juror_tiers: self.juror_tiers@,
            juror_registry: self.juror_registry@,
            gold_jurors: account_list_items(self.gold_jurors),
            silver_jurors: account_list_items(self.silver_jurors),
            bronze_jurors: account_list_items(self.bronze_jurors),
            next_gold_index: self.next_gold_index,
            next_silver_index: self.next_silver_index,
            next_bronze_index: self.next_bronze_index,
            juror_stake: self.juror_stake,
            stake_of: self.stake_of@,
            juror_busy: self.juror_busy@,
        }
    }
}

/// Whether a record is the one of an account that has done nothing and never
/// registered.
pub open spec fn is_blank(data: ReputationData) -> bool {
    &&& data.registration_block == 0
    &&& data.last_activity_block == 0
    &&& data.projects_completed == 0
    &&& data.projects_failed == 0
    &&& data.total_earned == 0
    &&& data.projects_posted == 0
    &&& data.total_spent == 0
    &&& data.disputes_initiated == 0
    &&& data.disputes_won == 0
    &&& data.disputes_lost == 0
    &&& data.avg_rating_received == 0
    &&& data.total_ratings_received == 0
    &&& data.jury_participation == 0
    &&& permill_parts(data.jury_accuracy) == 0
}

/// The key under which the attestation of an account for a project is kept.
pub open spec fn attestation_key(account: AccountId, project_id: ProjectId) -> u128 {
    (account * 0x1_0000_0000 + project_id) as u128
}

impl ReputationView {
    /// Whether an account has registered as a juror.
    pub open spec fn opted_in(self, who: AccountId) -> bool {
        self.juror_registry.contains_key(who) && self.juror_registry[who]
    }

    /// The tier under which the registry holds an account.
    pub open spec fn tier(self, who: AccountId) -> JurorTier {
        if self.juror_tiers.contains_key(who) {
            self.juror_tiers[who]
        } else {
            JurorTier::Ineligible
        }
    }

    /// Whether an account sits on an open dispute.
    pub open spec fn busy(self, who: AccountId) -> bool {
        self.juror_busy.contains_key(who) && self.juror_busy[who]
    }

    /// Whether the store holds a record of an account that registered after block zero.
    pub open spec fn registered(self, who: AccountId) -> bool {
        self.reputation_stats.contains_key(who) && self.reputation_stats[who].registration_block > 0
    }

    /// The tier that follows from what the store holds of an account.
    pub open spec fn earned_tier(self, who: AccountId) -> JurorTier {
        if self.reputation_stats.contains_key(who) {
            tier_from_stats(self.reputation_stats[who])
        } else {
            JurorTier::Ineligible
        }
    }

    /// The pool of a tier; nobody stands in a pool of the ineligible.
    pub open spec fn pool(self, tier: JurorTier) -> Seq<AccountId> {
        match tier {
            JurorTier::Gold => self.gold_jurors,
            JurorTier::Silver => self.silver_jurors,
            JurorTier::Bronze => self.bronze_jurors,
            JurorTier::Ineligible => Seq::empty(),
        }
    }

    /// The registry with one pool replaced; there is no pool of the ineligible.
    pub open spec fn with_pool(self, tier: JurorTier, pool: Seq<AccountId>) -> ReputationView {
        match tier {
            JurorTier::Gold => ReputationView { gold_jurors: pool, ..self },
            JurorTier::Silver => ReputationView { silver_jurors: pool, ..self },
            JurorTier::Bronze => ReputationView { bronze_jurors: pool, ..self },
            JurorTier::Ineligible => self,
        }
    }
}

impl Pallet {
    /// A store without records and a registry without jurors, which joining costs
    /// the given stake.
    pub fn new(config: Config, juror_stake: Balance) -> (pallet: Pallet)
        ensures
            pallet@.governance == config.governance,
            pallet@.slash_ratio == config.slash_ratio,
            pallet@.juror_stake == juror_stake,
            pallet@.reputation_stats == Map::<AccountId, ReputationData>::empty(),
            pallet@.attestations == Map::<u128, Attestation>::empty(),
            pallet@.juror_tiers == Map::<AccountId, JurorTier>::empty(),
            pallet@.juror_registry == Map::<AccountId, bool>::empty(),
            pallet@.stake_of == Map::<AccountId, Balance>::empty(),
            pallet@.juror_busy == Map::<AccountId, bool>::empty(),
            pallet@.gold_jurors == Seq::<AccountId>::empty(),
            pallet@.silver_jurors == Seq::<AccountId>::empty(),
            pallet@.bronze_jurors == Seq::<AccountId>::empty(),
            pallet@.next_gold_index == 0,
            pallet@.next_silver_index == 0,
            pallet@.next_bronze_index == 0,
            permill_parts(pallet@.reputation_weights.time_decay_rate) == 0,
            pallet@.reputation_weights.completion_weight == 0,
            pallet@.reputation_weights.dispute_penalty == 0,
            pallet@.reputation_weights.arbitration_bonus == 0,
            pallet@.reputation_weights.jury_weight == 0,
            pallet@.reputation_weights.activity_bonus == 0,
            pallet@.global_stats == (GlobalReputationStats {
                total_users: 0,
                average_score: 0,
                median_score: 0,
                max_score: 0,
                min_score: 0,
            }),
    {
        Pallet {
            config,
            reputation_stats: HashMap::new(),
            attestations: HashMap::new(),
            reputation_weights: WeightConfig {
                completion_weight: 0,
                dispute_penalty: 0,
                arbitration_bonus: 0,
                jury_weight: 0,
                time_decay_rate: Permill::zero(),
                activity_bonus: 0,
            },
            global_stats: GlobalReputationStats {
                total_users: 0,
                average_score: 0,
                median_score: 0,
                max_score: 0,
                min_score: 0,
            },
            juror_tiers: HashMap::new(),
            juror_registry: HashMap::new(),
            gold_jurors: account_list_new(),
            silver_jurors: account_list_new(),
            bronze_jurors: account_list_new(),
            next_gold_index: 0,
            next_silver_index: 0,
            next_bronze_index: 0,
            juror_stake,
            stake_of: HashMap::new(),
            juror_busy: HashMap::new(),
        }
    }

    /// What the store holds of an account: its record, or a blank one.
    pub fn reputation_stats(&self, who: AccountId) -> (data: ReputationData)
        ensures
            self@.reputation_stats.contains_key(who) ==> data == self@.reputation_stats[who],
            !self@.reputation_stats.contains_key(who) ==> is_blank(data),
    {
        match self.reputation_stats.get(&who) {
            Some(data) => *data,
            None => ReputationData {
                registration_block: 0,
                last_activity_block: 0,
                projects_completed: 0,
                projects_failed: 0,
                total_earned: 0,
                projects_posted: 0,
                total_spent: 0,
                disputes_initiated: 0,
                disputes_won: 0,
                disputes_lost: 0,
                avg_rating_received: 0,
                total_ratings_received: 0,
                jury_participation: 0,
                jury_accuracy: Permill::zero(),
            },
        }
    }

    /// The attestation that a project left on an account, if there is one.
    pub fn attestations(&self, account: AccountId, project_id: ProjectId) -> (r: Option<&Attestation>)
        ensures
            match r {
                Some(a) => self@.attestations.contains_key(attestation_key(account, project_id))
                    && *a == self@.attestations[attestation_key(account, project_id)],
                None => !self@.attestations.contains_key(attestation_key(account, project_id)),
            },
    {
        let key: u128 = Self::key_of(account, project_id);
        self.attestations.get(&key)
    }

    /// Computes the key of an attestation.
    pub(crate) fn key_of(account: AccountId, project_id: ProjectId) -> (key: u128)
        ensures
            key == attestation_key(account, project_id),
    {
        let high: u128 = account as u128;
        let low: u128 = project_id as u128;
        high * 0x1_0000_0000 + low
    }

    /// The weights of the factors of a score.
    pub fn reputation_weights(&self) -> (weights: WeightConfig)
        ensures
            weights == self@.reputation_weights,
    {
        self.reputation_weights
    }

    /// Figures over all scores.
    pub fn global_stats(&self) -> (stats: GlobalReputationStats)
        ensures
            stats == self@.global_stats,
    {
        self.global_stats
    }

    /// The tier under which the registry holds an account.
    pub fn juror_tier(&self, who: AccountId) -> (tier: JurorTier)
        ensures
            tier == self@.tier(who),
    {
        match self.juror_tiers.get(&who) {
            Some(tier) => *tier,
            None => JurorTier::Ineligible,
        }
    }

    /// Whether an account has registered as a juror.
    pub fn juror_opted_in(&self, who: AccountId) -> (b: bool)
        ensures
            b == self@.opted_in(who),
    {
        match self.juror_registry.get(&who) {
            Some(b) => *b,
            None => false,
        }
    }

    /// The pool of Gold jurors.
    pub fn gold_jurors(&self) -> (pool: &AccountList)
        ensures
            account_list_items(*pool) == self@.gold_jurors,
    {
        &self.gold_jurors
    }

    /// The pool of Silver jurors.
    pub fn silver_jurors(&self) -> (pool: &AccountList)
        ensures
            account_list_items(*pool) == self@.silver_jurors,
    {
        &self.silver_jurors
    }

    /// The pool of Bronze jurors.
    pub fn bronze_jurors(&self) -> (pool: &AccountList)
        ensures
            account_list_items(*pool) == self@.bronze_jurors,
    {
        &self.bronze_jurors
    }

    /// The place in the pool of a tier at which the next selection starts.
    pub fn next_juror_index(&self, tier: JurorTier) -> (index: u32)
        ensures
            index == (match tier {
                JurorTier::Gold => self@.next_gold_index,
                JurorTier::Silver => self@.next_silver_index,
                JurorTier::Bronze => self@.next_bronze_index,
                JurorTier::Ineligible => 0,
            }),
    {
        match tier {
            JurorTier::Gold => self.next_gold_index,
            JurorTier::Silver => self.next_silver_index,
            JurorTier::Bronze => self.next_bronze_index,
            JurorTier::Ineligible => 0,
        }
    }

    /// The stake that joining the registry costs.
    pub fn juror_stake(&self) -> (stake: Balance)
        ensures
            stake == self@.juror_stake,
    {
        self.juror_stake
    }

    /// The stake that a registered juror has reserved.
    pub fn stake_of(&self, who: AccountId) -> (stake: Option<Balance>)
        ensures
            stake == (if self@.stake_of.contains_key(who) {
                Some(self@.stake_of[who])
            } else {
                None
            }),
    {
        match self.stake_of.get(&who) {
            Some(stake) => Some(*stake),
            None => None,
        }
    }

    /// Whether an account sits on an open dispute.
    pub fn juror_busy(&self, who: AccountId) -> (b: bool)
        ensures
            b == self@.busy(who),
    {
        match self.juror_busy.get(&who) {
            Some(b) => *b,
            None => false,
        }
    }
}

} // verus!
