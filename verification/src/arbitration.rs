//! The dispute controller: one dispute per project, from the first ruling over the
//! appeals and the jury votes to the settlement of every bond, cost and fee.

pub mod commands;
pub mod control;
pub mod laws;
pub mod model;
pub mod schedule;
pub mod settlement;

use vstd::prelude::*;
use std::collections::HashMap;
use frame_support::PalletId;
use sp_runtime::traits::AccountIdConversion;
use crate::bounded::{ballots_cast, jury_seats, uri_bytes, Ballots, Jury, Uri};
use crate::primitives::{AccountId, Balance, BlockNumber, Origin, ProjectId};
use crate::seqs::{first, lemma_first, lemma_no_first};

verus! {

/// Where a dispute stands.
#[derive(Clone, Copy, PartialEq, Eq, Debug, Structural)]
pub enum DisputeStatus {
    /// Waiting for the first ruling.
    AiProcessing,
    /// A ruling stands and can be appealed or enforced.
    Appealable,
    /// A jury is voting.
    Voting,
    /// The last ruling was enforced and everything is settled.
    Finalized,
    /// An end that no dispute reaches.
    Resolved,
}

/// Who a dispute was ruled for.
#[derive(Clone, Copy, PartialEq, Eq, Debug, Structural)]
pub enum Ruling {
    ClientWins,
    FreelancerWins,
}

/// What a juror votes.
#[derive(Clone, Copy, PartialEq, Eq, Debug, Structural)]
pub enum Vote {
    ForClient,
    ForFreelancer,
}

/// The record of one dispute.
#[derive(PartialEq, Eq, Debug)]
pub struct DisputeInfo {
    /// Where the dispute stands.
    pub status: DisputeStatus,
    /// The address of the evidence of the current round.
    pub evidence_uri: Uri,
    /// The block at which the current phase began.
    pub start_block: BlockNumber,
    /// The ruling that stands, if one does.
    pub ruling: Option<Ruling>,
    /// The round: 1 for the first ruling, 2 and 3 for the appeals.
    pub round: u32,
    /// The jury of the current round.
    pub jurors: Jury,
    /// The votes of the current round.
    pub votes: Ballots,
}

/// A dispute as contracts see it.
pub struct DisputeView {
    pub status: DisputeStatus,
    pub evidence_uri: Seq<u8>,
    pub start_block: BlockNumber,
    pub ruling: Option<Ruling>,
    pub round: u32,
    pub jurors: Seq<(AccountId, bool)>,
    pub votes: Seq<(AccountId, Vote)>,
}

impl View for DisputeInfo {
    type V = DisputeView;

    open spec fn view(&self) -> DisputeView {
        DisputeView {
            status: self.status,
            evidence_uri: uri_bytes(self.evidence_uri),
            start_block: self.start_block,
            ruling: self.ruling,
            round: self.round,
            jurors: jury_seats(self.jurors),
            votes: ballots_cast(self.votes),
        }
    }
}

/// What the arbitration is configured with.
#[derive(Clone, Copy, PartialEq, Eq, Debug)]
pub struct Config {
    /// The origin that may submit the first ruling.
    pub ai_oracle: Origin,
    /// The identifier from which the account of the arbitration derives.
    pub pallet_id: [u8; 8],
    /// The size of the jury of a first appeal.
    pub min_jurors: u32,
    /// The blocks that the first ruling may take.
    pub ai_processing_period: BlockNumber,
    /// The blocks for which a jury votes.
    pub voting_period: BlockNumber,
    /// The blocks for which a ruling can be appealed.
    pub appeal_period: BlockNumber,
    /// The least bond of a dispute.
    pub minimum_ai_bond: Balance,
    /// The least bond of a first appeal.
    pub minimum_first_appeal_bond: Balance,
    /// The least bond of a final appeal.
    pub minimum_final_appeal_bond: Balance,
}

/// What the arbitration reports.
#[derive(Clone, Copy, PartialEq, Eq, Debug, Structural)]
pub enum Event {
    DisputeCreated { project_id: ProjectId, who: AccountId },
    RulingSubmitted { project_id: ProjectId, ruling: Ruling },
    RulingAppealed { project_id: ProjectId, who: AccountId },
    VoteCast { project_id: ProjectId, who: AccountId, vote: Vote },
    RulingExecuted { project_id: ProjectId, who: AccountId },
    AiRulingSubmitted { project_id: ProjectId, ruling: Ruling },
    AppealStarted { project_id: ProjectId, appellant: AccountId, bond: Balance },
    DisputeResolved { project_id: ProjectId, winner: AccountId },
    RoundFinalized { project_id: ProjectId, ruling: Ruling },
    JurorRewarded { project_id: ProjectId, juror: AccountId, amount: Balance },
    ArbitrationCostReserved { project_id: ProjectId, amount: Balance },
    AppealBondReturned { project_id: ProjectId, appellant: AccountId, amount: Balance },
    JurorBaseFeeAwarded { project_id: ProjectId, juror: AccountId, amount: Balance },
    JurorPerformanceBonusAwarded { project_id: ProjectId, juror: AccountId, amount: Balance },
    ArbitrationCostsPaid { project_id: ProjectId, payer: AccountId, amount: Balance },
    PayoutCompleted { project_id: ProjectId },
}

/// Why the arbitration refused.
#[derive(Clone, Copy, PartialEq, Eq, Debug, Structural)]
pub enum Error {
    DisputeNotFound,
    NotAuthorized,
    DisputeAlreadyResolved,
    InvalidRound,
    InsufficientBond,
    NotEnoughJurors,
    VoteAlreadyCast,
    NotInVotingState,
    InvalidVote,
    NotInAppealableState,
    NotEligibleJuror,
    ProjectAlreadyInDispute,
    InsufficientBalance,
    DisputeAlreadyExists,
    InvalidStatus,
    AppealPeriodExpired,
    NotLosingParty,
    MaxAppealsReached,
    NotJuror,
    AlreadyVoted,
    VotingPeriodNotOver,
    PaymentFailed,
}

/// What one juror of one round is owed, whatever it votes.
#[derive(Clone, Copy, PartialEq, Eq, Debug, Structural)]
pub struct JuryFee {
    pub round: u32,
    pub juror: AccountId,
    pub base_fee: Balance,
    pub performance_bonus: Balance,
}

/// What one juror has earned on a dispute so far.
#[derive(Clone, Copy, PartialEq, Eq, Debug, Structural)]
pub struct JurorReward {
    pub juror: AccountId,
    pub amount: Balance,
}

/// Whether a fee is the one of that juror for that round.
pub open spec fn fee_is(round: u32, juror: AccountId) -> spec_fn(JuryFee) -> bool {
    |f: JuryFee| f.round == round && f.juror == juror
}

/// Whether a reward is the one of that juror.
pub open spec fn reward_is(juror: AccountId) -> spec_fn(JurorReward) -> bool {
    |r: JurorReward| r.juror == juror
}

/// Whether a seat is the one of that juror.
pub open spec fn seat_is(who: AccountId) -> spec_fn((AccountId, bool)) -> bool {
    |seat: (AccountId, bool)| seat.0 == who
}

/// The financial records of one dispute, which its settlement clears.
#[derive(Clone, PartialEq, Eq, Debug)]
pub struct Finances {
    /// The cost of the arbitration, over all rounds so far.
    pub arbitration_cost: Balance,
    /// Who posted the bond of the first round, and how much.
    pub bond_round_1: Option<(AccountId, Balance)>,
    /// Who posted the bond of the second round, and how much.
    pub bond_round_2: Option<(AccountId, Balance)>,
    /// Who posted the bond of the third round, and how much.
    pub bond_round_3: Option<(AccountId, Balance)>,
    /// What the jurors of each round are owed.
    pub jury_fees_owed: Vec<JuryFee>,
    /// What each juror has earned so far.
    pub juror_rewards: Vec<JurorReward>,
}

/// The financial records of one dispute as contracts see them.
pub struct FinancesView {
    pub arbitration_cost: Balance,
    pub bond_round_1: Option<(AccountId, Balance)>,
    pub bond_round_2: Option<(AccountId, Balance)>,
    pub bond_round_3: Option<(AccountId, Balance)>,
    pub jury_fees_owed: Seq<JuryFee>,
    pub juror_rewards: Seq<JurorReward>,
}

impl View for Finances {
    type V = FinancesView;

    open spec fn view(&self) -> FinancesView {
        FinancesView {
            arbitration_cost: self.arbitration_cost,
            bond_round_1: self.bond_round_1,
            bond_round_2: self.bond_round_2,
            bond_round_3: self.bond_round_3,
            jury_fees_owed: self.jury_fees_owed@,
            juror_rewards: self.juror_rewards@,
        }
    }
}

impl FinancesView {
    /// The bond of a round, if one was posted.
    pub open spec fn bond(self, round: u32) -> Option<(AccountId, Balance)> {
        if round == 1 {
            self.bond_round_1
        } else if round == 2 {
            self.bond_round_2
        } else if round == 3 {
            self.bond_round_3
        } else {
            None
        }
    }

    /// The place of what a juror is owed for a round, if a fee is on record.
    pub open spec fn fee_place(self, round: u32, juror: AccountId) -> Option<int> {
        first(self.jury_fees_owed, fee_is(round, juror))
    }

    /// The fee and the bonus that a juror is owed for a round; nothing where no fee
    /// is on record.
    pub open spec fn fee(self, round: u32, juror: AccountId) -> (Balance, Balance) {
        match self.fee_place(round, juror) {
            Some(i) => (self.jury_fees_owed[i].base_fee, self.jury_fees_owed[i].performance_bonus),
            None => (0, 0),
        }
    }

    /// The place of the reward of a juror, if one is on record.
    pub open spec fn reward_place(self, juror: AccountId) -> Option<int> {
        first(self.juror_rewards, reward_is(juror))
    }

    /// What a juror has earned so far; nothing where no reward is on record.
    pub open spec fn reward(self, juror: AccountId) -> Balance {
        match self.reward_place(juror) {
            Some(i) => self.juror_rewards[i].amount,
            None => 0,
        }
    }

    /// Whether no round and no juror is on record twice.
    pub open spec fn wf(self) -> bool {
        &&& forall|i: int, j: int|
            0 <= i < j < self.jury_fees_owed.len() ==> !(self.jury_fees_owed[i].round
                == self.jury_fees_owed[j].round && self.jury_fees_owed[i].juror
                == self.jury_fees_owed[j].juror)
        &&& forall|i: int, j: int|
            0 <= i < j < self.juror_rewards.len() ==> self.juror_rewards[i].juror
                != self.juror_rewards[j].juror
    }
}

/// The dispute controller: the disputes and their financial records.
pub struct Pallet {
    /// What the arbitration is configured with.
    pub config: Config,
    /// The dispute of each project that has one.
    pub disputes: HashMap<ProjectId, DisputeInfo>,
    /// The financial records of each dispute that is not settled.
    pub finances: HashMap<ProjectId, Finances>,
}

/// The dispute controller as contracts see it.
pub struct ArbitrationView {
    pub config: Config,
    pub disputes: Map<ProjectId, DisputeView>,
    pub finances: Map<ProjectId, FinancesView>,
}

impl View for Pallet {
    type V = ArbitrationView;

    open spec fn view(&self) -> ArbitrationView {
        ArbitrationView {
            config: self.config,
            disputes: self.disputes@.map_values(|d: DisputeInfo| d@),
            finances: self.finances@.map_values(|f: Finances| f@),
        }
    }
}

/// The account that `frame_support` derives for a pallet identifier where accounts
/// are 64-bit numbers: the bytes `modl` and the first four bytes of the identifier,
/// lowest first.
pub open spec fn spec_pallet_account(pallet_id: Seq<u8>) -> AccountId {
    (0x6c64_6f6d + pallet_id[0] * 0x1_0000_0000 + pallet_id[1] * 0x100_0000_0000 + pallet_id[2]
        * 0x1_0000_0000_0000 + pallet_id[3] * 0x100_0000_0000_0000) as AccountId
}

/// `AccountIdConversion::into_sub_account_truncating` of a `PalletId`, with an empty
/// sub-seed: the encoding of `modl`, the identifier and the seed, cut to the eight
/// bytes of an account and read lowest byte first.
#[verifier::external_body]
pub(crate) fn pallet_account(pallet_id: [u8; 8]) -> (account: AccountId)
    ensures
        account == spec_pallet_account(pallet_id@),
{
    PalletId(pallet_id).into_sub_account_truncating(())
}

impl ArbitrationView {
    /// The account that holds what the arbitration collects.
    pub open spec fn account_id(self) -> AccountId {
        spec_pallet_account(self.config.pallet_id@)
    }

    /// The cost of the arbitration of a project so far; nothing without a record.
    pub open spec fn total_arbitration_costs(self, project_id: ProjectId) -> Balance {
        if self.finances.contains_key(project_id) {
            self.finances[project_id].arbitration_cost
        } else {
            0
        }
    }

    /// What a juror has earned on a project so far; nothing without a record.
    pub open spec fn jury_rewards_owed(self, project_id: ProjectId, juror: AccountId) -> Balance {
        if self.finances.contains_key(project_id) {
            self.finances[project_id].reward(juror)
        } else {
            0
        }
    }

    /// The bond of a round of the dispute about a project, if one is on record.
    pub open spec fn appeal_bond_info(self, project_id: ProjectId, round: u32) -> Option<
        (AccountId, Balance),
    > {
        if self.finances.contains_key(project_id) {
            self.finances[project_id].bond(round)
        } else {
            None
        }
    }
}

impl Pallet {
    /// A controller without disputes.
    pub fn new(config: Config) -> (pallet: Pallet)
        ensures
            pallet@.config == config,
            pallet@.disputes == Map::<ProjectId, DisputeView>::empty(),
            pallet@.finances == Map::<ProjectId, FinancesView>::empty(),
    {
        let pallet = Pallet { config, disputes: HashMap::new(), finances: HashMap::new() };
        assert(pallet@.disputes =~= Map::<ProjectId, DisputeView>::empty());
        assert(pallet@.finances =~= Map::<ProjectId, FinancesView>::empty());
        pallet
    }

    /// The dispute about a project, if there is one.
    pub fn disputes(&self, project_id: ProjectId) -> (r: Option<&DisputeInfo>)
        ensures
            match r {
                Some(dispute) => self@.disputes.contains_key(project_id) && dispute@
                    == self@.disputes[project_id],
                None => !self@.disputes.contains_key(project_id),
            },
    {
        self.disputes.get(&project_id)
    }

    /// The account that holds what the arbitration collects.
    pub fn account_id(&self) -> (account: AccountId)
        ensures
            account == self@.account_id(),
    {
        pallet_account(self.config.pallet_id)
    }

    /// The ruling as the project escrow names it.
    pub(crate) fn convert_to_project_ruling(ruling: Ruling) -> (r: crate::projects::Ruling)
        ensures
            r == (match ruling {
                Ruling::ClientWins => crate::projects::Ruling::ClientWins,
                Ruling::FreelancerWins => crate::projects::Ruling::FreelancerWins,
            }),
    {
        match ruling {
            Ruling::ClientWins => crate::projects::Ruling::ClientWins,
            Ruling::FreelancerWins => crate::projects::Ruling::FreelancerWins,
        }
    }

    /// The cost of the arbitration of a project, over all rounds so far.
    pub fn get_total_arbitration_costs(&self, project_id: ProjectId) -> (cost: Balance)
        ensures
            cost == self@.total_arbitration_costs(project_id),
    {
        match self.finances.get(&project_id) {
            Some(finances) => finances.arbitration_cost,
            None => 0,
        }
    }

    /// What a juror has earned on a project and not yet been paid.
    pub fn get_jury_rewards_owed(&self, project_id: ProjectId, juror: AccountId) -> (amount: Balance)
        ensures
            amount == self@.jury_rewards_owed(project_id, juror),
    {
        match self.finances.get(&project_id) {
            Some(finances) => {
                match find_reward(&finances.juror_rewards, juror) {
                    Some(i) => finances.juror_rewards[i].amount,
                    None => 0,
                }
            },
            None => 0,
        }
    }

    /// Who posted the bond of a round of the dispute about a project, and how much.
    pub fn get_appeal_bond_info(&self, project_id: ProjectId, round: u32) -> (bond: Option<
        (AccountId, Balance),
    >)
        ensures
            bond == self@.appeal_bond_info(project_id, round),
    {
        match self.finances.get(&project_id) {
            Some(finances) => {
                if round == 1 {
                    finances.bond_round_1
                } else if round == 2 {
                    finances.bond_round_2
                } else if round == 3 {
                    finances.bond_round_3
                } else {
                    None
                }
            },
            None => None,
        }
    }
}

/// Finds the reward of a juror among the rewards on record.
pub(crate) fn find_reward(rewards: &Vec<JurorReward>, juror: AccountId) -> (r: Option<usize>)
    ensures
        match r {
            Some(i) => first(rewards@, reward_is(juror)) == Some(i as int) && i < rewards@.len()
                && rewards@[i as int].juror == juror,
            None => first(rewards@, reward_is(juror)) is None && forall|k: int|
                0 <= k < rewards@.len() ==> rewards@[k].juror != juror,
        },
{
    let ghost p = reward_is(juror);
    let mut i: usize = 0;
    while i < rewards.len()
        invariant
            i <= rewards@.len(),
            p == reward_is(juror),
            forall|k: int| 0 <= k < i ==> !p(rewards@[k]),
        decreases rewards@.len() - i,
    {
        if rewards[i].juror == juror {
            proof {
                lemma_first(rewards@, p, i as int);
            }
            return Some(i);
        }
        i += 1;
    }
    proof {
        lemma_no_first(rewards@, p);
    }
    None
}

/// Finds what a juror is owed for a round among the fees on record.
pub(crate) fn find_fee(fees: &Vec<JuryFee>, round: u32, juror: AccountId) -> (r: Option<usize>)
    ensures
        match r {
            Some(i) => first(fees@, fee_is(round, juror)) == Some(i as int) && i < fees@.len()
                && fees@[i as int].round == round && fees@[i as int].juror == juror,
            None => first(fees@, fee_is(round, juror)) is None && forall|k: int|
                0 <= k < fees@.len() ==> !(fees@[k].round == round && fees@[k].juror == juror),
        },
{
    let ghost p = fee_is(round, juror);
    let mut i: usize = 0;
    while i < fees.len()
        invariant
            i <= fees@.len(),
            p == fee_is(round, juror),
            forall|k: int| 0 <= k < i ==> !p(fees@[k]),
        decreases fees@.len() - i,
    {
        if fees[i].round == round && fees[i].juror == juror {
            proof {
                lemma_first(fees@, p, i as int);
            }
            return Some(i);
        }
        i += 1;
    }
    proof {
        lemma_no_first(fees@, p);
    }
    None
}

} // verus!
