//! What every command of the dispute controller does, stated over the views of the
//! controller and of the ledger.

use vstd::prelude::*;
use crate::arbitration::schedule::{appeal_bond, arbitration_cost, jury_fees, MAX_ROUND};
use crate::arbitration::{
    fee_is, reward_is, seat_is, ArbitrationView, Config, DisputeStatus, DisputeView, Error, Event, FinancesView, JurorReward,
    JuryFee, Ruling, Vote,
};
use crate::bounded::{ascending, ballots_take, has_voted, with_vote, MAX_ACCOUNTS};
use crate::ledger::LedgerView;
use crate::primitives::{spec_ensure_signed, AccountId, Balance, BlockNumber, LedgerError, Origin, ProjectId};
use crate::reputation::JurorTier;
use crate::seqs::first;
use crate::{DispatchError, RuntimeEvent};

verus! {

/// The block at which a phase that began at `start` and lasts `period` blocks is over.
pub open spec fn deadline(start: BlockNumber, period: BlockNumber) -> BlockNumber {
    start.saturating_add(period)
}

/// The party that a ruling goes against.
pub open spec fn loser_of(ruling: Ruling, client: AccountId, freelancer: AccountId) -> AccountId {
    match ruling {
        Ruling::ClientWins => freelancer,
        Ruling::FreelancerWins => client,
    }
}

/// The party that a ruling goes for.
pub open spec fn winner_of(ruling: Ruling, client: AccountId, freelancer: AccountId) -> AccountId {
    match ruling {
        Ruling::ClientWins => client,
        Ruling::FreelancerWins => freelancer,
    }
}

/// The tier and the size of the jury of a round; the first round has no jury.
pub open spec fn required_jury(config: Config, round: u32) -> Option<(JurorTier, u32)> {
    if round == 2 {
        Some((JurorTier::Bronze, config.min_jurors))
    } else if round == 3 {
        Some((JurorTier::Silver, MAX_ACCOUNTS))
    } else {
        None
    }
}

/// The seats of a jury that was just selected: nobody has voted.
pub open spec fn fresh_seats(jurors: Seq<AccountId>) -> Seq<(AccountId, bool)> {
    Seq::new(jurors.len(), |i: int| (jurors[i], false))
}

/// Whether a vote goes with a ruling.
pub open spec fn with_majority(ruling: Ruling, vote: Vote) -> bool {
    match (ruling, vote) {
        (Ruling::FreelancerWins, Vote::ForFreelancer) => true,
        (Ruling::ClientWins, Vote::ForClient) => true,
        _ => false,
    }
}

/// The number of votes for one side.
pub open spec fn votes_for(cast: Seq<(AccountId, Vote)>, side: Vote) -> nat
    decreases cast.len(),
{
    if cast.len() == 0 {
        0
    } else {
        votes_for(cast.drop_last(), side) + (if cast.last().1 == side {
            1nat
        } else {
            0nat
        })
    }
}

/// The ruling that votes amount to: for the client where more votes are for the
/// client, for the freelancer otherwise, a tie included.
pub open spec fn tally(cast: Seq<(AccountId, Vote)>) -> Ruling {
    if votes_for(cast, Vote::ForFreelancer) >= votes_for(cast, Vote::ForClient) {
        Ruling::FreelancerWins
    } else {
        Ruling::ClientWins
    }
}

/// Whether a juror has a seat that is marked as having voted.
pub open spec fn has_marked_seat(jurors: Seq<(AccountId, bool)>, who: AccountId) -> bool {
    exists|j: int| 0 <= j < jurors.len() && jurors[j] == (who, true)
}

impl DisputeView {
    /// The dispute that the freelancer of a project has just opened.
    pub open spec fn opened(evidence: Seq<u8>, now: BlockNumber) -> DisputeView {
        DisputeView {
            status: DisputeStatus::AiProcessing,
            evidence_uri: evidence,
            start_block: now,
            ruling: None,
            round: 1,
            jurors: Seq::empty(),
            votes: Seq::empty(),
        }
    }

    /// The first seat of a juror, if it has one.
    pub open spec fn seat_of(self, who: AccountId) -> Option<int> {
        first(self.jurors, seat_is(who))
    }

    /// What every dispute satisfies: the round is 1, 2 or 3; a ruling stands exactly
    /// while the dispute can be appealed or is finalized; only rounds after the first
    /// are voted on; the jury is within its bound; and the votes stand in the order of
    /// their jurors, each of a juror whose seat is marked.
    pub open spec fn wf(self) -> bool {
        &&& 1 <= self.round <= MAX_ROUND
        &&& self.status != DisputeStatus::Resolved
        &&& self.ruling is None <==> (self.status == DisputeStatus::AiProcessing || self.status
            == DisputeStatus::Voting)
        &&& self.status == DisputeStatus::Voting ==> self.round >= 2
        &&& self.jurors.len() <= MAX_ACCOUNTS
        &&& ascending(self.votes)
        &&& forall|i: int|
            0 <= i < self.votes.len() ==> has_marked_seat(self.jurors, (#[trigger] self.votes[i]).0)
    }

    /// Why a vote cannot be cast, if it cannot.
    pub open spec fn cast_vote_error(self, juror: AccountId) -> Option<Error> {
        if self.status != DisputeStatus::Voting {
            Some(Error::InvalidStatus)
        } else {
            match self.seat_of(juror) {
                None => Some(Error::NotJuror),
                Some(seat) => if self.jurors[seat].1 {
                    Some(Error::AlreadyVoted)
                } else if !ballots_take(self.votes, juror) {
                    Some(Error::NotEnoughJurors)
                } else {
                    None
                },
            }
        }
    }

    /// The dispute after a juror that can vote has voted.
    pub open spec fn cast_vote(self, juror: AccountId, vote: Vote) -> DisputeView {
        DisputeView {
            votes: with_vote(self.votes, juror, vote),
            jurors: self.jurors.update(self.seat_of(juror).unwrap(), (juror, true)),
            ..self
        }
    }

    /// The dispute after its first ruling.
    pub open spec fn ruled(self, ruling: Ruling, now: BlockNumber) -> DisputeView {
        DisputeView {
            ruling: Some(ruling),
            status: DisputeStatus::Appealable,
            start_block: now,
            ..self
        }
    }
}

impl FinancesView {
    /// The records of a dispute that was just opened with that bond, for a project
    /// with that budget.
    pub open spec fn opened(appellant: AccountId, bond: Balance, cost: Balance) -> FinancesView {
        FinancesView {
            arbitration_cost: cost,
            bond_round_1: Some((appellant, bond)),
            bond_round_2: None,
            bond_round_3: None,
            jury_fees_owed: Seq::empty(),
            juror_rewards: Seq::empty(),
        }
    }
}

impl ArbitrationView {
    /// What every controller satisfies: each of its disputes does.
    pub open spec fn wf(self) -> bool {
        forall|project_id: ProjectId| #[trigger]
            self.disputes.contains_key(project_id) ==> self.disputes[project_id].wf()
    }

    /// The controller with the dispute about one project replaced.
    pub open spec fn with_dispute(self, project_id: ProjectId, dispute: DisputeView) -> ArbitrationView {
        ArbitrationView { disputes: self.disputes.insert(project_id, dispute), ..self }
    }

    /// The controller with the financial records of one project replaced.
    pub open spec fn with_finances(self, project_id: ProjectId, finances: FinancesView) -> ArbitrationView {
        ArbitrationView { finances: self.finances.insert(project_id, finances), ..self }
    }

    /// Why a dispute cannot be opened, if it cannot: the sender has to be the
    /// freelancer of a project without a dispute and able to reserve the bond.
    pub open spec fn create_dispute_error(
        self,
        ledger: LedgerView,
        origin: Origin,
        project_id: ProjectId,
        freelancer: AccountId,
        budget: Balance,
    ) -> Option<DispatchError> {
        match spec_ensure_signed(origin) {
            Err(e) => Some(e),
            Ok(who) => if self.disputes.contains_key(project_id) {
                Some(DispatchError::Arbitration(Error::DisputeAlreadyExists))
            } else if who != freelancer {
                Some(DispatchError::Arbitration(Error::NotAuthorized))
            } else if !ledger.can_withdraw(who, appeal_bond(self.config, budget, 1).unwrap()) {
                Some(DispatchError::Ledger(LedgerError::InsufficientBalance))
            } else {
                None
            },
        }
    }

    /// The controller after the freelancer of a project opened a dispute about it.
    pub open spec fn create_dispute(
        self,
        freelancer: AccountId,
        project_id: ProjectId,
        evidence: Seq<u8>,
        budget: Balance,
        now: BlockNumber,
    ) -> ArbitrationView {
        self.with_dispute(project_id, DisputeView::opened(evidence, now)).with_finances(
            project_id,
            FinancesView::opened(
                freelancer,
                appeal_bond(self.config, budget, 1).unwrap(),
                arbitration_cost(budget, 1).unwrap(),
            ),
        )
    }

    /// Why a first ruling cannot be submitted, if it cannot: only the oracle may, and
    /// only while the dispute waits for it.
    pub open spec fn submit_ruling_error(self, origin: Origin, project_id: ProjectId) -> Option<
        DispatchError,
    > {
        if origin != self.config.ai_oracle {
            Some(DispatchError::BadOrigin)
        } else if !self.disputes.contains_key(project_id) {
            Some(DispatchError::Arbitration(Error::DisputeNotFound))
        } else if self.disputes[project_id].status != DisputeStatus::AiProcessing {
            Some(DispatchError::Arbitration(Error::InvalidStatus))
        } else {
            None
        }
    }

    /// Why a vote cannot be cast, if it cannot.
    pub open spec fn cast_vote_error(self, origin: Origin, project_id: ProjectId) -> Option<
        DispatchError,
    > {
        match spec_ensure_signed(origin) {
            Err(e) => Some(e),
            Ok(juror) => if !self.disputes.contains_key(project_id) {
                Some(DispatchError::Arbitration(Error::DisputeNotFound))
            } else {
                match self.disputes[project_id].cast_vote_error(juror) {
                    Some(e) => Some(DispatchError::Arbitration(e)),
                    None => None,
                }
            },
        }
    }
}

/// The fees on record after one more was recorded: in place of the one that its juror
/// had for its round, or behind all others.
pub open spec fn with_fee(fees: Seq<JuryFee>, fee: JuryFee) -> Seq<JuryFee> {
    match first(fees, fee_is(fee.round, fee.juror)) {
        Some(i) => fees.update(i, fee),
        None => fees.push(fee),
    }
}

/// The fees on record after every juror of a round was recorded with the fee and the
/// bonus of the round.
pub open spec fn with_fees(
    fees: Seq<JuryFee>,
    round: u32,
    jurors: Seq<AccountId>,
    base_fee: Balance,
    performance_bonus: Balance,
) -> Seq<JuryFee>
    decreases jurors.len(),
{
    if jurors.len() == 0 {
        fees
    } else {
        with_fee(
            with_fees(fees, round, jurors.drop_last(), base_fee, performance_bonus),
            JuryFee { round, juror: jurors.last(), base_fee, performance_bonus },
        )
    }
}

/// The rewards on record after a juror earned `amount` more.
pub open spec fn with_reward(rewards: Seq<JurorReward>, juror: AccountId, amount: Balance) -> Seq<
    JurorReward,
> {
    match first(rewards, reward_is(juror)) {
        Some(i) => rewards.update(
            i,
            JurorReward { juror, amount: rewards[i].amount.saturating_add(amount) },
        ),
        None => rewards.push(JurorReward { juror, amount }),
    }
}

impl FinancesView {
    /// The records of a dispute of which nothing is on record.
    pub open spec fn empty() -> FinancesView {
        FinancesView {
            arbitration_cost: 0,
            bond_round_1: None,
            bond_round_2: None,
            bond_round_3: None,
            jury_fees_owed: Seq::empty(),
            juror_rewards: Seq::empty(),
        }
    }

    /// The records with the bond of a round replaced; only the rounds 1, 2 and 3 have
    /// a bond.
    pub open spec fn with_bond(self, round: u32, appellant: AccountId, amount: Balance) -> FinancesView {
        if round == 1 {
            FinancesView { bond_round_1: Some((appellant, amount)), ..self }
        } else if round == 2 {
            FinancesView { bond_round_2: Some((appellant, amount)), ..self }
        } else if round == 3 {
            FinancesView { bond_round_3: Some((appellant, amount)), ..self }
        } else {
            self
        }
    }

    /// The records after a round was appealed to: the bond of the round, its cost added
    /// to the cost so far, and what each juror of the round is owed.
    pub open spec fn appealed(
        self,
        round: u32,
        appellant: AccountId,
        bond: Balance,
        cost: Balance,
        jurors: Seq<AccountId>,
        fees: (Balance, Balance),
    ) -> FinancesView {
        let with_bond = self.with_bond(round, appellant, bond);
        FinancesView {
            arbitration_cost: self.arbitration_cost.saturating_add(cost),
            jury_fees_owed: with_fees(self.jury_fees_owed, round, jurors, fees.0, fees.1),
            ..with_bond
        }
    }

    /// The rewards after one vote of a round was rewarded: the fee of the juror, and
    /// its bonus where the vote went with the ruling.
    pub open spec fn rewarded_once(
        self,
        rewards: Seq<JurorReward>,
        round: u32,
        ruling: Ruling,
        ballot: (AccountId, Vote),
    ) -> Seq<JurorReward> {
        let owed = self.fee(round, ballot.0);
        let based = with_reward(rewards, ballot.0, owed.0);
        if with_majority(ruling, ballot.1) {
            with_reward(based, ballot.0, owed.1)
        } else {
            based
        }
    }

    /// The rewards after the votes of a round were rewarded, vote by vote.
    pub open spec fn rewarded(self, round: u32, ruling: Ruling, cast: Seq<(AccountId, Vote)>) -> Seq<
        JurorReward,
    >
        decreases cast.len(),
    {
        if cast.len() == 0 {
            self.juror_rewards
        } else {
            self.rewarded_once(
                self.rewarded(round, ruling, cast.drop_last()),
                round,
                ruling,
                cast.last(),
            )
        }
    }

    /// What the rewarding of one vote reports.
    pub open spec fn reward_events_once(
        self,
        project_id: ProjectId,
        round: u32,
        ruling: Ruling,
        ballot: (AccountId, Vote),
    ) -> Seq<RuntimeEvent> {
        let owed = self.fee(round, ballot.0);
        let base = RuntimeEvent::Arbitration(
            Event::JurorBaseFeeAwarded { project_id, juror: ballot.0, amount: owed.0 },
        );
        if with_majority(ruling, ballot.1) {
            seq![
                base,
                RuntimeEvent::Arbitration(
                    Event::JurorPerformanceBonusAwarded { project_id, juror: ballot.0, amount: owed.1 },
                ),
            ]
        } else {
            seq![base]
        }
    }

    /// What the rewarding of the votes of a round reports, vote by vote.
    pub open spec fn reward_events(
        self,
        project_id: ProjectId,
        round: u32,
        ruling: Ruling,
        cast: Seq<(AccountId, Vote)>,
    ) -> Seq<RuntimeEvent>
        decreases cast.len(),
    {
        if cast.len() == 0 {
            Seq::empty()
        } else {
            self.reward_events(project_id, round, ruling, cast.drop_last()) + self.reward_events_once(
                project_id,
                round,
                ruling,
                cast.last(),
            )
        }
    }
}

impl DisputeView {
    /// The dispute after an appeal to the next round, with its jury seated.
    pub open spec fn appealed(self, evidence: Seq<u8>, jurors: Seq<AccountId>, now: BlockNumber) -> DisputeView {
        DisputeView {
            round: self.round.saturating_add(1),
            status: DisputeStatus::Voting,
            jurors: fresh_seats(jurors),
            votes: Seq::empty(),
            ruling: None,
            start_block: now,
            evidence_uri: evidence,
        }
    }

    /// The dispute after the votes of its round were counted.
    pub open spec fn round_closed(self, now: BlockNumber) -> DisputeView {
        DisputeView {
            ruling: Some(tally(self.votes)),
            status: DisputeStatus::Appealable,
            start_block: now,
            ..self
        }
    }

    /// The dispute after its last ruling was enforced.
    pub open spec fn finalized(self) -> DisputeView {
        DisputeView { status: DisputeStatus::Finalized, ..self }
    }
}

impl ArbitrationView {
    /// The financial records of a project; empty ones where nothing is on record.
    pub open spec fn finances_of(self, project_id: ProjectId) -> FinancesView {
        if self.finances.contains_key(project_id) {
            self.finances[project_id]
        } else {
            FinancesView::empty()
        }
    }

    /// Why a ruling cannot be appealed, whatever jury the registry offers, if it cannot:
    /// the ruling has to stand and be within its appeal period, the sender has to be
    /// the party that it goes against and able to reserve the bond, and there has to
    /// be a next round.
    pub open spec fn appeal_error_before_selection(
        self,
        ledger: LedgerView,
        origin: Origin,
        project_id: ProjectId,
        parties: (AccountId, AccountId),
        budget: Balance,
        now: BlockNumber,
    ) -> Option<DispatchError> {
        match spec_ensure_signed(origin) {
            Err(e) => Some(e),
            Ok(appellant) => if !self.disputes.contains_key(project_id) {
                Some(DispatchError::Arbitration(Error::DisputeNotFound))
            } else {
                let dispute = self.disputes[project_id];
                let next_round = dispute.round.saturating_add(1);
                if dispute.status != DisputeStatus::Appealable {
                    Some(DispatchError::Arbitration(Error::InvalidStatus))
                } else if !(now < deadline(dispute.start_block, self.config.appeal_period)) {
                    Some(DispatchError::Arbitration(Error::AppealPeriodExpired))
                } else if dispute.ruling is None {
                    Some(DispatchError::Arbitration(Error::InvalidStatus))
                } else if appellant != loser_of(dispute.ruling.unwrap(), parties.0, parties.1) {
                    Some(DispatchError::Arbitration(Error::NotLosingParty))
                } else if next_round > MAX_ROUND {
                    Some(DispatchError::Arbitration(Error::MaxAppealsReached))
                } else if !ledger.can_withdraw(
                    appellant,
                    appeal_bond(self.config, budget, next_round).unwrap(),
                ) {
                    Some(DispatchError::Ledger(LedgerError::InsufficientBalance))
                } else if required_jury(self.config, next_round) is None {
                    Some(DispatchError::Arbitration(Error::InvalidRound))
                } else {
                    None
                }
            },
        }
    }

    /// Why a ruling cannot be appealed with the jury that the registry offers, if it
    /// cannot: as before the selection, and the jury has to be of the size of the
    /// round.
    pub open spec fn appeal_ruling_error(
        self,
        ledger: LedgerView,
        origin: Origin,
        project_id: ProjectId,
        parties: (AccountId, AccountId),
        budget: Balance,
        jurors: Seq<AccountId>,
        now: BlockNumber,
    ) -> Option<DispatchError> {
        match self.appeal_error_before_selection(ledger, origin, project_id, parties, budget, now) {
            Some(e) => Some(e),
            None => if jurors.len() < required_jury(
                self.config,
                self.disputes[project_id].round.saturating_add(1),
            ).unwrap().1 {
                Some(DispatchError::Arbitration(Error::NotEnoughJurors))
            } else {
                None
            },
        }
    }

    /// The controller after a ruling was appealed.
    pub open spec fn appeal_ruling(
        self,
        appellant: AccountId,
        project_id: ProjectId,
        evidence: Seq<u8>,
        budget: Balance,
        jurors: Seq<AccountId>,
        now: BlockNumber,
    ) -> ArbitrationView {
        let next_round = self.disputes[project_id].round.saturating_add(1);
        self.with_finances(
            project_id,
            self.finances_of(project_id).appealed(
                next_round,
                appellant,
                appeal_bond(self.config, budget, next_round).unwrap(),
                arbitration_cost(budget, next_round).unwrap(),
                jurors,
                jury_fees(budget, next_round).unwrap(),
            ),
        ).with_dispute(project_id, self.disputes[project_id].appealed(evidence, jurors, now))
    }

    /// What an appeal reports.
    pub open spec fn appeal_ruling_events(self, appellant: AccountId, project_id: ProjectId, budget: Balance) -> Seq<
        RuntimeEvent,
    > {
        let next_round = self.disputes[project_id].round.saturating_add(1);
        seq![
            RuntimeEvent::Arbitration(
                Event::AppealStarted {
                    project_id,
                    appellant,
                    bond: appeal_bond(self.config, budget, next_round).unwrap(),
                },
            ),
            RuntimeEvent::Arbitration(
                Event::ArbitrationCostReserved {
                    project_id,
                    amount: arbitration_cost(budget, next_round).unwrap(),
                },
            ),
        ]
    }

    /// Why the votes of a round cannot be counted, if they cannot: a jury has to be
    /// voting, and its voting period has to be over.
    pub open spec fn finalize_round_error(self, origin: Origin, project_id: ProjectId, now: BlockNumber) -> Option<
        DispatchError,
    > {
        match spec_ensure_signed(origin) {
            Err(e) => Some(e),
            Ok(_) => if !self.disputes.contains_key(project_id) {
                Some(DispatchError::Arbitration(Error::DisputeNotFound))
            } else if self.disputes[project_id].status != DisputeStatus::Voting {
                Some(DispatchError::Arbitration(Error::InvalidStatus))
            } else if now < deadline(
                self.disputes[project_id].start_block,
                self.config.voting_period,
            ) {
                Some(DispatchError::Arbitration(Error::VotingPeriodNotOver))
            } else {
                None
            },
        }
    }

    /// The controller after the votes of a round were counted and rewarded.
    pub open spec fn finalize_round(self, project_id: ProjectId, now: BlockNumber) -> ArbitrationView {
        let dispute = self.disputes[project_id];
        let finances = self.finances_of(project_id);
        self.with_finances(
            project_id,
            FinancesView {
                juror_rewards: finances.rewarded(dispute.round, tally(dispute.votes), dispute.votes),
                ..finances
            },
        ).with_dispute(project_id, dispute.round_closed(now))
    }

    /// What the rewarding of the votes of a round reports.
    pub open spec fn finalize_round_rewards(self, project_id: ProjectId) -> Seq<RuntimeEvent> {
        let dispute = self.disputes[project_id];
        self.finances_of(project_id).reward_events(
            project_id,
            dispute.round,
            tally(dispute.votes),
            dispute.votes,
        )
    }
}

/// Setting the vote of a juror keeps ascending votes ascending, gives the juror that
/// vote, and keeps every other vote as it was.
pub proof fn lemma_with_vote(cast: Seq<(AccountId, Vote)>, who: AccountId, vote: Vote)
    requires
        ascending(cast),
    ensures
        ascending(with_vote(cast, who, vote)),
        has_voted(with_vote(cast, who, vote), who),
        forall|other: AccountId|
            other != who ==> (has_voted(with_vote(cast, who, vote), other) <==> has_voted(cast, other)),
        with_vote(cast, who, vote).len() == (if has_voted(cast, who) {
            cast.len()
        } else {
            cast.len() + 1
        }),
        forall|i: int|
            0 <= i < with_vote(cast, who, vote).len() ==> (#[trigger] with_vote(cast, who, vote)[i]).0
                == who || has_voted(cast, with_vote(cast, who, vote)[i].0),
{
    let next = with_vote(cast, who, vote);
    if has_voted(cast, who) {
        let p = crate::bounded::place_of(cast, who);
        assert(next[p].0 == who);
        assert forall|other: AccountId| other != who implies (has_voted(next, other) <==> has_voted(
            cast,
            other,
        )) by {
            if has_voted(cast, other) {
                let i = choose|i: int| 0 <= i < cast.len() && cast[i].0 == other;
                assert(next[i].0 == other);
            }
            if has_voted(next, other) {
                let i = choose|i: int| 0 <= i < next.len() && next[i].0 == other;
                assert(cast[i].0 == other);
            }
        }
        assert forall|i: int| 0 <= i < next.len() implies (#[trigger] next[i]).0 == who || has_voted(
            cast,
            next[i].0,
        ) by {
            if i != p {
                assert(cast[i].0 == next[i].0);
            }
        }
    } else {
        let p = crate::bounded::lower_bound(cast, who);
        lemma_lower_bound(cast, who);
        assert(next[p].0 == who);
        assert forall|i: int, j: int| 0 <= i < j < next.len() implies next[i].0 < next[j].0 by {
            if i < p && j > p {
                assert(next[i] == cast[i]);
                assert(next[j] == cast[j - 1]);
            } else if i < p && j < p {
                assert(next[i] == cast[i] && next[j] == cast[j]);
            } else if i > p {
                assert(next[i] == cast[i - 1] && next[j] == cast[j - 1]);
            } else if i == p {
                assert(next[j] == cast[j - 1]);
                assert(cast[j - 1].0 != who);
            } else {
                assert(next[i] == cast[i]);
            }
        }
        assert forall|other: AccountId| other != who implies (has_voted(next, other) <==> has_voted(
            cast,
            other,
        )) by {
            if has_voted(cast, other) {
                let i = choose|i: int| 0 <= i < cast.len() && cast[i].0 == other;
                if i < p {
                    assert(next[i].0 == other);
                } else {
                    assert(next[i + 1].0 == other);
                }
            }
            if has_voted(next, other) {
                let i = choose|i: int| 0 <= i < next.len() && next[i].0 == other;
                if i < p {
                    assert(cast[i].0 == other);
                } else {
                    assert(cast[i - 1].0 == other);
                }
            }
        }
        assert forall|i: int| 0 <= i < next.len() implies (#[trigger] next[i]).0 == who || has_voted(
            cast,
            next[i].0,
        ) by {
            if i < p {
                assert(cast[i].0 == next[i].0);
            } else if i > p {
                assert(cast[i - 1].0 == next[i].0);
            }
        }
    }
}

/// In ascending votes, the votes before the lower bound of a juror are of jurors below
/// it, and the votes from there on are of jurors not below it.
pub proof fn lemma_lower_bound(cast: Seq<(AccountId, Vote)>, who: AccountId)
    requires
        ascending(cast),
    ensures
        0 <= crate::bounded::lower_bound(cast, who) <= cast.len(),
        forall|i: int| 0 <= i < crate::bounded::lower_bound(cast, who) ==> cast[i].0 < who,
        forall|i: int| crate::bounded::lower_bound(cast, who) <= i < cast.len() ==> cast[i].0 >= who,
    decreases cast.len(),
{
    if cast.len() > 0 {
        let rest = cast.drop_last();
        let last = cast.len() - 1;
        assert forall|i: int| 0 <= i < last implies cast[i].0 < cast[last].0 by {}
        if cast.last().0 < who {
        } else {
            assert(ascending(rest)) by {
                assert forall|i: int, j: int| 0 <= i < j < rest.len() implies rest[i].0 < rest[j].0 by {
                    assert(rest[i] == cast[i] && rest[j] == cast[j]);
                }
            }
            lemma_lower_bound(rest, who);
            assert forall|i: int| 0 <= i < crate::bounded::lower_bound(cast, who) implies cast[i].0
                < who by {
                assert(rest[i] == cast[i]);
            }
            assert forall|i: int|
                crate::bounded::lower_bound(cast, who) <= i < cast.len() implies cast[i].0 >= who by {
                if i < last {
                    assert(rest[i] == cast[i]);
                }
            }
        }
    }
}

/// A dispute with the seats and the votes of a dispute that is as every dispute is,
/// is so too, if its round, its status and its ruling fit together.
pub proof fn lemma_wf_same_votes(before: DisputeView, after: DisputeView)
    requires
        before.wf(),
        after.jurors == before.jurors,
        after.votes == before.votes,
        1 <= after.round <= MAX_ROUND,
        after.status != DisputeStatus::Resolved,
        after.ruling is None <==> (after.status == DisputeStatus::AiProcessing || after.status
            == DisputeStatus::Voting),
        after.status == DisputeStatus::Voting ==> after.round >= 2,
    ensures
        after.wf(),
{
    assert forall|i: int| 0 <= i < after.votes.len() implies has_marked_seat(
        after.jurors,
        (#[trigger] after.votes[i]).0,
    ) by {
        assert(has_marked_seat(before.jurors, before.votes[i].0));
    }
}

/// A vote that can be cast leaves a dispute as every dispute is.
pub proof fn lemma_cast_vote_wf(dispute: DisputeView, juror: AccountId, vote: Vote)
    requires
        dispute.cast_vote_error(juror) is None,
    ensures
        dispute.wf() ==> dispute.cast_vote(juror, vote).wf(),
{
    if dispute.wf() {
        let next = dispute.cast_vote(juror, vote);
        let seat = dispute.seat_of(juror).unwrap();
        crate::seqs::lemma_first_is_first(dispute.jurors, seat_is(juror));
        lemma_with_vote(dispute.votes, juror, vote);
        assert forall|i: int| 0 <= i < next.votes.len() implies has_marked_seat(
            next.jurors,
            (#[trigger] next.votes[i]).0,
        ) by {
            if next.votes[i].0 == juror {
                assert(next.jurors[seat] == (juror, true));
            } else {
                assert(has_voted(dispute.votes, next.votes[i].0));
                let k = choose|k: int|
                    0 <= k < dispute.votes.len() && dispute.votes[k].0 == next.votes[i].0;
                assert(has_marked_seat(dispute.jurors, dispute.votes[k].0));
                let j = choose|j: int|
                    0 <= j < dispute.jurors.len() && dispute.jurors[j] == (dispute.votes[k].0, true);
                assert(next.jurors[j] == (next.votes[i].0, true));
            }
        }
    }
}

} // verus!
