//! The commands of the dispute controller as senders issue them: each asks the project
//! escrow and the juror registry what it needs to know, and then does what the
//! command of the same kind does that is handed the answers.
//!
//! What the escrow and the registry answer is theirs to decide. A command that they
//! make fail leaves the controller and the ledger as they were; what they have done
//! to themselves before they failed is theirs to undo.

use vstd::prelude::*;
use crate::arbitration::model::{deadline, loser_of, required_jury, tally};
use crate::arbitration::schedule::{
    appeal_bond, arbitration_cost, bond_for, cost_for, fees_for, jury_fees, MAX_ROUND,
};
use crate::arbitration::control::voted_with_majority;
use crate::arbitration::{ArbitrationView, DisputeStatus, Error, Event, Pallet, Ruling};
use crate::bounded::{account_list_items, account_list_len, uri_bytes, Uri};
use crate::ledger::{Ledger, LedgerView};
use crate::primitives::{ensure_signed, spec_ensure_signed, AccountId, Balance, BlockNumber, LedgerError, Origin, ProjectId};
use crate::projects::Arbitrable;
use crate::reputation::interface::ReputationInterface;
use crate::{DispatchError, RuntimeEvent};

verus! {

impl ArbitrationView {
    /// Why a dispute cannot be opened, if it cannot, where the project escrow answers
    /// as given when it is asked for the parties and the budget of the project and,
    /// last of all, to mark the project as in dispute. What the escrow refuses is
    /// refused with its error.
    pub open spec fn create_dispute_refusal(
        self,
        ledger: LedgerView,
        origin: Origin,
        project_id: ProjectId,
        parties: Result<(AccountId, AccountId), DispatchError>,
        budget: Result<Balance, DispatchError>,
        marking: Option<DispatchError>,
    ) -> Option<DispatchError> {
        match spec_ensure_signed(origin) {
            Err(e) => Some(e),
            Ok(who) => if self.disputes.contains_key(project_id) {
                Some(DispatchError::Arbitration(Error::DisputeAlreadyExists))
            } else {
                match parties {
                    Err(e) => Some(e),
                    Ok(parties) => if who != parties.1 {
                        Some(DispatchError::Arbitration(Error::NotAuthorized))
                    } else {
                        match budget {
                            Err(e) => Some(e),
                            Ok(budget) => match self.create_dispute_error(
                                ledger,
                                origin,
                                project_id,
                                parties.1,
                                budget,
                            ) {
                                Some(e) => Some(e),
                                None => marking,
                            },
                        }
                    },
                }
            },
        }
    }

    /// Whether a controller, a ledger and a report are what the opening of a dispute
    /// leaves, for a project with those parties and that budget.
    pub open spec fn opened_dispute(
        self,
        ledger: LedgerView,
        origin: Origin,
        project_id: ProjectId,
        evidence: Seq<u8>,
        now: BlockNumber,
        parties: (AccountId, AccountId),
        budget: Balance,
        after: ArbitrationView,
        ledger_after: LedgerView,
        events: Seq<RuntimeEvent>,
    ) -> bool {
        &&& self.create_dispute_error(ledger, origin, project_id, parties.1, budget) is None
        &&& after == self.create_dispute(parties.1, project_id, evidence, budget, now)
        &&& ledger_after == ledger.reserve(parties.1, appeal_bond(self.config, budget, 1).unwrap())
        &&& events == seq![
            RuntimeEvent::Arbitration(Event::DisputeCreated { project_id, who: parties.1 }),
        ]
    }

    /// Whether a controller, a ledger and a report are what an appeal leaves, for a
    /// project with those parties and that budget and with that jury.
    pub open spec fn appealed_ruling(
        self,
        ledger: LedgerView,
        origin: Origin,
        project_id: ProjectId,
        evidence: Seq<u8>,
        now: BlockNumber,
        parties: (AccountId, AccountId),
        budget: Balance,
        jurors: Seq<AccountId>,
        after: ArbitrationView,
        ledger_after: LedgerView,
        events: Seq<RuntimeEvent>,
    ) -> bool {
        &&& spec_ensure_signed(origin) matches Ok(appellant)
        &&& self.appeal_ruling_error(ledger, origin, project_id, parties, budget, jurors, now) is None
        &&& after == self.appeal_ruling(appellant, project_id, evidence, budget, jurors, now)
        &&& ledger_after == ledger.reserve(
            appellant,
            appeal_bond(self.config, budget, self.disputes[project_id].round.saturating_add(1)).unwrap(),
        )
        &&& events == self.appeal_ruling_events(appellant, project_id, budget)
    }
}

impl ArbitrationView {
    /// The jury that a registry selects when it is asked for the jury of the next round
    /// of a dispute between two parties, neither of whom may sit on it.
    pub open spec fn jury_offered<R: ReputationInterface>(
        self,
        reputation: R,
        project_id: ProjectId,
        parties: (AccountId, AccountId),
    ) -> Seq<AccountId> {
        match required_jury(self.config, self.disputes[project_id].round.saturating_add(1)) {
            Some(required) => reputation.eligible_answer(
                required.0,
                seq![parties.0, parties.1],
                required.1,
            ),
            None => Seq::empty(),
        }
    }

    /// Why the last ruling cannot be enforced, if it cannot be even before the project
    /// escrow is asked to carry it out: the ruling has to stand, its appeal period has
    /// to be over, and the escrow, which is asked then, has to name the parties. What
    /// the escrow refuses is refused with its error.
    pub open spec fn enforce_refusal_before_ruling(
        self,
        origin: Origin,
        project_id: ProjectId,
        parties: Result<(AccountId, AccountId), DispatchError>,
        now: BlockNumber,
    ) -> Option<DispatchError> {
        match spec_ensure_signed(origin) {
            Err(e) => Some(e),
            Ok(_) => if !self.disputes.contains_key(project_id) {
                Some(DispatchError::Arbitration(Error::DisputeNotFound))
            } else if self.disputes[project_id].status != DisputeStatus::Appealable {
                Some(DispatchError::Arbitration(Error::InvalidStatus))
            } else if now < deadline(self.disputes[project_id].start_block, self.config.appeal_period) {
                Some(DispatchError::Arbitration(Error::AppealPeriodExpired))
            } else {
                match parties {
                    Err(e) => Some(e),
                    Ok(_) => if self.disputes[project_id].ruling is None {
                        Some(DispatchError::Arbitration(Error::InvalidStatus))
                    } else {
                        None
                    },
                }
            },
        }
    }

    /// Why a ruling cannot be appealed, if it cannot, where the project escrow answers
    /// as given when it is asked for the parties and the budget of the project, and
    /// the registry selects the jury. The escrow is asked for the parties once the
    /// ruling is known to stand and to be within its appeal period, and for the budget
    /// once the sender is known to be the party that lost and a next round is known
    /// to be left. What the escrow refuses is refused with its error.
    pub open spec fn appeal_refusal<R: ReputationInterface>(
        self,
        ledger: LedgerView,
        origin: Origin,
        project_id: ProjectId,
        parties: Result<(AccountId, AccountId), DispatchError>,
        budget: Result<Balance, DispatchError>,
        reputation: R,
        now: BlockNumber,
    ) -> Option<DispatchError> {
        match spec_ensure_signed(origin) {
            Err(e) => Some(e),
            Ok(appellant) => if !self.disputes.contains_key(project_id) {
                Some(DispatchError::Arbitration(Error::DisputeNotFound))
            } else {
                let dispute = self.disputes[project_id];
                if dispute.status != DisputeStatus::Appealable {
                    Some(DispatchError::Arbitration(Error::InvalidStatus))
                } else if !(now < deadline(dispute.start_block, self.config.appeal_period)) {
                    Some(DispatchError::Arbitration(Error::AppealPeriodExpired))
                } else {
                    match parties {
                        Err(e) => Some(e),
                        Ok(parties) => if dispute.ruling is None {
                            Some(DispatchError::Arbitration(Error::InvalidStatus))
                        } else if appellant != loser_of(dispute.ruling.unwrap(), parties.0, parties.1) {
                            Some(DispatchError::Arbitration(Error::NotLosingParty))
                        } else if dispute.round.saturating_add(1) > MAX_ROUND {
                            Some(DispatchError::Arbitration(Error::MaxAppealsReached))
                        } else {
                            match budget {
                                Err(e) => Some(e),
                                Ok(budget) => self.appeal_ruling_error(
                                    ledger,
                                    origin,
                                    project_id,
                                    parties,
                                    budget,
                                    self.jury_offered(reputation, project_id, parties),
                                    now,
                                ),
                            }
                        },
                    }
                }
            },
        }
    }
}

impl Pallet {
    /// The cost of the arbitration of a round of the dispute about a project: the
    /// round's share of the budget that the project escrow names. What the escrow
    /// refuses is refused with its error, and a round without a cost as an invalid
    /// round.
    pub fn calculate_arbitration_cost<A: Arbitrable>(projects: &A, project_id: &ProjectId, round: u32) -> (r:
        Result<Balance, DispatchError>)
        ensures
            r == match projects.budget_answer(*project_id) {
                Ok(budget) => match arbitration_cost(budget, round) {
                    Some(cost) => Ok(cost),
                    None => Err(DispatchError::Arbitration(Error::InvalidRound)),
                },
                Err(e) => Err(e),
            },
    {
        let project_budget = match projects.get_project_budget(*project_id) {
            Ok(budget) => budget,
            Err(e) => {
                return Err(e);
            },
        };
        match cost_for(project_budget, round) {
            Ok(cost) => {
                Ok(cost)
            },
            Err(e) => Err(DispatchError::Arbitration(e)),
        }
    }

    /// The bond of a round of the dispute about a project: the round's share of the
    /// budget that the project escrow names, and the least bond of the round where
    /// that is more. What the escrow refuses is refused with its error, and a round
    /// without a bond as an invalid round.
    pub fn calculate_appeal_bond<A: Arbitrable>(&self, projects: &A, project_id: &ProjectId, round: u32) -> (r:
        Result<Balance, DispatchError>)
        ensures
            r == match projects.budget_answer(*project_id) {
                Ok(budget) => match appeal_bond(self@.config, budget, round) {
                    Some(bond) => Ok(bond),
                    None => Err(DispatchError::Arbitration(Error::InvalidRound)),
                },
                Err(e) => Err(e),
            },
    {
        let project_budget = match projects.get_project_budget(*project_id) {
            Ok(budget) => budget,
            Err(e) => {
                return Err(e);
            },
        };
        match bond_for(&self.config, project_budget, round) {
            Ok(bond) => {
                Ok(bond)
            },
            Err(e) => Err(DispatchError::Arbitration(e)),
        }
    }

    /// The bond of a round of the dispute about a project, under its older name.
    pub fn calculate_bond<A: Arbitrable>(&self, projects: &A, project_id: &ProjectId, round: u32) -> (r: Result<
        Balance,
        DispatchError,
    >)
        ensures
            r == match projects.budget_answer(*project_id) {
                Ok(budget) => match appeal_bond(self@.config, budget, round) {
                    Some(bond) => Ok(bond),
                    None => Err(DispatchError::Arbitration(Error::InvalidRound)),
                },
                Err(e) => Err(e),
            },
    {
        self.calculate_appeal_bond(projects, project_id, round)
    }

    /// What one juror of a round of the dispute about a project is owed: the fee, the
    /// round's share of the budget that the project escrow names, and the bonus. What
    /// the escrow refuses is refused with its error, and a round without a jury as an
    /// invalid round.
    pub fn calculate_jury_fees<A: Arbitrable>(projects: &A, project_id: &ProjectId, round: u32) -> (r: Result<
        (Balance, Balance),
        DispatchError,
    >)
        ensures
            r == match projects.budget_answer(*project_id) {
                Ok(budget) => match jury_fees(budget, round) {
                    Some(fees) => Ok(fees),
                    None => Err(DispatchError::Arbitration(Error::InvalidRound)),
                },
                Err(e) => Err(e),
            },
    {
        let project_budget = match projects.get_project_budget(*project_id) {
            Ok(budget) => budget,
            Err(e) => {
                return Err(e);
            },
        };
        match fees_for(project_budget, round) {
            Ok(fees) => {
                Ok(fees)
            },
            Err(e) => Err(DispatchError::Arbitration(e)),
        }
    }

    /// Opens the dispute about a project for its freelancer: asks the project escrow
    /// for the parties and the budget, has it mark the project as in dispute, reserves
    /// the bond of the first round and puts the dispute on record.
    pub fn create_dispute<A: Arbitrable>(
        &mut self,
        projects: &mut A,
        ledger: &mut Ledger,
        origin: Origin,
        project_id: ProjectId,
        evidence_uri: Uri,
        now: BlockNumber,
    ) -> (r: Result<Vec<RuntimeEvent>, DispatchError>)
        requires
            old(ledger).wf(),
        ensures
            final(ledger).wf(),
            old(self)@.wf() ==> final(self)@.wf(),
            match r {
                Ok(events) => {
                    &&& old(self)@.create_dispute_refusal(
                        old(ledger)@,
                        origin,
                        project_id,
                        old(projects).parties_answer(project_id),
                        old(projects).budget_answer(project_id),
                        old(projects).in_dispute_answer(project_id),
                    ) is None
                    &&& old(projects).parties_answer(project_id) matches Ok(parties)
                    &&& old(projects).budget_answer(project_id) matches Ok(budget)
                    &&& old(self)@.opened_dispute(
                        old(ledger)@,
                        origin,
                        project_id,
                        uri_bytes(evidence_uri),
                        now,
                        parties,
                        budget,
                        final(self)@,
                        final(ledger)@,
                        events@,
                    )
                },
                Err(e) => old(self)@.create_dispute_refusal(
                    old(ledger)@,
                    origin,
                    project_id,
                    old(projects).parties_answer(project_id),
                    old(projects).budget_answer(project_id),
                    old(projects).in_dispute_answer(project_id),
                ) == Some(e) && final(self)@ == old(self)@ && final(ledger)@ == old(ledger)@,
            },
    {
        let freelancer = match ensure_signed(origin) {
            Ok(who) => who,
            Err(e) => {
                return Err(e);
            },
        };
        if self.disputes.contains_key(&project_id) {
            return Err(DispatchError::Arbitration(Error::DisputeAlreadyExists));
        }
        let parties = match projects.get_project_parties(project_id) {
            Ok(parties) => parties,
            Err(e) => {
                return Err(e);
            },
        };
        if freelancer != parties.1 {
            return Err(DispatchError::Arbitration(Error::NotAuthorized));
        }
        let budget = match projects.get_project_budget(project_id) {
            Ok(budget) => budget,
            Err(e) => {
                return Err(e);
            },
        };
        let bond = match bond_for(&self.config, budget, 1) {
            Ok(bond) => bond,
            Err(e) => {
                return Err(DispatchError::Arbitration(e));
            },
        };
        if !ledger.can_withdraw(freelancer, bond) {
            return Err(DispatchError::Ledger(LedgerError::InsufficientBalance));
        }
        match projects.set_project_status_in_dispute(project_id) {
            Ok(_) => {},
            Err(e) => {
                return Err(e);
            },
        }
        let ghost evidence = uri_bytes(evidence_uri);
        let opened = self.open_dispute(ledger, origin, project_id, evidence_uri, parties, budget, now);
        proof {
            assert(opened is Ok);
            assert(old(self)@.opened_dispute(
                old(ledger)@,
                origin,
                project_id,
                evidence,
                now,
                parties,
                budget,
                self@,
                ledger@,
                opened->Ok_0@,
            ));
        }
        opened
    }

    /// Appeals the ruling that stands, for the party that it goes against: asks the
    /// project escrow for the parties and the budget and the juror registry for the
    /// jury of the next round, which sits neither party; reserves the bond of the
    /// round, adds its cost, records what its jurors are owed, and opens the vote.
    /// What the escrow refuses is refused with its error, and a jury smaller than the
    /// round asks for as too few jurors.
    pub fn appeal_ruling<A: Arbitrable, R: ReputationInterface>(
        &mut self,
        projects: &A,
        reputation: &mut R,
        ledger: &mut Ledger,
        origin: Origin,
        project_id: ProjectId,
        evidence_uri: Uri,
        now: BlockNumber,
    ) -> (r: Result<Vec<RuntimeEvent>, DispatchError>)
        requires
            old(ledger).wf(),
        ensures
            final(ledger).wf(),
            old(self)@.wf() ==> final(self)@.wf(),
            match r {
                Ok(events) => {
                    &&& old(self)@.appeal_refusal(
                        old(ledger)@,
                        origin,
                        project_id,
                        projects.parties_answer(project_id),
                        projects.budget_answer(project_id),
                        *old(reputation),
                        now,
                    ) is None
                    &&& projects.parties_answer(project_id) matches Ok(parties)
                    &&& projects.budget_answer(project_id) matches Ok(budget)
                    &&& old(self)@.appealed_ruling(
                        old(ledger)@,
                        origin,
                        project_id,
                        uri_bytes(evidence_uri),
                        now,
                        parties,
                        budget,
                        old(self)@.jury_offered(*old(reputation), project_id, parties),
                        final(self)@,
                        final(ledger)@,
                        events@,
                    )
                },
                Err(e) => old(self)@.appeal_refusal(
                    old(ledger)@,
                    origin,
                    project_id,
                    projects.parties_answer(project_id),
                    projects.budget_answer(project_id),
                    *old(reputation),
                    now,
                ) == Some(e) && final(self)@ == old(self)@ && final(ledger)@ == old(ledger)@,
            },
    {
        let appellant = match ensure_signed(origin) {
            Ok(who) => who,
            Err(e) => {
                return Err(e);
            },
        };
        let (ruling, round) = match self.disputes(project_id) {
            None => {
                return Err(DispatchError::Arbitration(Error::DisputeNotFound));
            },
            Some(dispute) => {
                if dispute.status != DisputeStatus::Appealable {
                    return Err(DispatchError::Arbitration(Error::InvalidStatus));
                }
                if !(now < dispute.start_block.saturating_add(self.config.appeal_period)) {
                    return Err(DispatchError::Arbitration(Error::AppealPeriodExpired));
                }
                (dispute.ruling, dispute.round)
            },
        };
        let parties = match projects.get_project_parties(project_id) {
            Ok(parties) => parties,
            Err(e) => {
                return Err(e);
            },
        };
        let loser = match ruling {
            Some(Ruling::ClientWins) => parties.1,
            Some(Ruling::FreelancerWins) => parties.0,
            None => {
                return Err(DispatchError::Arbitration(Error::InvalidStatus));
            },
        };
        if appellant != loser {
            return Err(DispatchError::Arbitration(Error::NotLosingParty));
        }
        if round.saturating_add(1) > MAX_ROUND {
            return Err(DispatchError::Arbitration(Error::MaxAppealsReached));
        }
        let budget = match projects.get_project_budget(project_id) {
            Ok(budget) => budget,
            Err(e) => {
                return Err(e);
            },
        };
        let plan = match self.check_appeal(ledger, origin, project_id, parties, budget, now) {
            Ok(plan) => plan,
            Err(e) => {
                return Err(e);
            },
        };
        let mut exclude: Vec<AccountId> = Vec::new();
        exclude.push(parties.0);
        exclude.push(parties.1);
        assert(exclude@ =~= seq![parties.0, parties.1]);
        let jurors = reputation.get_eligible_jurors(plan.required_tier, exclude.as_slice(), plan.jury_size);
        assert(account_list_items(jurors) == old(self)@.jury_offered(*old(reputation), project_id, parties));
        if account_list_len(&jurors) < plan.jury_size as usize {
            return Err(DispatchError::Arbitration(Error::NotEnoughJurors));
        }
        let ghost evidence = uri_bytes(evidence_uri);
        let events = self.apply_appeal(
            ledger,
            &plan,
            origin,
            project_id,
            evidence_uri,
            parties,
            budget,
            &jurors,
            now,
        );
        proof {
            let chosen = account_list_items(jurors);
            assert(old(self)@.appealed_ruling(
                old(ledger)@,
                origin,
                project_id,
                evidence,
                now,
                parties,
                budget,
                chosen,
                self@,
                ledger@,
                events@,
            ));
        }
        Ok(events)
    }

    /// Counts the votes of a round whose voting period is over, rewards them, and
    /// tells the juror registry of every vote whether it went with the ruling; what the
    /// registry answers does not change the outcome. The report begins with the
    /// rewards and ends with the ruling of the round.
    pub fn finalize_round<R: ReputationInterface>(
        &mut self,
        reputation: &mut R,
        ledger: &mut Ledger,
        origin: Origin,
        project_id: ProjectId,
        now: BlockNumber,
    ) -> (r: Result<Vec<RuntimeEvent>, DispatchError>)
        requires
            old(ledger).wf(),
        ensures
            final(ledger).wf(),
            old(self)@.wf() ==> final(self)@.wf(),
            match r {
                Ok(events) => {
                    let rewards = old(self)@.finalize_round_rewards(project_id);
                    &&& old(self)@.finalize_round_error(origin, project_id, now) is None
                    &&& final(self)@ == old(self)@.finalize_round(project_id, now)
                    &&& events@.len() > rewards.len()
                    &&& events@.subrange(0, rewards.len() as int) == rewards
                    &&& events@.last() == RuntimeEvent::Arbitration(
                        Event::RoundFinalized {
                            project_id,
                            ruling: tally(old(self)@.disputes[project_id].votes),
                        },
                    )
                },
                Err(e) => old(self)@.finalize_round_error(origin, project_id, now) == Some(e)
                    && final(self)@ == old(self)@ && final(ledger)@ == old(ledger)@,
            },
    {
        match self.check_finalize_round(origin, project_id, now) {
            Ok(_) => {},
            Err(e) => {
                return Err(e);
            },
        }
        let (mut events, round_ruling, entries) = self.apply_finalize_round(project_id, now);
        let ghost rewards = events@;
        let mut i: usize = 0;
        while i < entries.len()
            invariant
                i <= entries@.len(),
                ledger.wf(),
                events@.len() >= rewards.len(),
                events@.subrange(0, rewards.len() as int) == rewards,
            decreases entries@.len() - i,
        {
            let (juror, vote) = entries[i];
            let voted = reputation.on_jury_vote(ledger, juror, voted_with_majority(round_ruling, vote), now);
            match voted {
                Ok(mut reported) => {
                    let ghost before = events@;
                    events.append(&mut reported);
                    assert(events@.subrange(0, rewards.len() as int) =~= before.subrange(
                        0,
                        rewards.len() as int,
                    ));
                },
                Err(_) => {},
            }
            i += 1;
        }
        let ghost before = events@;
        events.push(RuntimeEvent::Arbitration(Event::RoundFinalized { project_id, ruling: round_ruling }));
        assert(events@.subrange(0, rewards.len() as int) =~= before.subrange(0, rewards.len() as int));
        Ok(events)
    }

    /// Enforces the ruling that stands once its appeal period is over. Anyone may ask
    /// for it. The project escrow names the parties and carries out the ruling, the
    /// dispute is settled between the winner and the loser, the reputation store
    /// records the outcome, and the dispute is finalized. The report ends with the end
    /// of the dispute. What is refused before the escrow carries out the ruling is
    /// refused with the error that the controller or the escrow gives; after that the
    /// escrow, the settlement and the store decide, each on what the one before it
    /// left.
    pub fn enforce_final_ruling<A: Arbitrable, R: ReputationInterface>(
        &mut self,
        projects: &mut A,
        reputation: &mut R,
        ledger: &mut Ledger,
        origin: Origin,
        project_id: ProjectId,
        now: BlockNumber,
    ) -> (r: Result<Vec<RuntimeEvent>, DispatchError>)
        requires
            old(ledger).wf(),
        ensures
            final(ledger).wf(),
            old(self)@.wf() ==> final(self)@.wf(),
            match r {
                Ok(events) => {
                    &&& old(self)@.enforce_refusal_before_ruling(
                        origin,
                        project_id,
                        old(projects).parties_answer(project_id),
                        now,
                    ) is None
                    &&& old(projects).parties_answer(project_id) matches Ok(parties)
                    &&& final(self)@ == old(self)@.enforce_final_ruling(project_id)
                    &&& events@.len() >= 2
                    &&& events@.subrange(events@.len() - 2, events@.len() as int)
                        == ArbitrationView::resolved_events(
                        project_id,
                        old(self)@.winner(project_id, parties),
                    )
                },
                Err(e) => {
                    &&& old(self)@.enforce_refusal_before_ruling(
                        origin,
                        project_id,
                        old(projects).parties_answer(project_id),
                        now,
                    ) matches Some(refused) ==> refused == e
                    &&& final(self)@ == old(self)@
                    &&& final(ledger)@ == old(ledger)@
                },
            },
    {
        match ensure_signed(origin) {
            Ok(_) => {},
            Err(e) => {
                return Err(e);
            },
        }
        match self.disputes(project_id) {
            None => {
                return Err(DispatchError::Arbitration(Error::DisputeNotFound));
            },
            Some(dispute) => {
                if dispute.status != DisputeStatus::Appealable {
                    return Err(DispatchError::Arbitration(Error::InvalidStatus));
                }
                if !(now >= dispute.start_block.saturating_add(self.config.appeal_period)) {
                    return Err(DispatchError::Arbitration(Error::AppealPeriodExpired));
                }
            },
        }
        let parties = match projects.get_project_parties(project_id) {
            Ok(parties) => parties,
            Err(e) => {
                return Err(e);
            },
        };
        let (winner, loser, final_ruling) = match self.check_enforce(origin, project_id, parties, now) {
            Ok(roles) => roles,
            Err(e) => {
                return Err(e);
            },
        };
        let mut scratch = ledger.snapshot();
        let mut events = match projects.on_ruling(
            reputation,
            &mut scratch,
            project_id,
            Self::convert_to_project_ruling(final_ruling),
            now,
        ) {
            Ok(events) => events,
            Err(e) => {
                return Err(e);
            },
        };
        let mut settled = match self.settle_on(&mut scratch, project_id, winner, loser) {
            Ok(events) => events,
            Err(e) => {
                return Err(e);
            },
        };
        let mut recorded = match reputation.on_dispute_outcome(&mut scratch, winner, loser, project_id, 0, now) {
            Ok(events) => events,
            Err(e) => {
                return Err(e);
            },
        };
        *ledger = scratch;
        self.cleanup_arbitration_storage(project_id);
        self.finalize_dispute(project_id);
        assert(self@ == old(self)@.enforce_final_ruling(project_id)) by {
            assert(self@.disputes =~= old(self)@.enforce_final_ruling(project_id).disputes);
        }
        events.append(&mut settled);
        events.append(&mut recorded);
        events.push(RuntimeEvent::Arbitration(Event::DisputeResolved { project_id, winner }));
        events.push(RuntimeEvent::Arbitration(Event::PayoutCompleted { project_id }));
        assert(events@.subrange(events@.len() - 2, events@.len() as int) =~= ArbitrationView::resolved_events(
            project_id,
            old(self)@.winner(project_id, parties),
        ));
        Ok(events)
    }
}

} // verus!
