//! What the rest of the marketplace asks of a reputation store and juror registry.

use vstd::prelude::*;
use sp_runtime::Permill;
use crate::bounded::{account_list_items, AccountList};
use crate::ledger::{Ledger, LedgerView};
use crate::permill::permill_parts;
use crate::primitives::{AccountId, Balance, BlockNumber, ProjectId};
use crate::reputation::store::{
    after_jury_vote, after_project_cancelled, after_project_completed, after_project_created,
    after_work_accepted, is_approval, next_accuracy_parts,
};
use crate::reputation::{attestation_key, Error, Event, JurorTier, Pallet, ReputationView};
use crate::{DispatchError, RuntimeEvent};

verus! {

/// A reputation store with a juror registry, as the project escrow and the arbitration
/// see it. Every method that can move value is handed the ledger and leaves it a
/// ledger. A method that succeeds returns what it has to report. What a store answers
/// when a project is posted, whether it records a completed project or the outcome of
/// a dispute, and which jurors it selects, is a function of the store and of what
/// it is handed, which the store names; what the answers are is the store's to
/// decide.
pub trait ReputationInterface {
    /// What this store answers when it is told that a client posted a project: what
    /// it reports, or why it refuses. A store that does not say what it answers
    /// refuses.
    closed spec fn project_created_answer(&self, client: AccountId, budget: Balance, now: BlockNumber) -> Result<
        Seq<RuntimeEvent>,
        DispatchError,
    > {
        Err(DispatchError::Other)
    }

    /// Why this store refuses to record that a freelancer's project was accepted, if it
    /// refuses. A store that does not say what it answers refuses.
    closed spec fn project_completed_refusal(
        &self,
        ledger: LedgerView,
        freelancer: AccountId,
        project_value: Balance,
        client_rating: u32,
        project_id: ProjectId,
        now: BlockNumber,
    ) -> Option<DispatchError> {
        Some(DispatchError::Other)
    }

    /// Why this store refuses to record the outcome of a dispute, if it refuses. A
    /// store that does not say what it answers refuses.
    closed spec fn dispute_outcome_refusal(
        &self,
        ledger: LedgerView,
        winner: AccountId,
        loser: AccountId,
        project_id: ProjectId,
        project_value: Balance,
        now: BlockNumber,
    ) -> Option<DispatchError> {
        Some(DispatchError::Other)
    }

    /// The jurors that this registry selects when it is asked for up to `count` jurors
    /// of at least `min_tier`, none of them among `exclude`. A registry that does not
    /// say what it answers selects none.
    closed spec fn eligible_answer(&self, min_tier: JurorTier, exclude: Seq<AccountId>, count: u32) -> Seq<
        AccountId,
    > {
        Seq::empty()
    }

    /// A freelancer's project of that value was accepted with that rating.
    fn on_project_completed(
        &mut self,
        ledger: &mut Ledger,
        freelancer: AccountId,
        project_value: Balance,
        client_rating: u32,
        project_id: ProjectId,
        now: BlockNumber,
    ) -> (r: Result<Vec<RuntimeEvent>, DispatchError>)
        requires
            old(ledger).wf(),
        ensures
            final(ledger).wf(),
            match r {
                Ok(_) => old(self).project_completed_refusal(
                    old(ledger)@,
                    freelancer,
                    project_value,
                    client_rating,
                    project_id,
                    now,
                ) is None,
                Err(e) => old(self).project_completed_refusal(
                    old(ledger)@,
                    freelancer,
                    project_value,
                    client_rating,
                    project_id,
                    now,
                ) == Some(e),
            },
    ;

    /// A dispute about a project ended with that winner and that loser.
    fn on_dispute_outcome(
        &mut self,
        ledger: &mut Ledger,
        winner: AccountId,
        loser: AccountId,
        project_id: ProjectId,
        project_value: Balance,
        now: BlockNumber,
    ) -> (r: Result<Vec<RuntimeEvent>, DispatchError>)
        requires
            old(ledger).wf(),
        ensures
            final(ledger).wf(),
            match r {
                Ok(_) => old(self).dispute_outcome_refusal(
                    old(ledger)@,
                    winner,
                    loser,
                    project_id,
                    project_value,
                    now,
                ) is None,
                Err(e) => old(self).dispute_outcome_refusal(
                    old(ledger)@,
                    winner,
                    loser,
                    project_id,
                    project_value,
                    now,
                ) == Some(e),
            },
    ;

    /// A client posted a project with that budget.
    fn on_project_created(&mut self, client: AccountId, budget: Balance, now: BlockNumber) -> (r: Result<
        Vec<RuntimeEvent>,
        DispatchError,
    >)
        ensures
            match r {
                Ok(events) => old(self).project_created_answer(client, budget, now) matches Ok(reported)
                    && reported == events@,
                Err(e) => old(self).project_created_answer(client, budget, now) matches Err(refused)
                    && refused == e,
            },
    ;

    /// A client cancelled a project.
    fn on_project_cancelled(&mut self, client: AccountId, now: BlockNumber) -> (r: Result<
        Vec<RuntimeEvent>,
        DispatchError,
    >);

    /// A client accepted the work on a project.
    fn on_work_accepted(&mut self, client: AccountId, project_id: ProjectId, now: BlockNumber) -> (r: Result<
        Vec<RuntimeEvent>,
        DispatchError,
    >);

    /// Up to `count` jurors of at least `min_tier`, none of them among `exclude`.
    fn get_eligible_jurors(&mut self, min_tier: JurorTier, exclude: &[AccountId], count: u32) -> (jurors:
        AccountList)
        ensures
            account_list_items(jurors) == old(self).eligible_answer(min_tier, exclude@, count),
    ;

    /// A juror voted, with or against the majority.
    fn on_jury_vote(&mut self, ledger: &mut Ledger, juror: AccountId, voted_with_majority: bool, now: BlockNumber) -> (r:
        Result<Vec<RuntimeEvent>, DispatchError>)
        requires
            old(ledger).wf(),
        ensures
            final(ledger).wf(),
    ;

    /// A juror misbehaved and loses a share of its stake.
    fn slash_juror(&mut self, ledger: &mut Ledger, juror: AccountId) -> (r: Result<
        Vec<RuntimeEvent>,
        DispatchError,
    >)
        requires
            old(ledger).wf(),
        ensures
            final(ledger).wf(),
    ;
}

impl ReputationInterface for Pallet {
    open spec fn project_created_answer(&self, client: AccountId, budget: Balance, now: BlockNumber) -> Result<
        Seq<RuntimeEvent>,
        DispatchError,
    > {
        if self@.registered(client) {
            Ok(Seq::empty())
        } else {
            Err(DispatchError::Reputation(Error::UserNotRegistered))
        }
    }

    open spec fn eligible_answer(&self, min_tier: JurorTier, exclude: Seq<AccountId>, count: u32) -> Seq<
        AccountId,
    > {
        self@.eligible_jurors(min_tier, exclude, count)
    }

    open spec fn project_completed_refusal(
        &self,
        ledger: LedgerView,
        freelancer: AccountId,
        project_value: Balance,
        client_rating: u32,
        project_id: ProjectId,
        now: BlockNumber,
    ) -> Option<DispatchError> {
        self@.project_completed_error(
            freelancer,
            client_rating,
            after_project_completed(self@.reputation_stats[freelancer], project_value, client_rating, now),
        )
    }

    open spec fn dispute_outcome_refusal(
        &self,
        ledger: LedgerView,
        winner: AccountId,
        loser: AccountId,
        project_id: ProjectId,
        project_value: Balance,
        now: BlockNumber,
    ) -> Option<DispatchError> {
        self@.dispute_outcome_error(winner, loser, now)
    }

    fn on_project_completed(
        &mut self,
        ledger: &mut Ledger,
        freelancer: AccountId,
        project_value: Balance,
        client_rating: u32,
        project_id: ProjectId,
        now: BlockNumber,
    ) -> (r: Result<Vec<RuntimeEvent>, DispatchError>)
        ensures
            match r {
                Ok(events) => {
                    let data = after_project_completed(
                        old(self)@.reputation_stats[freelancer],
                        project_value,
                        client_rating,
                        now,
                    );
                    let recorded = old(self)@.with_stats(freelancer, data);
                    let key = attestation_key(freelancer, project_id);
                    &&& old(self)@.project_completed_error(freelancer, client_rating, data) is None
                    &&& final(self)@ == (ReputationView {
                        attestations: recorded.attestations.insert(key, final(self)@.attestations[key]),
                        ..recorded.update_juror_tier(freelancer)
                    })
                    &&& is_approval(
                        final(self)@.attestations[key],
                        project_id,
                        project_value,
                        client_rating,
                        now,
                    )
                    &&& final(ledger)@ == recorded.update_juror_tier_ledger(old(ledger)@, freelancer)
                    &&& events@ == recorded.update_juror_tier_events(freelancer) + seq![
                        RuntimeEvent::Reputation(Event::ProjectCompleted { freelancer, project_id }),
                    ]
                },
                Err(e) => old(self)@.project_completed_error(
                    freelancer,
                    client_rating,
                    after_project_completed(
                        old(self)@.reputation_stats[freelancer],
                        project_value,
                        client_rating,
                        now,
                    ),
                ) == Some(e) && final(self)@ == old(self)@ && final(ledger)@ == old(ledger)@,
            },
    {
        self.internal_project_completed(ledger, freelancer, project_value, client_rating, project_id, now)
    }

    fn on_dispute_outcome(
        &mut self,
        ledger: &mut Ledger,
        winner: AccountId,
        loser: AccountId,
        project_id: ProjectId,
        project_value: Balance,
        now: BlockNumber,
    ) -> (r: Result<Vec<RuntimeEvent>, DispatchError>)
        ensures
            match r {
                Ok(events) => old(self)@.dispute_outcome_error(winner, loser, now) is None && final(self)@ == old(self)@.dispute_outcome(winner, loser, now) && final(ledger)@ == old(self)@.dispute_outcome_ledger(old(ledger)@, winner, loser, now) && events@ == old(self)@.dispute_outcome_events(winner, loser, project_id, now),
                Err(e) => old(self)@.dispute_outcome_error(winner, loser, now) == Some(e) && final(self)@ == old(self)@ && final(ledger)@ == old(ledger)@,
            },
    {
        self.internal_dispute_outcome(ledger, winner, loser, project_id, project_value, now)
    }

    fn on_project_created(&mut self, client: AccountId, budget: Balance, now: BlockNumber) -> (r: Result<
        Vec<RuntimeEvent>,
        DispatchError,
    >)
        ensures
            match r {
                Ok(events) => old(self)@.registered(client) && final(self)@ == old(self)@.with_stats(
                    client,
                    after_project_created(old(self)@.reputation_stats[client], budget, now),
                ) && events@ == Seq::<RuntimeEvent>::empty(),
                Err(e) => !old(self)@.registered(client) && e == DispatchError::Reputation(
                    Error::UserNotRegistered,
                ) && final(self)@ == old(self)@,
            },
    {
        self.internal_on_project_created(client, budget, now)
    }

    fn on_project_cancelled(&mut self, client: AccountId, now: BlockNumber) -> (r: Result<
        Vec<RuntimeEvent>,
        DispatchError,
    >)
        ensures
            match r {
                Ok(events) => old(self)@.registered(client) && final(self)@ == old(self)@.with_stats(
                    client,
                    after_project_cancelled(old(self)@.reputation_stats[client], now),
                ) && events@ == Seq::<RuntimeEvent>::empty(),
                Err(e) => !old(self)@.registered(client) && e == DispatchError::Reputation(
                    Error::UserNotRegistered,
                ) && final(self)@ == old(self)@,
            },
    {
        self.internal_on_project_cancelled(client, now)
    }

    fn on_work_accepted(&mut self, client: AccountId, project_id: ProjectId, now: BlockNumber) -> (r: Result<
        Vec<RuntimeEvent>,
        DispatchError,
    >)
        ensures
            match r {
                Ok(events) => old(self)@.registered(client) && final(self)@ == old(self)@.with_stats(
                    client,
                    after_work_accepted(old(self)@.reputation_stats[client], now),
                ) && events@ == Seq::<RuntimeEvent>::empty(),
                Err(e) => !old(self)@.registered(client) && e == DispatchError::Reputation(
                    Error::UserNotRegistered,
                ) && final(self)@ == old(self)@,
            },
    {
        self.internal_on_work_accepted(client, project_id, now)
    }

    fn get_eligible_jurors(&mut self, min_tier: JurorTier, exclude: &[AccountId], count: u32) -> (jurors:
        AccountList)
        ensures
            account_list_items(jurors) == old(self)@.eligible_jurors(min_tier, exclude@, count),
            final(self)@ == old(self)@.after_selection(min_tier, exclude@, count),
    {
        self.internal_get_eligible_jurors(min_tier, exclude, count)
    }

    fn on_jury_vote(&mut self, ledger: &mut Ledger, juror: AccountId, voted_with_majority: bool, now: BlockNumber) -> (r:
        Result<Vec<RuntimeEvent>, DispatchError>)
        ensures
            match r {
                Ok(events) => {
                    let before = old(self)@.reputation_stats[juror];
                    let data = final(self)@.reputation_stats[juror];
                    let recorded = old(self)@.with_stats(juror, data);
                    &&& old(self)@.registered(juror)
                    &&& !recorded.tier_update_blocked(juror)
                    &&& data == after_jury_vote(before, data.jury_accuracy, now)
                    &&& permill_parts(data.jury_accuracy) == next_accuracy_parts(
                        before,
                        voted_with_majority,
                    )
                    &&& final(self)@ == recorded.update_juror_tier(juror)
                    &&& final(ledger)@ == recorded.update_juror_tier_ledger(old(ledger)@, juror)
                    &&& events@ == recorded.update_juror_tier_events(juror)
                },
                Err(e) => final(self)@ == old(self)@ && final(ledger)@ == old(ledger)@ && (if !old(self)@.registered(juror) {
                    e == DispatchError::Reputation(Error::UserNotRegistered)
                } else {
                    e == DispatchError::Reputation(Error::JurorPoolFull) && exists|accuracy: Permill|
                        permill_parts(accuracy) == next_accuracy_parts(
                            old(self)@.reputation_stats[juror],
                            voted_with_majority,
                        ) && (#[trigger] old(self)@.with_stats(
                            juror,
                            after_jury_vote(old(self)@.reputation_stats[juror], accuracy, now),
                        )).tier_update_blocked(juror)
                }),
            },
    {
        self.internal_jury_vote(ledger, juror, voted_with_majority, now)
    }

    fn slash_juror(&mut self, ledger: &mut Ledger, juror: AccountId) -> (r: Result<
        Vec<RuntimeEvent>,
        DispatchError,
    >)
        ensures
            match r {
                Ok(events) => old(self)@.slash_juror_error(juror) is None && final(self)@ == old(self)@.slash_juror(juror) && final(ledger)@ == old(ledger)@.slash_reserved(
                    juror,
                    old(self)@.slash_amount(juror),
                ) && events@ == old(self)@.slash_juror_events(juror),
                Err(e) => old(self)@.slash_juror_error(juror) == Some(e) && final(self)@ == old(self)@ && final(ledger)@ == old(ledger)@,
            },
    {
        self.internal_slash_juror(ledger, juror)
    }
}

} // verus!
