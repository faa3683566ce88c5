//! The reputation store: registration, and the record that every project, dispute
//! and jury vote leaves on an account.

use vstd::prelude::*;
use sp_runtime::Permill;
use crate::bounded::{uri_bytes, uri_try_from};
use crate::ledger::{Ledger, LedgerView};
use crate::permill::{permill_parts, MILLION};
use crate::primitives::{
    ensure_signed, saturating_mul_u32, spec_ensure_signed, spec_saturating_mul_u32, AccountId,
    Balance, BlockNumber, Origin, ProjectId,
};
use crate::reputation::{
    attestation_key, Attestation, AttestationOutcome, AttestorType, Error, Event, JurorTier, Pallet,
    ReputationData, ReputationView, WeightConfig,
};
use crate::scale::{encode_u32, le_bytes_u32};
use crate::{DispatchError, RuntimeEvent};

verus! {

/// The highest rating that a client can give, on the scale of the store.
pub const MAX_RATING: u32 = 5000;

/// Whether a record is the one of an account that registered at block `now` and has
/// done nothing yet.
pub open spec fn is_fresh(data: ReputationData, now: BlockNumber) -> bool {
    &&& data.registration_block == now
    &&& data.last_activity_block == now
    &&& data.projects_completed == 0
    &&& data.projects_failed == 0
    &&& data.total_earned == 0
    &&& data.projects_posted == 0
    &&& data.total_spent == 0
    &&& data.disputes_initiated == 0
    &&& data.disputes_won == 0
    &&& data.disputes_lost == 0
    &&& data.avg_rating_received == 0
    &&& data.total_ratings_received == 0
    &&& data.jury_participation == 0
    &&& permill_parts(data.jury_accuracy) == 0
}

/// The mean rating after one more rating: the old mean weighted by the number of
/// ratings so far, plus the new rating, over one more than that number.
pub open spec fn next_avg_rating(avg: u32, total: u32, rating: u32) -> u32 {
    (spec_saturating_mul_u32(avg, total).saturating_add(rating) / total.saturating_add(1)) as u32
}

/// The record of a freelancer after a project of that value was accepted with that
/// rating.
pub open spec fn after_project_completed(
    data: ReputationData,
    project_value: Balance,
    client_rating: u32,
    now: BlockNumber,
) -> ReputationData {
    ReputationData {
        projects_completed: data.projects_completed.saturating_add(1),
        total_earned: data.total_earned.saturating_add(project_value),
        last_activity_block: now,
        avg_rating_received: next_avg_rating(
            data.avg_rating_received,
            data.total_ratings_received,
            client_rating,
        ),
        total_ratings_received: data.total_ratings_received.saturating_add(1),
        ..data
    }
}

/// The record of the winner of a dispute.
pub open spec fn after_dispute_won(data: ReputationData, now: BlockNumber) -> ReputationData {
    ReputationData {
        disputes_won: data.disputes_won.saturating_add(1),
        last_activity_block: now,
        ..data
    }
}

/// The record of the loser of a dispute.
pub open spec fn after_dispute_lost(data: ReputationData, now: BlockNumber) -> ReputationData {
    ReputationData {
        disputes_lost: data.disputes_lost.saturating_add(1),
        projects_failed: data.projects_failed.saturating_add(1),
        last_activity_block: now,
        ..data
    }
}

/// The parts per million of votes with the majority after one more vote: the old
/// share weighted by the votes before, plus a whole or nothing for the new vote, over
/// all votes; never more than a whole.
pub open spec fn next_accuracy_parts(data: ReputationData, voted_with_majority: bool) -> u32 {
    let votes = data.jury_participation.saturating_add(1);
    let vote_value: u32 = if voted_with_majority {
        MILLION
    } else {
        0
    };
    let parts = spec_saturating_mul_u32(
        permill_parts(data.jury_accuracy),
        (votes - 1) as u32,
    ).saturating_add(vote_value) / votes;
    if parts > MILLION {
        MILLION
    } else {
        parts as u32
    }
}

/// The record of a juror after one more vote, with the share of votes with the
/// majority that the store now holds.
pub open spec fn after_jury_vote(data: ReputationData, accuracy: Permill, now: BlockNumber) -> ReputationData {
    ReputationData {
        jury_participation: data.jury_participation.saturating_add(1),
        jury_accuracy: accuracy,
        last_activity_block: now,
        ..data
    }
}

/// The record of a client after it posted a project with that budget.
pub open spec fn after_project_created(data: ReputationData, budget: Balance, now: BlockNumber) -> ReputationData {
    ReputationData {
        projects_posted: data.projects_posted.saturating_add(1),
        total_spent: data.total_spent.saturating_add(budget),
        last_activity_block: now,
        ..data
    }
}

/// The record of a client after it cancelled a project.
pub open spec fn after_project_cancelled(data: ReputationData, now: BlockNumber) -> ReputationData {
    ReputationData {
        projects_failed: data.projects_failed.saturating_add(1),
        last_activity_block: now,
        ..data
    }
}

/// The record of a client after it accepted a piece of work.
pub open spec fn after_work_accepted(data: ReputationData, now: BlockNumber) -> ReputationData {
    ReputationData {
        projects_completed: data.projects_completed.saturating_add(1),
        last_activity_block: now,
        ..data
    }
}

/// Whether an attestation is the one that an accepted project leaves: a client's
/// approval with the rating as its metadata.
pub open spec fn is_approval(
    attestation: Attestation,
    project_id: ProjectId,
    value: Balance,
    rating: u32,
    now: BlockNumber,
) -> bool {
    &&& attestation.attestor == AttestorType::ClientApproval
    &&& attestation.project_id == project_id
    &&& attestation.outcome == AttestationOutcome::Positive
    &&& attestation.value == value
    &&& attestation.timestamp == now
    &&& uri_bytes(attestation.metadata) == le_bytes_u32(rating)
}

impl ReputationView {
    /// The store with the record of one account replaced.
    pub open spec fn with_stats(self, who: AccountId, data: ReputationData) -> ReputationView {
        ReputationView { reputation_stats: self.reputation_stats.insert(who, data), ..self }
    }

    /// Why the completion of a project cannot be recorded, if it cannot; `data` is
    /// the record that the freelancer would have.
    pub open spec fn project_completed_error(
        self,
        freelancer: AccountId,
        client_rating: u32,
        data: ReputationData,
    ) -> Option<DispatchError> {
        if client_rating > MAX_RATING {
            Some(DispatchError::Reputation(Error::InvalidScore))
        } else if !self.registered(freelancer) {
            Some(DispatchError::Reputation(Error::UserNotRegistered))
        } else if self.with_stats(freelancer, data).tier_update_blocked(freelancer) {
            Some(DispatchError::Reputation(Error::JurorPoolFull))
        } else {
            None
        }
    }

    /// Why the outcome of a dispute cannot be recorded, if it cannot.
    pub open spec fn dispute_outcome_error(
        self,
        winner: AccountId,
        loser: AccountId,
        now: BlockNumber,
    ) -> Option<DispatchError> {
        if !self.registered(winner) {
            Some(DispatchError::Reputation(Error::UserNotRegistered))
        } else if !self.registered(loser) {
            Some(DispatchError::Reputation(Error::UserNotRegistered))
        } else if self.dispute_outcome_stats(winner, loser, now).tier_update_blocked(winner) {
            Some(DispatchError::Reputation(Error::JurorPoolFull))
        } else {
            None
        }
    }

    /// The store after both parties of a dispute have their outcome on record.
    pub open spec fn dispute_outcome_stats(self, winner: AccountId, loser: AccountId, now: BlockNumber) -> ReputationView {
        let won = self.with_stats(winner, after_dispute_won(self.reputation_stats[winner], now));
        won.with_stats(loser, after_dispute_lost(won.reputation_stats[loser], now))
    }

    /// The store and the registry after the outcome of a dispute was recorded and the
    /// tiers of both parties were brought in line.
    pub open spec fn dispute_outcome(self, winner: AccountId, loser: AccountId, now: BlockNumber) -> ReputationView {
        self.dispute_outcome_stats(winner, loser, now).update_juror_tier(winner).update_juror_tier(
            loser,
        )
    }

    /// The ledger after the outcome of a dispute was recorded.
    pub open spec fn dispute_outcome_ledger(
        self,
        ledger: LedgerView,
        winner: AccountId,
        loser: AccountId,
        now: BlockNumber,
    ) -> LedgerView {
        let recorded = self.dispute_outcome_stats(winner, loser, now);
        recorded.update_juror_tier(winner).update_juror_tier_ledger(
            recorded.update_juror_tier_ledger(ledger, winner),
            loser,
        )
    }

    /// What the store reports of the outcome of a dispute.
    pub open spec fn dispute_outcome_events(
        self,
        winner: AccountId,
        loser: AccountId,
        project_id: ProjectId,
        now: BlockNumber,
    ) -> Seq<RuntimeEvent> {
        let recorded = self.dispute_outcome_stats(winner, loser, now);
        recorded.update_juror_tier_events(winner) + recorded.update_juror_tier(
            winner,
        ).update_juror_tier_events(loser) + seq![
            RuntimeEvent::Reputation(Event::DisputeResolved { winner, loser, project_id }),
        ]
    }
}

impl Pallet {
    /// Registers the sender with the store.
    pub fn register_user(&mut self, origin: Origin, now: BlockNumber) -> (r: Result<
        Vec<RuntimeEvent>,
        DispatchError,
    >)
        ensures
            match r {
                Ok(events) => spec_ensure_signed(origin) matches Ok(who) && !old(self)@.reputation_stats.contains_key(who) && final(self)@ == old(self)@.with_stats(
                    who,
                    final(self)@.reputation_stats[who],
                ) && is_fresh(final(self)@.reputation_stats[who], now) && events@ == seq![
                    RuntimeEvent::Reputation(Event::UserRegistered { account: who }),
                ],
                Err(e) => final(self)@ == old(self)@ && (match spec_ensure_signed(origin) {
                    Ok(who) => old(self)@.reputation_stats.contains_key(who) && e
                        == DispatchError::Reputation(Error::AlreadyRegistered),
                    Err(bad) => e == bad,
                }),
            },
    {
        let who = match ensure_signed(origin) {
            Ok(who) => who,
            Err(e) => {
                return Err(e);
            },
        };
        if self.reputation_stats.contains_key(&who) {
            return Err(DispatchError::Reputation(Error::AlreadyRegistered));
        }
        let initial_data = ReputationData {
            registration_block: now,
            last_activity_block: now,
            projects_completed: 0,
            projects_failed: 0,
            total_earned: 0,
            projects_posted: 0,
            total_spent: 0,
            disputes_initiated: 0,
            disputes_won: 0,
            disputes_lost: 0,
            avg_rating_received: 0,
            total_ratings_received: 0,
            jury_participation: 0,
            jury_accuracy: Permill::zero(),
        };
        self.reputation_stats.insert(who, initial_data);
        let mut events: Vec<RuntimeEvent> = Vec::new();
        events.push(RuntimeEvent::Reputation(Event::UserRegistered { account: who }));
        Ok(events)
    }

    /// Replaces the weights of the factors of a score. Only the governance may.
    pub fn update_weights(
        &mut self,
        origin: Origin,
        completion_weight: u32,
        dispute_penalty: u32,
        arbitration_bonus: u32,
        jury_weight: u32,
        time_decay_rate: Permill,
        activity_bonus: u32,
    ) -> (r: Result<Vec<RuntimeEvent>, DispatchError>)
        ensures
            match r {
                Ok(events) => origin == old(self)@.governance && final(self)@ == (ReputationView {
                    reputation_weights: WeightConfig {
                        completion_weight,
                        dispute_penalty,
                        arbitration_bonus,
                        jury_weight,
                        time_decay_rate,
                        activity_bonus,
                    },
                    ..old(self)@
                }) && events@ == seq![RuntimeEvent::Reputation(Event::WeightsUpdated)],
                Err(e) => origin != old(self)@.governance && e == DispatchError::BadOrigin && final(self)@ == old(self)@,
            },
    {
        if origin != self.config.governance {
            return Err(DispatchError::BadOrigin);
        }
        self.reputation_weights = WeightConfig {
            completion_weight,
            dispute_penalty,
            arbitration_bonus,
            jury_weight,
            time_decay_rate,
            activity_bonus,
        };
        let mut events: Vec<RuntimeEvent> = Vec::new();
        events.push(RuntimeEvent::Reputation(Event::WeightsUpdated));
        Ok(events)
    }

    /// Whether bringing the tier of `who` in line would be refused if the store held
    /// `data` of it.
    fn tier_update_blocked_with(&self, who: AccountId, data: &ReputationData) -> (b: bool)
        ensures
            b == self@.with_stats(who, *data).tier_update_blocked(who),
    {
        if !self.juror_opted_in(who) {
            return false;
        }
        let earned = Self::calculate_tier_from_stats(data);
        if self.juror_tier(who) == earned {
            return false;
        }
        match earned {
            JurorTier::Gold => crate::bounded::account_list_len(&self.gold_jurors)
                >= crate::bounded::MAX_ACCOUNTS as usize,
            JurorTier::Silver => crate::bounded::account_list_len(&self.silver_jurors)
                >= crate::bounded::MAX_ACCOUNTS as usize,
            JurorTier::Bronze => crate::bounded::account_list_len(&self.bronze_jurors)
                >= crate::bounded::MAX_ACCOUNTS as usize,
            JurorTier::Ineligible => false,
        }
    }

    /// Records that a project of a freelancer was accepted: counts it, adds its value
    /// to the earnings, folds the rating into the mean, brings the freelancer's tier
    /// in line and leaves an attestation.
    pub(crate) fn internal_project_completed(
        &mut self,
        ledger: &mut Ledger,
        freelancer: AccountId,
        project_value: Balance,
        client_rating: u32,
        project_id: ProjectId,
        now: BlockNumber,
    ) -> (r: Result<Vec<RuntimeEvent>, DispatchError>)
        requires
            old(ledger).wf(),
        ensures
            final(ledger).wf(),
            match r {
                Ok(events) => {
                    let data = after_project_completed(
                        old(self)@.reputation_stats[freelancer],
                        project_value,
                        client_rating,
                        now,
                    );
                    let recorded = old(self)@.with_stats(freelancer, data);
                    let key = attestation_key(freelancer, project_id);
                    &&& old(self)@.project_completed_error(freelancer, client_rating, data) is None
                    &&& final(self)@ == (ReputationView {
                        attestations: recorded.attestations.insert(key, final(self)@.attestations[key]),
                        ..recorded.update_juror_tier(freelancer)
                    })
                    &&& is_approval(
                        final(self)@.attestations[key],
                        project_id,
                        project_value,
                        client_rating,
                        now,
                    )
                    &&& final(ledger)@ == recorded.update_juror_tier_ledger(old(ledger)@, freelancer)
                    &&& events@ == recorded.update_juror_tier_events(freelancer) + seq![
                        RuntimeEvent::Reputation(Event::ProjectCompleted { freelancer, project_id }),
                    ]
                },
                Err(e) => old(self)@.project_completed_error(
                    freelancer,
                    client_rating,
                    after_project_completed(
                        old(self)@.reputation_stats[freelancer],
                        project_value,
                        client_rating,
                        now,
                    ),
                ) == Some(e) && final(self)@ == old(self)@ && final(ledger)@ == old(ledger)@,
            },
    {
        if client_rating > MAX_RATING {
            return Err(DispatchError::Reputation(Error::InvalidScore));
        }
        let stats = self.reputation_stats(freelancer);
        if !(stats.registration_block > 0) {
            return Err(DispatchError::Reputation(Error::UserNotRegistered));
        }
        let total = stats.total_ratings_received;
        let data = ReputationData {
            projects_completed: stats.projects_completed.saturating_add(1),
            total_earned: stats.total_earned.saturating_add(project_value),
            last_activity_block: now,
            avg_rating_received: saturating_mul_u32(stats.avg_rating_received, total).saturating_add(
                client_rating,
            ) / total.saturating_add(1),
            total_ratings_received: total.saturating_add(1),
            ..stats
        };
        if self.tier_update_blocked_with(freelancer, &data) {
            return Err(DispatchError::Reputation(Error::JurorPoolFull));
        }
        self.reputation_stats.insert(freelancer, data);
        let updated = self.update_juror_tier(ledger, freelancer);
        let mut events = match updated {
            Ok(events) => events,
            Err(_) => unreached(),
        };
        self.create_attestation(
            freelancer,
            project_id,
            AttestorType::ClientApproval,
            AttestationOutcome::Positive,
            project_value,
            client_rating,
            now,
        );
        events.push(RuntimeEvent::Reputation(Event::ProjectCompleted { freelancer, project_id }));
        Ok(events)
    }

    /// Records who won and who lost a dispute, and brings the tiers of both in line.
    pub(crate) fn internal_dispute_outcome(
        &mut self,
        ledger: &mut Ledger,
        winner: AccountId,
        loser: AccountId,
        project_id: ProjectId,
        project_value: Balance,
        now: BlockNumber,
    ) -> (r: Result<Vec<RuntimeEvent>, DispatchError>)
        requires
            old(ledger).wf(),
        ensures
            final(ledger).wf(),
            match r {
                Ok(events) => old(self)@.dispute_outcome_error(winner, loser, now) is None && final(self)@ == old(self)@.dispute_outcome(winner, loser, now) && final(ledger)@ == old(self)@.dispute_outcome_ledger(old(ledger)@, winner, loser, now) && events@ == old(self)@.dispute_outcome_events(winner, loser, project_id, now),
                Err(e) => old(self)@.dispute_outcome_error(winner, loser, now) == Some(e) && final(self)@ == old(self)@ && final(ledger)@ == old(ledger)@,
            },
    {
        let winner_stats = self.reputation_stats(winner);
        if !(winner_stats.registration_block > 0) {
            return Err(DispatchError::Reputation(Error::UserNotRegistered));
        }
        let loser_before = self.reputation_stats(loser);
        if !(loser_before.registration_block > 0) {
            return Err(DispatchError::Reputation(Error::UserNotRegistered));
        }
        let won = ReputationData {
            disputes_won: winner_stats.disputes_won.saturating_add(1),
            last_activity_block: now,
            ..winner_stats
        };
        let loser_stats = if loser == winner {
            won
        } else {
            loser_before
        };
        let lost = ReputationData {
            disputes_lost: loser_stats.disputes_lost.saturating_add(1),
            projects_failed: loser_stats.projects_failed.saturating_add(1),
            last_activity_block: now,
            ..loser_stats
        };
        let winner_after = if loser == winner {
            lost
        } else {
            won
        };
        let ghost recorded = old(self)@.dispute_outcome_stats(winner, loser, now);
        proof {
            assert(recorded.reputation_stats =~= old(self)@.reputation_stats.insert(winner, won).insert(
                loser,
                lost,
            ));
            assert(recorded.reputation_stats[winner] == winner_after);
            assert(recorded.with_stats(winner, winner_after).reputation_stats
                =~= recorded.reputation_stats);
        }
        if self.tier_update_blocked_with(winner, &winner_after) {
            return Err(DispatchError::Reputation(Error::JurorPoolFull));
        }
        self.reputation_stats.insert(winner, won);
        self.reputation_stats.insert(loser, lost);
        assert(self@ == recorded);
        let first = self.update_juror_tier(ledger, winner);
        let mut events = match first {
            Ok(events) => events,
            Err(_) => unreached(),
        };
        let second = self.update_juror_tier(ledger, loser);
        let mut more = match second {
            Ok(more) => more,
            Err(_) => unreached(),
        };
        events.append(&mut more);
        events.push(RuntimeEvent::Reputation(Event::DisputeResolved { winner, loser, project_id }));
        Ok(events)
    }

    /// Records one jury vote of a juror and whether it went with the majority, and
    /// brings the juror's tier in line.
    pub(crate) fn internal_jury_vote(
        &mut self,
        ledger: &mut Ledger,
        juror: AccountId,
        voted_with_majority: bool,
        now: BlockNumber,
    ) -> (r: Result<Vec<RuntimeEvent>, DispatchError>)
        requires
            old(ledger).wf(),
        ensures
            final(ledger).wf(),
            match r {
                Ok(events) => {
                    let before = old(self)@.reputation_stats[juror];
                    let data = final(self)@.reputation_stats[juror];
                    let recorded = old(self)@.with_stats(juror, data);
                    &&& old(self)@.registered(juror)
                    &&& !recorded.tier_update_blocked(juror)
                    &&& data == after_jury_vote(before, data.jury_accuracy, now)
                    &&& permill_parts(data.jury_accuracy) == next_accuracy_parts(
                        before,
                        voted_with_majority,
                    )
                    &&& final(self)@ == recorded.update_juror_tier(juror)
                    &&& final(ledger)@ == recorded.update_juror_tier_ledger(old(ledger)@, juror)
                    &&& events@ == recorded.update_juror_tier_events(juror)
                },
                Err(e) => final(self)@ == old(self)@ && final(ledger)@ == old(ledger)@ && (if !old(self)@.registered(juror) {
                    e == DispatchError::Reputation(Error::UserNotRegistered)
                } else {
                    e == DispatchError::Reputation(Error::JurorPoolFull) && exists|accuracy: Permill|
                        permill_parts(accuracy) == next_accuracy_parts(
                            old(self)@.reputation_stats[juror],
                            voted_with_majority,
                        ) && (#[trigger] old(self)@.with_stats(
                            juror,
                            after_jury_vote(old(self)@.reputation_stats[juror], accuracy, now),
                        )).tier_update_blocked(juror)
                }),
            },
    {
        let stats = self.reputation_stats(juror);
        if !(stats.registration_block > 0) {
            return Err(DispatchError::Reputation(Error::UserNotRegistered));
        }
        let total_votes = stats.jury_participation.saturating_add(1);
        let current_accuracy = stats.jury_accuracy.deconstruct();
        let vote_value: u32 = if voted_with_majority {
            MILLION
        } else {
            0
        };
        let new_accuracy = saturating_mul_u32(
            current_accuracy,
            total_votes.saturating_sub(1),
        ).saturating_add(vote_value) / total_votes;
        let accuracy = Permill::from_parts(new_accuracy);
        let data = ReputationData {
            jury_participation: total_votes,
            jury_accuracy: accuracy,
            last_activity_block: now,
            ..stats
        };
        if self.tier_update_blocked_with(juror, &data) {
            proof {
                let before = old(self)@.reputation_stats[juror];
                assert(data == after_jury_vote(before, accuracy, now));
                assert(old(self)@.with_stats(
                    juror,
                    after_jury_vote(before, accuracy, now),
                ).tier_update_blocked(juror));
            }
            return Err(DispatchError::Reputation(Error::JurorPoolFull));
        }
        self.reputation_stats.insert(juror, data);
        let updated = self.update_juror_tier(ledger, juror);
        match updated {
            Ok(events) => Ok(events),
            Err(_) => unreached(),
        }
    }

    /// Records that a client posted a project with that budget.
    pub(crate) fn internal_on_project_created(&mut self, client: AccountId, budget: Balance, now: BlockNumber) -> (r:
        Result<Vec<RuntimeEvent>, DispatchError>)
        ensures
            match r {
                Ok(events) => old(self)@.registered(client) && final(self)@ == old(self)@.with_stats(
                    client,
                    after_project_created(old(self)@.reputation_stats[client], budget, now),
                ) && events@ == Seq::<RuntimeEvent>::empty(),
                Err(e) => !old(self)@.registered(client) && e == DispatchError::Reputation(
                    Error::UserNotRegistered,
                ) && final(self)@ == old(self)@,
            },
    {
        let stats = self.reputation_stats(client);
        if !(stats.registration_block > 0) {
            return Err(DispatchError::Reputation(Error::UserNotRegistered));
        }
        let data = ReputationData {
            projects_posted: stats.projects_posted.saturating_add(1),
            total_spent: stats.total_spent.saturating_add(budget),
            last_activity_block: now,
            ..stats
        };
        self.reputation_stats.insert(client, data);
        Ok(Vec::new())
    }

    /// Records that a client cancelled a project.
    pub(crate) fn internal_on_project_cancelled(&mut self, client: AccountId, now: BlockNumber) -> (r: Result<
        Vec<RuntimeEvent>,
        DispatchError,
    >)
        ensures
            match r {
                Ok(events) => old(self)@.registered(client) && final(self)@ == old(self)@.with_stats(
                    client,
                    after_project_cancelled(old(self)@.reputation_stats[client], now),
                ) && events@ == Seq::<RuntimeEvent>::empty(),
                Err(e) => !old(self)@.registered(client) && e == DispatchError::Reputation(
                    Error::UserNotRegistered,
                ) && final(self)@ == old(self)@,
            },
    {
        let stats = self.reputation_stats(client);
        if !(stats.registration_block > 0) {
            return Err(DispatchError::Reputation(Error::UserNotRegistered));
        }
        let data = ReputationData {
            projects_failed: stats.projects_failed.saturating_add(1),
            last_activity_block: now,
            ..stats
        };
        self.reputation_stats.insert(client, data);
        Ok(Vec::new())
    }

    /// Records that a client accepted a piece of work.
    pub(crate) fn internal_on_work_accepted(&mut self, client: AccountId, project_id: ProjectId, now: BlockNumber) -> (r:
        Result<Vec<RuntimeEvent>, DispatchError>)
        ensures
            match r {
                Ok(events) => old(self)@.registered(client) && final(self)@ == old(self)@.with_stats(
                    client,
                    after_work_accepted(old(self)@.reputation_stats[client], now),
                ) && events@ == Seq::<RuntimeEvent>::empty(),
                Err(e) => !old(self)@.registered(client) && e == DispatchError::Reputation(
                    Error::UserNotRegistered,
                ) && final(self)@ == old(self)@,
            },
    {
        let stats = self.reputation_stats(client);
        if !(stats.registration_block > 0) {
            return Err(DispatchError::Reputation(Error::UserNotRegistered));
        }
        let data = ReputationData {
            projects_completed: stats.projects_completed.saturating_add(1),
            last_activity_block: now,
            ..stats
        };
        self.reputation_stats.insert(client, data);
        Ok(Vec::new())
    }

    /// Leaves an attestation on an account, with the rating as its metadata.
    fn create_attestation(
        &mut self,
        account: AccountId,
        project_id: ProjectId,
        attestor: AttestorType,
        outcome: AttestationOutcome,
        value: Balance,
        rating: u32,
        now: BlockNumber,
    )
        ensures
            final(self)@ == (ReputationView {
                attestations: old(self)@.attestations.insert(
                    attestation_key(account, project_id),
                    final(self)@.attestations[attestation_key(account, project_id)],
                ),
                ..old(self)@
            }),
            ({
                let a = final(self)@.attestations[attestation_key(account, project_id)];
                &&& a.attestor == attestor
                &&& a.project_id == project_id
                &&& a.outcome == outcome
                &&& a.value == value
                &&& a.timestamp == now
                &&& uri_bytes(a.metadata) == le_bytes_u32(rating)
            }),
    {
        let metadata = match uri_try_from(encode_u32(rating)) {
            Ok(metadata) => metadata,
            Err(_) => unreached(),
        };
        let attestation = Attestation { attestor, project_id, outcome, value, timestamp: now, metadata };
        let key = Self::key_of(account, project_id);
        self.attestations.insert(key, attestation);
    }
}

} // verus!
