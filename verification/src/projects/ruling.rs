//! The project escrow under arbitration: what it tells the arbitration of a project,
//! and how it carries out a ruling.

use vstd::prelude::*;
use crate::bounded::{uri_bytes, uri_clone};
use crate::ledger::{Ledger, LedgerView};
use crate::primitives::{AccountId, Balance, BlockNumber, LedgerError, ProjectId};
use crate::projects::lifecycle::moved_to;
use crate::projects::{
    lock_id, Arbitrable, Error, EvidenceUri, Pallet, ProjectStatus, ProjectsView, Ruling,
};
use crate::reputation::interface::ReputationInterface;
use crate::{DispatchError, RuntimeEvent};

verus! {

/// The rating that a freelancer gets for a project that a ruling decided for it.
pub const RULED_RATING: u32 = 3000;

impl ProjectsView {
    /// Why a project cannot be marked as in dispute, if it cannot: work has to be in
    /// review or rejected.
    pub open spec fn in_dispute_error(self, project_id: ProjectId) -> Option<DispatchError> {
        if !self.projects.contains_key(project_id) {
            Some(DispatchError::Projects(Error::ProjectNotFound))
        } else if !(self.projects[project_id].status == ProjectStatus::Rejected
            || self.projects[project_id].status == ProjectStatus::InReview) {
            Some(DispatchError::Projects(Error::InvalidStatus))
        } else {
            None
        }
    }
}

impl ProjectsView {
    /// Why the ruling of a dispute about a project cannot be carried out, if it
    /// cannot, with that reputation store and that ledger at hand: the project has to
    /// have a freelancer; for the freelancer, the client has to be able to give up the
    /// budget once the lock on it is lifted, and the store has to record a completed
    /// project; for the client, the store has to record the outcome of the dispute.
    pub open spec fn ruling_error<R: ReputationInterface>(
        self,
        reputation: R,
        ledger: LedgerView,
        project_id: ProjectId,
        ruling: Ruling,
        now: BlockNumber,
    ) -> Option<DispatchError> {
        match self.project_parties(project_id) {
            Err(e) => Some(e),
            Ok(parties) => {
                let budget = self.projects[project_id].budget;
                match ruling {
                    Ruling::FreelancerWins => {
                        let unlocked = ledger.remove_lock(lock_id(project_id), parties.0);
                        if !unlocked.can_withdraw(parties.0, budget) {
                            Some(DispatchError::Ledger(LedgerError::InsufficientBalance))
                        } else {
                            reputation.project_completed_refusal(
                                unlocked.transfer(parties.0, parties.1, budget),
                                parties.1,
                                budget,
                                RULED_RATING,
                                project_id,
                                now,
                            )
                        }
                    },
                    Ruling::ClientWins => reputation.dispute_outcome_refusal(
                        ledger,
                        parties.0,
                        parties.1,
                        project_id,
                        budget,
                        now,
                    ),
                }
            },
        }
    }
}

impl Pallet {
    /// The budget of a project.
    pub(crate) fn project_budget(&self, project_id: ProjectId) -> (r: Result<Balance, DispatchError>)
        ensures
            r == self@.project_budget(project_id),
    {
        match self.projects(project_id) {
            Some(project) => Ok(project.budget),
            None => Err(DispatchError::Projects(Error::ProjectNotFound)),
        }
    }

    /// The client and the freelancer of a project that has one.
    pub(crate) fn project_parties(&self, project_id: ProjectId) -> (r: Result<(AccountId, AccountId), DispatchError>)
        ensures
            r == self@.project_parties(project_id),
    {
        match self.projects(project_id) {
            Some(project) => match project.freelancer {
                Some(freelancer) => Ok((project.client, freelancer)),
                None => Err(DispatchError::Projects(Error::NotFreelancer)),
            },
            None => Err(DispatchError::Projects(Error::ProjectNotFound)),
        }
    }

    /// How far a project has come.
    pub(crate) fn project_status(&self, project_id: ProjectId) -> (r: Result<ProjectStatus, DispatchError>)
        ensures
            r == self@.project_status(project_id),
    {
        match self.projects(project_id) {
            Some(project) => Ok(project.status),
            None => Err(DispatchError::Projects(Error::ProjectNotFound)),
        }
    }

    /// Marks a project whose work is in review or rejected as in dispute.
    pub(crate) fn mark_in_dispute(&mut self, project_id: ProjectId) -> (r: Result<(), DispatchError>)
        ensures
            match r {
                Ok(_) => old(self)@.in_dispute_error(project_id) is None && final(self)@ == old(self)@.with_project(project_id, final(self)@.projects[project_id]) && moved_to(
                    old(self)@.projects[project_id],
                    final(self)@.projects[project_id],
                    ProjectStatus::InDispute,
                ),
                Err(e) => old(self)@.in_dispute_error(project_id) == Some(e) && final(self)@ == old(self)@,
            },
    {
        let status_before = match self.projects(project_id) {
            Some(project) => project.status,
            None => {
                return Err(DispatchError::Projects(Error::ProjectNotFound));
            },
        };
        if status_before == ProjectStatus::Rejected || status_before == ProjectStatus::InReview {
            self.set_status(project_id, ProjectStatus::InDispute);
            Ok(())
        } else {
            Err(DispatchError::Projects(Error::InvalidStatus))
        }
    }

    /// The addresses of the requirements of a project and of the work submitted for
    /// it.
    pub(crate) fn evidence_uris(&self, project_id: ProjectId) -> (r: Result<(EvidenceUri, EvidenceUri), DispatchError>)
        ensures
            match r {
                Ok(uris) => {
                    &&& self@.projects.contains_key(project_id)
                    &&& self@.projects[project_id].work_submission matches Some(work)
                    &&& uri_bytes(uris.0) == uri_bytes(self@.projects[project_id].uri)
                    &&& uri_bytes(uris.1) == uri_bytes(work.uri)
                },
                Err(e) => if !self@.projects.contains_key(project_id) {
                    e == DispatchError::Projects(Error::ProjectNotFound)
                } else {
                    self@.projects[project_id].work_submission is None && e
                        == DispatchError::Projects(Error::NoWorkSubmitted)
                },
            },
    {
        match self.projects(project_id) {
            Some(project) => match &project.work_submission {
                Some(work) => Ok((uri_clone(&project.uri), uri_clone(&work.uri))),
                None => Err(DispatchError::Projects(Error::NoWorkSubmitted)),
            },
            None => Err(DispatchError::Projects(Error::ProjectNotFound)),
        }
    }

    /// Carries out the ruling of a dispute about a project and completes the project.
    /// For the freelancer: lifts the lock on the budget, pays the budget to the
    /// freelancer, and has the reputation store record a completed project. For the
    /// client: the budget stays with the client, and the reputation store records the
    /// outcome of the dispute. Whatever fails leaves the escrow and the ledger as they
    /// were.
    pub(crate) fn carry_out_ruling<R: ReputationInterface>(
        &mut self,
        reputation: &mut R,
        ledger: &mut Ledger,
        project_id: ProjectId,
        ruling: Ruling,
        now: BlockNumber,
    ) -> (r: Result<Vec<RuntimeEvent>, DispatchError>)
        requires
            old(ledger).wf(),
        ensures
            final(ledger).wf(),
            match r {
                Ok(_) => old(self)@.ruling_error(*old(reputation), old(ledger)@, project_id, ruling, now) is None
                    && final(self)@ == old(self)@.with_project(project_id, final(self)@.projects[project_id]) && moved_to(
                    old(self)@.projects[project_id],
                    final(self)@.projects[project_id],
                    ProjectStatus::Completed,
                ),
                Err(e) => old(self)@.ruling_error(*old(reputation), old(ledger)@, project_id, ruling, now) == Some(e)
                    && final(self)@ == old(self)@ && final(ledger)@ == old(ledger)@,
            },
    {
        let (client, freelancer, budget) = match self.projects(project_id) {
            Some(project) => match project.freelancer {
                Some(freelancer) => (project.client, freelancer, project.budget),
                None => {
                    return Err(DispatchError::Projects(Error::NotFreelancer));
                },
            },
            None => {
                return Err(DispatchError::Projects(Error::ProjectNotFound));
            },
        };
        let mut scratch = ledger.snapshot();
        let events = match ruling {
            Ruling::FreelancerWins => {
                scratch.remove_lock(Self::generate_lock_id(project_id), client);
                match scratch.transfer(client, freelancer, budget) {
                    Ok(_) => {},
                    Err(e) => {
                        return Err(DispatchError::Ledger(e));
                    },
                }
                match reputation.on_project_completed(
                    &mut scratch,
                    freelancer,
                    budget,
                    RULED_RATING,
                    project_id,
                    now,
                ) {
                    Ok(events) => events,
                    Err(e) => {
                        return Err(e);
                    },
                }
            },
            Ruling::ClientWins => {
                match reputation.on_dispute_outcome(&mut scratch, client, freelancer, project_id, budget, now) {
                    Ok(events) => events,
                    Err(e) => {
                        return Err(e);
                    },
                }
            },
        };
        *ledger = scratch;
        self.set_status(project_id, ProjectStatus::Completed);
        Ok(events)
    }
}

impl Arbitrable for Pallet {
    open spec fn budget_answer(&self, project_id: ProjectId) -> Result<Balance, DispatchError> {
        self@.project_budget(project_id)
    }

    open spec fn parties_answer(&self, project_id: ProjectId) -> Result<(AccountId, AccountId), DispatchError> {
        self@.project_parties(project_id)
    }

    open spec fn in_dispute_answer(&self, project_id: ProjectId) -> Option<DispatchError> {
        self@.in_dispute_error(project_id)
    }

    fn on_ruling<R: ReputationInterface>(
        &mut self,
        reputation: &mut R,
        ledger: &mut Ledger,
        project_id: ProjectId,
        ruling: Ruling,
        now: BlockNumber,
    ) -> (r: Result<Vec<RuntimeEvent>, DispatchError>)
        ensures
            match r {
                Ok(_) => old(self)@.ruling_error(*old(reputation), old(ledger)@, project_id, ruling, now) is None
                    && final(self)@ == old(self)@.with_project(project_id, final(self)@.projects[project_id]) && moved_to(
                    old(self)@.projects[project_id],
                    final(self)@.projects[project_id],
                    ProjectStatus::Completed,
                ),
                Err(e) => old(self)@.ruling_error(*old(reputation), old(ledger)@, project_id, ruling, now) == Some(e)
                    && final(self)@ == old(self)@ && final(ledger)@ == old(ledger)@,
            },
    {
        self.carry_out_ruling(reputation, ledger, project_id, ruling, now)
    }

    fn get_project_budget(&self, project_id: ProjectId) -> (r: Result<Balance, DispatchError>)
        ensures
            r == self@.project_budget(project_id),
    {
        self.project_budget(project_id)
    }

    fn get_project_parties(&self, project_id: ProjectId) -> (r: Result<(AccountId, AccountId), DispatchError>)
        ensures
            r == self@.project_parties(project_id),
    {
        self.project_parties(project_id)
    }

    fn set_project_status_in_dispute(&mut self, project_id: ProjectId) -> (r: Result<(), DispatchError>)
        ensures
            match r {
                Ok(_) => old(self)@.in_dispute_error(project_id) is None && final(self)@ == old(self)@.with_project(project_id, final(self)@.projects[project_id]) && moved_to(
                    old(self)@.projects[project_id],
                    final(self)@.projects[project_id],
                    ProjectStatus::InDispute,
                ),
                Err(e) => old(self)@.in_dispute_error(project_id) == Some(e) && final(self)@ == old(self)@,
            },
    {
        self.mark_in_dispute(project_id)
    }

    fn get_project_status(&self, project_id: ProjectId) -> (r: Result<ProjectStatus, DispatchError>)
        ensures
            r == self@.project_status(project_id),
    {
        self.project_status(project_id)
    }

    fn get_evidence_uris(&self, project_id: ProjectId) -> (r: Result<(EvidenceUri, EvidenceUri), DispatchError>)
        ensures
            match r {
                Ok(uris) => {
                    &&& self@.projects.contains_key(project_id)
                    &&& self@.projects[project_id].work_submission matches Some(work)
                    &&& uri_bytes(uris.0) == uri_bytes(self@.projects[project_id].uri)
                    &&& uri_bytes(uris.1) == uri_bytes(work.uri)
                },
                Err(e) => if !self@.projects.contains_key(project_id) {
                    e == DispatchError::Projects(Error::ProjectNotFound)
                } else {
                    self@.projects[project_id].work_submission is None && e
                        == DispatchError::Projects(Error::NoWorkSubmitted)
                },
            },
    {
        self.evidence_uris(project_id)
    }
}

} // verus!
