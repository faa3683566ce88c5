//! The life of a project: posted with its budget locked, applied for, started,
//! submitted, and accepted, rejected or cancelled.

use vstd::prelude::*;
use crate::bounded::{
    account_list_items, account_list_len, account_list_new, account_list_try_push, uri_bytes,
    uri_clone, uri_len, AccountList, Uri, MAX_ACCOUNTS,
};
use crate::ledger::{Ledger, LedgerView};
use crate::primitives::{ensure_signed, spec_ensure_signed, AccountId, Balance, BlockNumber, Origin, ProjectId};
use crate::projects::{
    lock_id, DisputeInfo, Error, Event, Metadata, Pallet, Project, ProjectStatus, ProjectsView,
    WorkSubmission,
};
use crate::reputation::interface::ReputationInterface;
use crate::reputation::selector::list_contains;
use crate::{DispatchError, RuntimeEvent};

verus! {

/// The rating of a client, from 1 to 5, on the scale of the reputation store.
pub open spec fn scaled_rating(rating: u32) -> u32 {
    (rating * 1000) as u32
}

/// Whether a project is the one that a client has just posted.
pub open spec fn is_posted(project: Project, client: AccountId, budget: Balance, uri: Uri, duration: BlockNumber) -> bool {
    &&& project.client == client
    &&& project.freelancer is None
    &&& project.uri == uri
    &&& project.budget == budget
    &&& project.status == ProjectStatus::Created
    &&& project.duration == duration
    &&& project.submission_block is None
    &&& project.work_submission is None
    &&& project.dispute_info is None
}

/// Whether a project is `before` with a new status and nothing else changed.
pub open spec fn moved_to(before: Project, after: Project, status: ProjectStatus) -> bool {
    &&& after.client == before.client
    &&& after.freelancer == before.freelancer
    &&& after.uri == before.uri
    &&& after.budget == before.budget
    &&& after.status == status
    &&& after.duration == before.duration
    &&& after.submission_block == before.submission_block
    &&& after.work_submission == before.work_submission
    &&& after.dispute_info == before.dispute_info
}

/// Whether a project is `before` after its client has chosen a freelancer.
pub open spec fn is_started(before: Project, after: Project, freelancer: AccountId, now: BlockNumber) -> bool {
    &&& after.client == before.client
    &&& after.freelancer == Some(freelancer)
    &&& after.uri == before.uri
    &&& after.budget == before.budget
    &&& after.status == ProjectStatus::InProgress
    &&& after.duration == before.duration
    &&& after.submission_block == Some(now.saturating_add(before.duration))
    &&& after.work_submission == before.work_submission
    &&& after.dispute_info == before.dispute_info
}

/// Whether a project is `before` after its freelancer has submitted that work.
pub open spec fn is_submitted(
    before: Project,
    after: Project,
    content_hash: [u8; 32],
    uri: Uri,
    metadata: Metadata,
    now: BlockNumber,
) -> bool {
    &&& after.client == before.client
    &&& after.freelancer == before.freelancer
    &&& after.uri == before.uri
    &&& after.budget == before.budget
    &&& after.status == ProjectStatus::InReview
    &&& after.duration == before.duration
    &&& after.submission_block == before.submission_block
    &&& after.work_submission == Some(
        WorkSubmission { content_hash, uri, submission_block: now, metadata },
    )
    &&& after.dispute_info == before.dispute_info
}

/// The number of rejections before one more.
pub open spec fn rejections_before(before: Project) -> u32 {
    match before.dispute_info {
        Some(info) => info.previous_submissions.wrapping_add(1),
        None => 0,
    }
}

/// Whether a project is `before` after its client has rejected the work for that
/// reason.
pub open spec fn is_rejected(before: Project, after: Project, reason: Seq<u8>, now: BlockNumber) -> bool {
    &&& after.client == before.client
    &&& after.freelancer == before.freelancer
    &&& after.uri == before.uri
    &&& after.budget == before.budget
    &&& after.status == ProjectStatus::Rejected
    &&& after.duration == before.duration
    &&& after.submission_block == before.submission_block
    &&& after.work_submission == before.work_submission
    &&& after.dispute_info matches Some(info)
    &&& uri_bytes(info.reason_uri) == reason
    &&& info.rejection_block == now
    &&& info.previous_submissions == rejections_before(before)
}


impl ProjectsView {
    /// Why an account cannot apply for a project, if it cannot.
    pub open spec fn apply_error(self, origin: Origin, project_id: ProjectId) -> Option<DispatchError> {
        match spec_ensure_signed(origin) {
            Err(e) => Some(e),
            Ok(applicant) => if !self.projects.contains_key(project_id) {
                Some(DispatchError::Projects(Error::ProjectNotFound))
            } else if self.projects[project_id].status != ProjectStatus::Created {
                Some(DispatchError::Projects(Error::InvalidStatus))
            } else if self.applicants(project_id).contains(applicant) {
                Some(DispatchError::Projects(Error::AlreadyApplied))
            } else if self.applicants(project_id).len() >= MAX_ACCOUNTS {
                Some(DispatchError::Projects(Error::TooManyApplicants))
            } else {
                None
            },
        }
    }

    /// Why a client cannot start the work on a project with a freelancer, if it cannot.
    pub open spec fn start_error(self, origin: Origin, project_id: ProjectId, freelancer: AccountId) -> Option<
        DispatchError,
    > {
        match spec_ensure_signed(origin) {
            Err(e) => Some(e),
            Ok(client) => if !self.projects.contains_key(project_id) {
                Some(DispatchError::Projects(Error::ProjectNotFound))
            } else if self.projects[project_id].client != client {
                Some(DispatchError::Projects(Error::NotProjectOwner))
            } else if self.projects[project_id].status != ProjectStatus::Created {
                Some(DispatchError::Projects(Error::InvalidStatus))
            } else if !self.applicants(project_id).contains(freelancer) {
                Some(DispatchError::Projects(Error::ApplicantNotFound))
            } else {
                None
            },
        }
    }

    /// Why a freelancer cannot submit work for a project, if it cannot.
    pub open spec fn submit_error(self, origin: Origin, project_id: ProjectId, uri: Seq<u8>, now: BlockNumber) -> Option<
        DispatchError,
    > {
        match spec_ensure_signed(origin) {
            Err(e) => Some(e),
            Ok(freelancer) => if !self.projects.contains_key(project_id) {
                Some(DispatchError::Projects(Error::ProjectNotFound))
            } else {
                let project = self.projects[project_id];
                if project.freelancer != Some(freelancer) {
                    Some(DispatchError::Projects(Error::NotFreelancer))
                } else if project.status != ProjectStatus::InProgress {
                    Some(DispatchError::Projects(Error::InvalidStatus))
                } else if project.work_submission is Some {
                    Some(DispatchError::Projects(Error::WorkAlreadySubmitted))
                } else if project.submission_block is Some && now > project.submission_block.unwrap() {
                    Some(DispatchError::Projects(Error::SubmissionDeadlinePassed))
                } else if uri.len() == 0 {
                    Some(DispatchError::Projects(Error::InvalidUri))
                } else {
                    None
                }
            },
        }
    }

    /// Why a client cannot review the work on a project, if it cannot: the project has
    /// to be its own and in review, with work submitted.
    pub open spec fn review_error(self, client: AccountId, project_id: ProjectId) -> Option<DispatchError> {
        if !self.projects.contains_key(project_id) {
            Some(DispatchError::Projects(Error::ProjectNotFound))
        } else {
            let project = self.projects[project_id];
            if project.client != client {
                Some(DispatchError::Projects(Error::NotProjectOwner))
            } else if project.status != ProjectStatus::InReview {
                Some(DispatchError::Projects(Error::InvalidStatus))
            } else if project.work_submission is None {
                Some(DispatchError::Projects(Error::NoWorkSubmitted))
            } else {
                None
            }
        }
    }

    /// Why a client cannot accept the work on a project, whatever the reputation store
    /// says, if it cannot: the rating has to be from 1 to 5, the project in review
    /// with a freelancer, and the client able to pay the budget once its lock is
    /// lifted.
    pub open spec fn accept_error(self, ledger: LedgerView, origin: Origin, project_id: ProjectId, rating: u32) -> Option<
        DispatchError,
    > {
        match spec_ensure_signed(origin) {
            Err(e) => Some(e),
            Ok(client) => if !(rating > 0 && rating <= 5) {
                Some(DispatchError::Other)
            } else {
                match self.review_error(client, project_id) {
                    Some(e) => Some(e),
                    None => if self.projects[project_id].freelancer is None {
                        Some(DispatchError::Projects(Error::NotFreelancer))
                    } else if !ledger.remove_lock(lock_id(project_id), client).can_withdraw(
                        client,
                        self.projects[project_id].budget,
                    ) {
                        Some(DispatchError::Projects(Error::PaymentFailed))
                    } else {
                        None
                    },
                }
            },
        }
    }

    /// Why a client cannot reject the work on a project, if it cannot.
    pub open spec fn reject_error(self, origin: Origin, project_id: ProjectId, reason: Seq<u8>) -> Option<
        DispatchError,
    > {
        match spec_ensure_signed(origin) {
            Err(e) => Some(e),
            Ok(client) => match self.review_error(client, project_id) {
                Some(e) => Some(e),
                None => if reason.len() == 0 {
                    Some(DispatchError::Projects(Error::InvalidUri))
                } else if self.projects[project_id].freelancer is None {
                    Some(DispatchError::Projects(Error::NotFreelancer))
                } else {
                    None
                },
            },
        }
    }

    /// Why a client cannot cancel a project, whatever the reputation store says, if it
    /// cannot.
    pub open spec fn cancel_error(self, origin: Origin, project_id: ProjectId) -> Option<DispatchError> {
        match spec_ensure_signed(origin) {
            Err(e) => Some(e),
            Ok(client) => if !self.projects.contains_key(project_id) {
                Some(DispatchError::Projects(Error::ProjectNotFound))
            } else if self.projects[project_id].client != client {
                Some(DispatchError::Projects(Error::NotProjectOwner))
            } else if !(self.projects[project_id].status == ProjectStatus::Created
                || self.projects[project_id].status == ProjectStatus::InProgress) {
                Some(DispatchError::Projects(Error::InvalidStatus))
            } else {
                None
            },
        }
    }
}

impl Pallet {
    /// Puts a project on record.
    pub(crate) fn put_project(&mut self, project_id: ProjectId, project: Project)
        ensures
            final(self)@ == old(self)@.with_project(project_id, project),
    {
        self.projects.insert(project_id, project);
    }

    /// Takes a project off the record, to be changed and put back.
    pub(crate) fn take_project(&mut self, project_id: ProjectId) -> (r: Option<Project>)
        ensures
            match r {
                Some(project) => old(self)@.projects.contains_key(project_id) && project == old(self)@.projects[project_id] && final(self)@ == (ProjectsView {
                    projects: old(self)@.projects.remove(project_id),
                    ..old(self)@
                }),
                None => !old(self)@.projects.contains_key(project_id) && final(self)@ == old(self)@,
            },
    {
        let r = self.projects.remove(&project_id);
        assert(r is None ==> self@.projects =~= old(self)@.projects);
        r
    }

    /// Posts a project for a signed sender: tells the reputation store, locks the
    /// budget of the client and puts the project on record under the next identifier.
    /// What the store refuses is refused with its error, and nothing else is. The
    /// report is what the store reports, and then the posting.
    pub fn create_project<R: ReputationInterface>(
        &mut self,
        reputation: &mut R,
        ledger: &mut Ledger,
        origin: Origin,
        budget: Balance,
        uri: Uri,
        duration: BlockNumber,
        now: BlockNumber,
    ) -> (r: Result<Vec<RuntimeEvent>, DispatchError>)
        requires
            old(ledger).wf(),
        ensures
            final(ledger).wf(),
            match r {
                Ok(events) => {
                    let project_id = old(self)@.next_project_id;
                    &&& spec_ensure_signed(origin) matches Ok(client)
                    &&& old(reputation).project_created_answer(client, budget, now) matches Ok(reported)
                    &&& final(self)@ == (ProjectsView {
                        next_project_id: project_id.wrapping_add(1),
                        ..old(self)@.with_project(project_id, final(self)@.projects[project_id])
                    })
                    &&& is_posted(final(self)@.projects[project_id], client, budget, uri, duration)
                    &&& final(ledger)@ == old(ledger)@.set_lock(lock_id(project_id), client, budget)
                    &&& events@ == reported.push(
                        RuntimeEvent::Projects(Event::ProjectCreated { project_id, client, budget }),
                    )
                },
                Err(e) => {
                    &&& match spec_ensure_signed(origin) {
                        Ok(client) => old(reputation).project_created_answer(client, budget, now)
                            matches Err(refused) && refused == e,
                        Err(refused) => refused == e,
                    }
                    &&& final(self)@ == old(self)@
                    &&& final(ledger)@ == old(ledger)@
                },
            },
    {
        let client = match ensure_signed(origin) {
            Ok(who) => who,
            Err(e) => {
                return Err(e);
            },
        };
        let mut events = match reputation.on_project_created(client, budget, now) {
            Ok(events) => events,
            Err(e) => {
                return Err(e);
            },
        };
        let project_id = self.next_project_id;
        let lock_id = Self::generate_lock_id(project_id);
        ledger.set_lock(lock_id, client, budget);
        let new_project = Project {
            client,
            freelancer: None,
            uri,
            budget,
            status: ProjectStatus::Created,
            duration,
            submission_block: None,
            work_submission: None,
            dispute_info: None,
        };
        self.put_project(project_id, new_project);
        self.next_project_id = project_id.wrapping_add(1);
        events.push(RuntimeEvent::Projects(Event::ProjectCreated { project_id, client, budget }));
        Ok(events)
    }

    /// Applies for a project that waits for a freelancer. An account applies once.
    pub fn apply_for_project(&mut self, origin: Origin, project_id: ProjectId) -> (r: Result<
        Vec<RuntimeEvent>,
        DispatchError,
    >)
        ensures
            match r {
                Ok(events) => spec_ensure_signed(origin) matches Ok(applicant) && old(self)@.apply_error(origin, project_id) is None && final(self)@ == (ProjectsView {
                    project_applicants: old(self)@.project_applicants.insert(
                        project_id,
                        old(self)@.applicants(project_id).push(applicant),
                    ),
                    ..old(self)@
                }) && events@ == seq![
                    RuntimeEvent::Projects(Event::ApplicationSubmitted { project_id, applicant }),
                ],
                Err(e) => old(self)@.apply_error(origin, project_id) == Some(e) && final(self)@
                    == old(self)@,
            },
    {
        let applicant = match ensure_signed(origin) {
            Ok(who) => who,
            Err(e) => {
                return Err(e);
            },
        };
        match self.projects(project_id) {
            None => {
                return Err(DispatchError::Projects(Error::ProjectNotFound));
            },
            Some(project) => {
                if project.status != ProjectStatus::Created {
                    return Err(DispatchError::Projects(Error::InvalidStatus));
                }
            },
        }
        let (already, full) = match self.project_applicants(project_id) {
            Some(list) => (
                list_contains(list, applicant),
                account_list_len(list) >= MAX_ACCOUNTS as usize,
            ),
            None => (false, false),
        };
        if already {
            return Err(DispatchError::Projects(Error::AlreadyApplied));
        }
        if full {
            return Err(DispatchError::Projects(Error::TooManyApplicants));
        }
        let mut applicants = match self.project_applicants.remove(&project_id) {
            Some(list) => list,
            None => account_list_new(),
        };
        let pushed = account_list_try_push(&mut applicants, applicant);
        assert(pushed is Ok);
        self.project_applicants.insert(project_id, applicants);
        assert(self@.project_applicants =~= old(self)@.project_applicants.insert(
            project_id,
            old(self)@.applicants(project_id).push(applicant),
        ));
        let mut events: Vec<RuntimeEvent> = Vec::new();
        events.push(RuntimeEvent::Projects(Event::ApplicationSubmitted { project_id, applicant }));
        Ok(events)
    }

    /// Starts the work on a project with one of its applicants: the work is due when
    /// the duration of the project has passed, and the applicants are dropped.
    pub fn start_work(
        &mut self,
        origin: Origin,
        project_id: ProjectId,
        selected_freelancer: AccountId,
        now: BlockNumber,
    ) -> (r: Result<Vec<RuntimeEvent>, DispatchError>)
        ensures
            match r {
                Ok(events) => old(self)@.start_error(origin, project_id, selected_freelancer) is None
                    && final(self)@ == (ProjectsView {
                    project_applicants: old(self)@.project_applicants.remove(project_id),
                    ..old(self)@.with_project(project_id, final(self)@.projects[project_id])
                }) && is_started(
                    old(self)@.projects[project_id],
                    final(self)@.projects[project_id],
                    selected_freelancer,
                    now,
                ) && events@ == seq![
                    RuntimeEvent::Projects(
                        Event::WorkStarted { project_id, freelancer: selected_freelancer },
                    ),
                ],
                Err(e) => old(self)@.start_error(origin, project_id, selected_freelancer) == Some(e)
                    && final(self)@ == old(self)@,
            },
    {
        let client = match ensure_signed(origin) {
            Ok(who) => who,
            Err(e) => {
                return Err(e);
            },
        };
        match self.projects(project_id) {
            None => {
                return Err(DispatchError::Projects(Error::ProjectNotFound));
            },
            Some(project) => {
                if project.client != client {
                    return Err(DispatchError::Projects(Error::NotProjectOwner));
                }
                if project.status != ProjectStatus::Created {
                    return Err(DispatchError::Projects(Error::InvalidStatus));
                }
            },
        }
        let applied = match self.project_applicants(project_id) {
            Some(list) => list_contains(list, selected_freelancer),
            None => false,
        };
        if !applied {
            return Err(DispatchError::Projects(Error::ApplicantNotFound));
        }
        let taken = self.take_project(project_id);
        let mut project = match taken {
            Some(project) => project,
            None => unreached(),
        };
        project.freelancer = Some(selected_freelancer);
        project.status = ProjectStatus::InProgress;
        project.submission_block = Some(now.saturating_add(project.duration));
        self.put_project(project_id, project);
        self.project_applicants.remove(&project_id);
        assert(self@.project_applicants =~= old(self)@.project_applicants.remove(project_id));
        assert(self@.projects =~= old(self)@.projects.insert(project_id, self@.projects[project_id]));
        let mut events: Vec<RuntimeEvent> = Vec::new();
        events.push(
            RuntimeEvent::Projects(Event::WorkStarted { project_id, freelancer: selected_freelancer }),
        );
        Ok(events)
    }

    /// Submits the work of the freelancer of a project, by its deadline; the work
    /// then waits for the review of the client.
    pub fn submit_work(
        &mut self,
        origin: Origin,
        project_id: ProjectId,
        content_hash: [u8; 32],
        uri: Uri,
        metadata: Metadata,
        now: BlockNumber,
    ) -> (r: Result<Vec<RuntimeEvent>, DispatchError>)
        ensures
            match r {
                Ok(events) => spec_ensure_signed(origin) matches Ok(freelancer) && old(self)@.submit_error(origin, project_id, uri_bytes(uri), now) is None && final(self)@
                    == old(self)@.with_project(project_id, final(self)@.projects[project_id])
                    && is_submitted(
                    old(self)@.projects[project_id],
                    final(self)@.projects[project_id],
                    content_hash,
                    uri,
                    metadata,
                    now,
                ) && events@ == seq![
                    RuntimeEvent::Projects(Event::WorkSubmitted { project_id, freelancer }),
                ],
                Err(e) => old(self)@.submit_error(origin, project_id, uri_bytes(uri), now) == Some(e)
                    && final(self)@ == old(self)@,
            },
    {
        let freelancer = match ensure_signed(origin) {
            Ok(who) => who,
            Err(e) => {
                return Err(e);
            },
        };
        match self.projects(project_id) {
            None => {
                return Err(DispatchError::Projects(Error::ProjectNotFound));
            },
            Some(project) => {
                match project.freelancer {
                    Some(assigned) => {
                        if assigned != freelancer {
                            return Err(DispatchError::Projects(Error::NotFreelancer));
                        }
                    },
                    None => {
                        return Err(DispatchError::Projects(Error::NotFreelancer));
                    },
                }
                if project.status != ProjectStatus::InProgress {
                    return Err(DispatchError::Projects(Error::InvalidStatus));
                }
                if project.work_submission.is_some() {
                    return Err(DispatchError::Projects(Error::WorkAlreadySubmitted));
                }
                if let Some(deadline) = project.submission_block {
                    if !(now <= deadline) {
                        return Err(DispatchError::Projects(Error::SubmissionDeadlinePassed));
                    }
                }
                if uri_len(&uri) == 0 {
                    return Err(DispatchError::Projects(Error::InvalidUri));
                }
            },
        }
        let taken = self.take_project(project_id);
        let mut project = match taken {
            Some(project) => project,
            None => unreached(),
        };
        project.work_submission = Some(
            WorkSubmission { content_hash, uri, submission_block: now, metadata },
        );
        project.status = ProjectStatus::InReview;
        self.put_project(project_id, project);
        assert(self@.projects =~= old(self)@.projects.insert(project_id, self@.projects[project_id]));
        let mut events: Vec<RuntimeEvent> = Vec::new();
        events.push(RuntimeEvent::Projects(Event::WorkSubmitted { project_id, freelancer }));
        Ok(events)
    }

    /// Checks that a project is the client's own and in review, with work submitted.
    fn check_review(&self, client: AccountId, project_id: ProjectId) -> (r: Result<(), DispatchError>)
        ensures
            match r {
                Ok(_) => self@.review_error(client, project_id) is None,
                Err(e) => self@.review_error(client, project_id) == Some(e),
            },
    {
        match self.projects(project_id) {
            None => Err(DispatchError::Projects(Error::ProjectNotFound)),
            Some(project) => {
                if project.client != client {
                    Err(DispatchError::Projects(Error::NotProjectOwner))
                } else if project.status != ProjectStatus::InReview {
                    Err(DispatchError::Projects(Error::InvalidStatus))
                } else if project.work_submission.is_none() {
                    Err(DispatchError::Projects(Error::NoWorkSubmitted))
                } else {
                    Ok(())
                }
            },
        }
    }

    /// Marks a project that is on record with a new status.
    pub(crate) fn set_status(&mut self, project_id: ProjectId, status: ProjectStatus)
        requires
            old(self)@.projects.contains_key(project_id),
        ensures
            final(self)@ == old(self)@.with_project(project_id, final(self)@.projects[project_id]),
            moved_to(old(self)@.projects[project_id], final(self)@.projects[project_id], status),
    {
        let taken = self.take_project(project_id);
        let mut project = match taken {
            Some(project) => project,
            None => unreached(),
        };
        project.status = status;
        self.put_project(project_id, project);
        assert(self@.projects =~= old(self)@.projects.insert(project_id, self@.projects[project_id]));
    }

    /// Accepts the work on a project with a rating from 1 to 5: lifts the lock on the
    /// budget, pays the budget to the freelancer, tells the reputation store of the
    /// completion and of the acceptance, and completes the project. The report ends
    /// with the acceptance.
    pub fn accept_work<R: ReputationInterface>(
        &mut self,
        reputation: &mut R,
        ledger: &mut Ledger,
        origin: Origin,
        project_id: ProjectId,
        rating: u32,
        now: BlockNumber,
    ) -> (r: Result<Vec<RuntimeEvent>, DispatchError>)
        requires
            old(ledger).wf(),
        ensures
            final(ledger).wf(),
            old(self)@.accept_error(old(ledger)@, origin, project_id, rating) matches Some(e) ==> r
                == Err::<Vec<RuntimeEvent>, DispatchError>(e),
            match r {
                Ok(events) => old(self)@.accept_error(old(ledger)@, origin, project_id, rating) is None
                    && final(self)@ == old(self)@.with_project(
                    project_id,
                    final(self)@.projects[project_id],
                ) && moved_to(
                    old(self)@.projects[project_id],
                    final(self)@.projects[project_id],
                    ProjectStatus::Completed,
                ) && events@.len() > 0 && events@.last() == RuntimeEvent::Projects(
                    Event::WorkAccepted {
                        project_id,
                        freelancer: old(self)@.projects[project_id].freelancer.unwrap(),
                        payment: old(self)@.projects[project_id].budget,
                    },
                ),
                Err(_) => final(self)@ == old(self)@ && final(ledger)@ == old(ledger)@,
            },
    {
        let client = match ensure_signed(origin) {
            Ok(who) => who,
            Err(e) => {
                return Err(e);
            },
        };
        if !(rating > 0 && rating <= 5) {
            return Err(DispatchError::Other);
        }
        let scaled_rating = rating * 1000;
        match self.check_review(client, project_id) {
            Ok(_) => {},
            Err(e) => {
                return Err(e);
            },
        }
        let (freelancer, payment) = match self.projects(project_id) {
            Some(project) => match project.freelancer {
                Some(freelancer) => (freelancer, project.budget),
                None => {
                    return Err(DispatchError::Projects(Error::NotFreelancer));
                },
            },
            None => {
                return Err(DispatchError::Projects(Error::ProjectNotFound));
            },
        };
        let mut scratch = ledger.snapshot();
        scratch.remove_lock(Self::generate_lock_id(project_id), client);
        match scratch.transfer(client, freelancer, payment) {
            Ok(_) => {},
            Err(_) => {
                return Err(DispatchError::Projects(Error::PaymentFailed));
            },
        }
        let mut events = match reputation.on_project_completed(
            &mut scratch,
            freelancer,
            payment,
            scaled_rating,
            project_id,
            now,
        ) {
            Ok(events) => events,
            Err(e) => {
                return Err(e);
            },
        };
        let mut more = match reputation.on_work_accepted(client, project_id, now) {
            Ok(events) => events,
            Err(e) => {
                return Err(e);
            },
        };
        *ledger = scratch;
        self.set_status(project_id, ProjectStatus::Completed);
        events.append(&mut more);
        events.push(RuntimeEvent::Projects(Event::WorkAccepted { project_id, freelancer, payment }));
        Ok(events)
    }

    /// Rejects the work on a project for a reason, and keeps the reason with the count
    /// of the rejections before.
    pub fn reject_work(&mut self, origin: Origin, project_id: ProjectId, reason_uri: Uri, now: BlockNumber) -> (r:
        Result<Vec<RuntimeEvent>, DispatchError>)
        ensures
            match r {
                Ok(events) => old(self)@.reject_error(origin, project_id, uri_bytes(reason_uri)) is None
                    && final(self)@ == old(self)@.with_project(
                    project_id,
                    final(self)@.projects[project_id],
                ) && is_rejected(
                    old(self)@.projects[project_id],
                    final(self)@.projects[project_id],
                    uri_bytes(reason_uri),
                    now,
                ) && events@ == seq![
                    RuntimeEvent::Projects(
                        Event::WorkRejected {
                            project_id,
                            freelancer: old(self)@.projects[project_id].freelancer.unwrap(),
                            reason_uri,
                        },
                    ),
                ],
                Err(e) => old(self)@.reject_error(origin, project_id, uri_bytes(reason_uri)) == Some(
                    e,
                ) && final(self)@ == old(self)@,
            },
    {
        let client = match ensure_signed(origin) {
            Ok(who) => who,
            Err(e) => {
                return Err(e);
            },
        };
        match self.check_review(client, project_id) {
            Ok(_) => {},
            Err(e) => {
                return Err(e);
            },
        }
        if uri_len(&reason_uri) == 0 {
            return Err(DispatchError::Projects(Error::InvalidUri));
        }
        let taken = self.take_project(project_id);
        let mut project = match taken {
            Some(project) => project,
            None => unreached(),
        };
        let freelancer = match project.freelancer {
            Some(freelancer) => freelancer,
            None => {
                self.put_project(project_id, project);
                assert(self@.projects =~= old(self)@.projects);
                return Err(DispatchError::Projects(Error::NotFreelancer));
            },
        };
        let previous_submissions = match &project.dispute_info {
            Some(info) => info.previous_submissions.wrapping_add(1),
            None => 0,
        };
        project.dispute_info = Some(
            DisputeInfo { reason_uri: uri_clone(&reason_uri), rejection_block: now, previous_submissions },
        );
        project.status = ProjectStatus::Rejected;
        self.put_project(project_id, project);
        assert(self@.projects =~= old(self)@.projects.insert(project_id, self@.projects[project_id]));
        let mut events: Vec<RuntimeEvent> = Vec::new();
        events.push(RuntimeEvent::Projects(Event::WorkRejected { project_id, freelancer, reason_uri }));
        Ok(events)
    }

    /// Cancels a project that is not yet submitted: lifts the lock on the budget and
    /// tells the reputation store. The report ends with the cancellation.
    pub fn cancel_project<R: ReputationInterface>(
        &mut self,
        reputation: &mut R,
        ledger: &mut Ledger,
        origin: Origin,
        project_id: ProjectId,
        now: BlockNumber,
    ) -> (r: Result<Vec<RuntimeEvent>, DispatchError>)
        requires
            old(ledger).wf(),
        ensures
            final(ledger).wf(),
            old(self)@.cancel_error(origin, project_id) matches Some(e) ==> r == Err::<
                Vec<RuntimeEvent>,
                DispatchError,
            >(e),
            match r {
                Ok(events) => spec_ensure_signed(origin) matches Ok(client) && old(self)@.cancel_error(origin, project_id) is None && final(self)@ == old(self)@.with_project(project_id, final(self)@.projects[project_id]) && moved_to(
                    old(self)@.projects[project_id],
                    final(self)@.projects[project_id],
                    ProjectStatus::Cancelled,
                ) && final(ledger)@ == old(ledger)@.remove_lock(lock_id(project_id), client)
                    && events@.len() > 0 && events@.last() == RuntimeEvent::Projects(
                    Event::ProjectCancelled { project_id, client },
                ),
                Err(_) => final(self)@ == old(self)@ && final(ledger)@ == old(ledger)@,
            },
    {
        let client = match ensure_signed(origin) {
            Ok(who) => who,
            Err(e) => {
                return Err(e);
            },
        };
        match self.projects(project_id) {
            None => {
                return Err(DispatchError::Projects(Error::ProjectNotFound));
            },
            Some(project) => {
                if project.client != client {
                    return Err(DispatchError::Projects(Error::NotProjectOwner));
                }
                if !(project.status == ProjectStatus::Created || project.status
                    == ProjectStatus::InProgress) {
                    return Err(DispatchError::Projects(Error::InvalidStatus));
                }
            },
        }
        let mut events = match reputation.on_project_cancelled(client, now) {
            Ok(events) => events,
            Err(e) => {
                return Err(e);
            },
        };
        ledger.remove_lock(Self::generate_lock_id(project_id), client);
        self.set_status(project_id, ProjectStatus::Cancelled);
        events.push(RuntimeEvent::Projects(Event::ProjectCancelled { project_id, client }));
        Ok(events)
    }
}

} // verus!
