//! The project escrow, and what the arbitration asks of it.

pub mod lifecycle;
pub mod ruling;

use vstd::prelude::*;
use std::collections::HashMap;
use frame_support::traits::ConstU32;
use frame_support::{BoundedVec, PalletId};
use sp_runtime::traits::AccountIdConversion;
use crate::bounded::{account_list_items, uri_bytes, AccountList, Uri};
use crate::ledger::{Ledger, LockId};
use crate::primitives::{AccountId, Balance, BlockNumber, ProjectId};
use crate::reputation::interface::ReputationInterface;
use crate::scale::{encode_u32, le_bytes_u32};
use crate::{DispatchError, RuntimeEvent};

verus! {

/// The address of a piece of evidence: the requirements of a project or the work
/// submitted for it.
pub type EvidenceUri = Uri;

/// How far a project has come.
#[derive(Clone, Copy, PartialEq, Eq, Debug, Structural)]
pub enum ProjectStatus {
    /// Proposed and waiting for a freelancer.
    Created,
    /// A freelancer is at work.
    InProgress,
    /// Work was submitted and waits for the client.
    InReview,
    /// The client rejected the work.
    Rejected,
    /// The freelancer opened a dispute.
    InDispute,
    /// The work was accepted or the dispute was ruled.
    Completed,
    /// The client cancelled.
    Cancelled,
}

/// Who a dispute was ruled for.
#[derive(Clone, Copy, PartialEq, Eq, Debug, Structural)]
pub enum Ruling {
    ClientWins,
    FreelancerWins,
}

/// What the project escrow reports.
#[derive(PartialEq, Eq, Debug)]
pub enum Event {
    ProjectCreated { project_id: ProjectId, client: AccountId, budget: Balance },
    WorkSubmitted { project_id: ProjectId, freelancer: AccountId },
    WorkAccepted { project_id: ProjectId, freelancer: AccountId, payment: Balance },
    WorkRejected { project_id: ProjectId, freelancer: AccountId, reason_uri: Uri },
    ApplicationSubmitted { project_id: ProjectId, applicant: AccountId },
    WorkStarted { project_id: ProjectId, freelancer: AccountId },
    ProjectCancelled { project_id: ProjectId, client: AccountId },
}

/// Why the project escrow refused.
#[derive(Clone, Copy, PartialEq, Eq, Debug, Structural)]
pub enum Error {
    ProjectNotFound,
    NotProjectOwner,
    NotFreelancer,
    InvalidStatus,
    FreelancerAlreadyAssigned,
    TooManyApplicants,
    AlreadyApplied,
    ApplicantNotFound,
    WorkAlreadySubmitted,
    InvalidHash,
    InvalidUri,
    InvalidMetadata,
    SubmissionDeadlinePassed,
    NoWorkSubmitted,
    PaymentFailed,
    UnlockFailed,
}

/// A store of projects that can be put under arbitration. Every method that can move
/// value is handed the ledger and leaves it a ledger. What a store answers when it is
/// asked for the budget or the parties of a project, or to mark a project as in
/// dispute, is a function of the store and the project, which the store names; what
/// the answers are is the store's to decide.
pub trait Arbitrable {
    /// Carries out the ruling of a dispute about a project, and returns what there is
    /// to report.
    fn on_ruling<R: ReputationInterface>(
        &mut self,
        reputation: &mut R,
        ledger: &mut Ledger,
        project_id: ProjectId,
        ruling: Ruling,
        now: BlockNumber,
    ) -> (r: Result<Vec<RuntimeEvent>, DispatchError>)
        requires
            old(ledger).wf(),
        ensures
            final(ledger).wf(),
    ;

    /// What this store answers when it is asked for the budget of a project. A store
    /// that does not say what it answers refuses.
    closed spec fn budget_answer(&self, project_id: ProjectId) -> Result<Balance, DispatchError> {
        Err(DispatchError::Other)
    }

    /// What this store answers when it is asked for the parties of a project. A store
    /// that does not say what it answers refuses.
    closed spec fn parties_answer(&self, project_id: ProjectId) -> Result<(AccountId, AccountId), DispatchError> {
        Err(DispatchError::Other)
    }

    /// Why this store refuses to mark a project as in dispute, if it is asked to and
    /// refuses. A store that does not say what it answers refuses.
    closed spec fn in_dispute_answer(&self, project_id: ProjectId) -> Option<DispatchError> {
        Some(DispatchError::Other)
    }

    /// The budget of a project.
    fn get_project_budget(&self, project_id: ProjectId) -> (r: Result<Balance, DispatchError>)
        ensures
            r == self.budget_answer(project_id),
    ;

    /// The client and the freelancer of a project.
    fn get_project_parties(&self, project_id: ProjectId) -> (r: Result<(AccountId, AccountId), DispatchError>)
        ensures
            r == self.parties_answer(project_id),
    ;

    /// Marks a project as being in dispute.
    fn set_project_status_in_dispute(&mut self, project_id: ProjectId) -> (r: Result<(), DispatchError>)
        ensures
            match r {
                Ok(_) => old(self).in_dispute_answer(project_id) is None,
                Err(e) => old(self).in_dispute_answer(project_id) == Some(e),
            },
    ;

    /// How far a project has come.
    fn get_project_status(&self, project_id: ProjectId) -> (r: Result<ProjectStatus, DispatchError>);

    /// The addresses of the requirements of a project and of the work submitted for it.
    fn get_evidence_uris(&self, project_id: ProjectId) -> (r: Result<(EvidenceUri, EvidenceUri), DispatchError>);
}

/// At most 1024 bytes that a freelancer adds to a piece of work.
pub type Metadata = BoundedVec<u8, ConstU32<1024>>;

/// A piece of work that a freelancer has submitted.
#[derive(PartialEq, Eq, Debug)]
pub struct WorkSubmission {
    /// The hash of the work.
    pub content_hash: [u8; 32],
    /// The address at which the work is kept.
    pub uri: Uri,
    /// The block at which the work was submitted.
    pub submission_block: BlockNumber,
    /// What the freelancer adds about the work.
    pub metadata: Metadata,
}

/// What the escrow keeps of a rejection.
#[derive(PartialEq, Eq, Debug)]
pub struct DisputeInfo {
    /// The address of the reason that the client gives.
    pub reason_uri: Uri,
    /// The block at which the work was rejected.
    pub rejection_block: BlockNumber,
    /// The number of rejections before this one.
    pub previous_submissions: u32,
}

/// A project and its escrow.
#[derive(PartialEq, Eq, Debug)]
pub struct Project {
    pub client: AccountId,
    pub freelancer: Option<AccountId>,
    /// The address of the requirements.
    pub uri: Uri,
    /// What the client has locked for the project.
    pub budget: Balance,
    pub status: ProjectStatus,
    /// The blocks that the work may take.
    pub duration: BlockNumber,
    /// The block by which the work has to be submitted.
    pub submission_block: Option<BlockNumber>,
    pub work_submission: Option<WorkSubmission>,
    pub dispute_info: Option<DisputeInfo>,
}

/// What the escrow is configured with.
#[derive(Clone, Copy, PartialEq, Eq, Debug)]
pub struct Config {
    /// The identifier from which the account of the escrow derives.
    pub pallet_id: [u8; 8],
    /// The blocks that a client has to review a piece of work.
    pub review_period: BlockNumber,
}

/// The project escrow: the projects and who has applied for them.
pub struct Pallet {
    /// What the escrow is configured with.
    pub config: Config,
    /// The projects.
    pub projects: HashMap<ProjectId, Project>,
    /// The identifier that the next project gets.
    pub next_project_id: ProjectId,
    /// The applicants of each project that waits for a freelancer.
    pub project_applicants: HashMap<ProjectId, AccountList>,
}

/// The project escrow as contracts see it.
pub struct ProjectsView {
    pub pallet_id: [u8; 8],
    pub review_period: BlockNumber,
    pub projects: Map<ProjectId, Project>,
    pub next_project_id: ProjectId,
    pub project_applicants: Map<ProjectId, Seq<AccountId>>,
}

impl View for Pallet {
    type V = ProjectsView;

    open spec fn view(&self) -> ProjectsView {
        ProjectsView {
            pallet_id: self.config.pallet_id,
            review_period: self.config.review_period,
            projects: self.projects@,
            next_project_id: self.next_project_id,
            project_applicants: self.project_applicants@.map_values(
                |list: AccountList| account_list_items(list),
            ),
        }
    }
}

/// The bytes of the name of the lock on the budget of a project: `tsk/`, and the four
/// bytes of the identifier of the project, lowest first.
pub open spec fn lock_id_bytes(project_id: ProjectId) -> Seq<u8> {
    seq![0x74u8, 0x73u8, 0x6bu8, 0x2fu8] + le_bytes_u32(project_id)
}

/// The name of the lock on the budget of a project.
pub open spec fn lock_id(project_id: ProjectId) -> LockId {
    choose|id: LockId| id@ == lock_id_bytes(project_id)
}

/// `AccountIdConversion::into_account_truncating` of a `PalletId`: the encoding of
/// `modl` and the identifier, cut to the eight bytes of an account and read lowest
/// byte first.
#[verifier::external_body]
pub(crate) fn pallet_main_account(pallet_id: [u8; 8]) -> (account: AccountId)
    ensures
        account == crate::arbitration::spec_pallet_account(pallet_id@),
{
    PalletId(pallet_id).into_account_truncating()
}

impl ProjectsView {
    /// The applicants of a project; none where none are on record.
    pub open spec fn applicants(self, project_id: ProjectId) -> Seq<AccountId> {
        if self.project_applicants.contains_key(project_id) {
            self.project_applicants[project_id]
        } else {
            Seq::empty()
        }
    }

    /// The escrow with one project replaced.
    pub open spec fn with_project(self, project_id: ProjectId, project: Project) -> ProjectsView {
        ProjectsView { projects: self.projects.insert(project_id, project), ..self }
    }

    /// The budget of a project, or why it cannot be told.
    pub open spec fn project_budget(self, project_id: ProjectId) -> Result<Balance, DispatchError> {
        if self.projects.contains_key(project_id) {
            Ok(self.projects[project_id].budget)
        } else {
            Err(DispatchError::Projects(Error::ProjectNotFound))
        }
    }

    /// The client and the freelancer of a project, or why they cannot be told.
    pub open spec fn project_parties(self, project_id: ProjectId) -> Result<
        (AccountId, AccountId),
        DispatchError,
    > {
        if !self.projects.contains_key(project_id) {
            Err(DispatchError::Projects(Error::ProjectNotFound))
        } else {
            match self.projects[project_id].freelancer {
                Some(freelancer) => Ok((self.projects[project_id].client, freelancer)),
                None => Err(DispatchError::Projects(Error::NotFreelancer)),
            }
        }
    }

    /// How far a project has come, or why it cannot be told.
    pub open spec fn project_status(self, project_id: ProjectId) -> Result<ProjectStatus, DispatchError> {
        if self.projects.contains_key(project_id) {
            Ok(self.projects[project_id].status)
        } else {
            Err(DispatchError::Projects(Error::ProjectNotFound))
        }
    }
}

impl Pallet {
    /// An escrow without projects.
    pub fn new(config: Config) -> (pallet: Pallet)
        ensures
            pallet@.pallet_id == config.pallet_id,
            pallet@.review_period == config.review_period,
            pallet@.projects == Map::<ProjectId, Project>::empty(),
            pallet@.next_project_id == 0,
            pallet@.project_applicants == Map::<ProjectId, Seq<AccountId>>::empty(),
    {
        let pallet = Pallet {
            config,
            projects: HashMap::new(),
            next_project_id: 0,
            project_applicants: HashMap::new(),
        };
        assert(pallet@.project_applicants =~= Map::<ProjectId, Seq<AccountId>>::empty());
        pallet
    }

    /// A project, if there is one of that identifier.
    pub fn projects(&self, project_id: ProjectId) -> (r: Option<&Project>)
        ensures
            match r {
                Some(project) => self@.projects.contains_key(project_id) && *project
                    == self@.projects[project_id],
                None => !self@.projects.contains_key(project_id),
            },
    {
        self.projects.get(&project_id)
    }

    /// The identifier that the next project gets.
    pub fn next_project_id(&self) -> (id: ProjectId)
        ensures
            id == self@.next_project_id,
    {
        self.next_project_id
    }

    /// The accounts that have applied for a project.
    pub fn project_applicants(&self, project_id: ProjectId) -> (r: Option<&AccountList>)
        ensures
            match r {
                Some(list) => self@.project_applicants.contains_key(project_id)
                    && account_list_items(*list) == self@.applicants(project_id),
                None => !self@.project_applicants.contains_key(project_id) && self@.applicants(
                    project_id,
                ) == Seq::<AccountId>::empty(),
            },
    {
        self.project_applicants.get(&project_id)
    }

    /// The account of the escrow.
    pub fn account_id(&self) -> (account: AccountId)
        ensures
            account == crate::arbitration::spec_pallet_account(self@.pallet_id@),
    {
        pallet_main_account(self.config.pallet_id)
    }

    /// The name of the lock on the budget of a project.
    pub fn generate_lock_id(project_id: ProjectId) -> (id: LockId)
        ensures
            id@ == lock_id_bytes(project_id),
            id == lock_id(project_id),
    {
        let id_bytes = encode_u32(project_id);
        let id = [0x74u8, 0x73u8, 0x6bu8, 0x2fu8, id_bytes[0], id_bytes[1], id_bytes[2], id_bytes[3]];
        assert(id@ =~= lock_id_bytes(project_id));
        assert(id =~= lock_id(project_id));
        id
    }
}

} // verus!
