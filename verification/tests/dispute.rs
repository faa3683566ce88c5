use std::collections::HashMap;

use arbitration::arbitration::{
    Config, DisputeStatus, Error, Event, JurorReward, Pallet as Arbitration, Ruling, Vote,
};
use arbitration::bounded::{AccountList, Uri};
use arbitration::ledger::Ledger;
use arbitration::primitives::{AccountId, Balance, BlockNumber, LedgerError, Origin, ProjectId, UNIT};
use arbitration::projects::{
    Arbitrable, EvidenceUri, Config as ProjectsConfig, Pallet as Projects, ProjectStatus, Ruling as ProjectRuling,
};
use arbitration::reputation::interface::ReputationInterface;
use arbitration::reputation::{Event as ReputationEvent, JurorTier, Pallet as Reputation, ReputationData};
use sp_runtime::Permill;
use arbitration::{DispatchError, RuntimeEvent};

const APPEAL_PERIOD: BlockNumber = 100;
const VOTING_PERIOD: BlockNumber = 200;

fn str_to_bounded(s: &str) -> Uri {
    Uri::try_from(s.as_bytes().to_vec()).unwrap()
}

fn account(s: &str) -> AccountId {
    s.bytes().fold(7u64, |acc, b| acc.wrapping_mul(131).wrapping_add(b as u64))
}

struct MockReputation {
    jurors: AccountList,
}

impl MockReputation {
    fn set_jurors(&mut self, jurors: Vec<AccountId>) {
        self.jurors = AccountList::try_from(jurors).unwrap();
    }
}

impl ReputationInterface for MockReputation {
    fn on_project_completed(
        &mut self,
        _ledger: &mut Ledger,
        _freelancer: AccountId,
        _project_value: Balance,
        _client_rating: u32,
        _project_id: ProjectId,
        _now: BlockNumber,
    ) -> Result<Vec<RuntimeEvent>, DispatchError> {
        Ok(Vec::new())
    }

    fn on_dispute_outcome(
        &mut self,
        _ledger: &mut Ledger,
        _winner: AccountId,
        _loser: AccountId,
        _project_id: ProjectId,
        _project_value: Balance,
        _now: BlockNumber,
    ) -> Result<Vec<RuntimeEvent>, DispatchError> {
        Ok(Vec::new())
    }

    fn on_project_created(
        &mut self,
        _client: AccountId,
        _budget: Balance,
        _now: BlockNumber,
    ) -> Result<Vec<RuntimeEvent>, DispatchError> {
        Ok(Vec::new())
    }

    fn on_project_cancelled(&mut self, _client: AccountId, _now: BlockNumber) -> Result<Vec<RuntimeEvent>, DispatchError> {
        Ok(Vec::new())
    }

    fn on_work_accepted(
        &mut self,
        _client: AccountId,
        _project_id: ProjectId,
        _now: BlockNumber,
    ) -> Result<Vec<RuntimeEvent>, DispatchError> {
        Ok(Vec::new())
    }

    fn get_eligible_jurors(&mut self, _min_tier: JurorTier, _exclude: &[AccountId], _count: u32) -> AccountList {
        self.jurors.clone()
    }

    fn on_jury_vote(
        &mut self,
        _ledger: &mut Ledger,
        _juror: AccountId,
        _voted_with_majority: bool,
        _now: BlockNumber,
    ) -> Result<Vec<RuntimeEvent>, DispatchError> {
        Ok(Vec::new())
    }

    fn slash_juror(&mut self, _ledger: &mut Ledger, _juror: AccountId) -> Result<Vec<RuntimeEvent>, DispatchError> {
        Ok(Vec::new())
    }
}

struct MockArbitrable {
    parties: HashMap<ProjectId, (AccountId, AccountId)>,
    budgets: HashMap<ProjectId, Balance>,
}

impl MockArbitrable {
    fn set_project_parties(&mut self, project_id: ProjectId, client: AccountId, freelancer: AccountId) {
        self.parties.insert(project_id, (client, freelancer));
    }

    fn set_project_budget(&mut self, project_id: ProjectId, budget: Balance) {
        self.budgets.insert(project_id, budget);
    }
}

impl Arbitrable for MockArbitrable {
    fn on_ruling<R: ReputationInterface>(
        &mut self,
        _reputation: &mut R,
        _ledger: &mut Ledger,
        _project_id: ProjectId,
        _ruling: ProjectRuling,
        _now: BlockNumber,
    ) -> Result<Vec<RuntimeEvent>, DispatchError> {
        Ok(Vec::new())
    }

    fn get_project_budget(&self, project_id: ProjectId) -> Result<Balance, DispatchError> {
        Ok(self.budgets.get(&project_id).copied().unwrap_or(1000))
    }

    fn get_project_parties(&self, project_id: ProjectId) -> Result<(AccountId, AccountId), DispatchError> {
        Ok(self.parties.get(&project_id).copied().unwrap_or((account("alice"), account("bob"))))
    }

    fn set_project_status_in_dispute(&mut self, _project_id: ProjectId) -> Result<(), DispatchError> {
        Ok(())
    }

    fn get_project_status(&self, _project_id: ProjectId) -> Result<ProjectStatus, DispatchError> {
        Ok(ProjectStatus::Created)
    }

    fn get_evidence_uris(&self, _project_id: ProjectId) -> Result<(EvidenceUri, EvidenceUri), DispatchError> {
        Ok((str_to_bounded("ipfs://requirements"), str_to_bounded("ipfs://submission")))
    }
}

struct World {
    now: BlockNumber,
    balances: Ledger,
    projects: Projects,
    arbitrable: MockArbitrable,
    reputation: MockReputation,
    arbitration: Arbitration,
    events: Vec<RuntimeEvent>,
}

fn world(floors: (Balance, Balance, Balance)) -> World {
    World {
        now: 0,
        balances: Ledger::new(),
        projects: Projects::new(ProjectsConfig { pallet_id: *b"tsk/proj", review_period: 10000 }),
        arbitrable: MockArbitrable { parties: HashMap::new(), budgets: HashMap::new() },
        reputation: MockReputation { jurors: AccountList::new() },
        arbitration: Arbitration::new(Config {
            ai_oracle: Origin::Root,
            pallet_id: *b"tsk/arbt",
            min_jurors: 3,
            ai_processing_period: 100,
            voting_period: VOTING_PERIOD,
            appeal_period: APPEAL_PERIOD,
            minimum_ai_bond: floors.0,
            minimum_first_appeal_bond: floors.1,
            minimum_final_appeal_bond: floors.2,
        }),
        events: Vec::new(),
    }
}

impl World {
    fn note(&mut self, r: Result<Vec<RuntimeEvent>, DispatchError>) -> Result<(), DispatchError> {
        r.map(|events| self.events.extend(events))
    }

    fn create_project(
        &mut self,
        origin: Origin,
        budget: Balance,
        uri: Uri,
        duration: BlockNumber,
    ) -> Result<(), DispatchError> {
        let r = self.projects.create_project(
            &mut self.reputation,
            &mut self.balances,
            origin,
            budget,
            uri,
            duration,
            self.now,
        );
        self.note(r)
    }

    fn apply_for_project(&mut self, origin: Origin, project_id: ProjectId) -> Result<(), DispatchError> {
        let r = self.projects.apply_for_project(origin, project_id);
        self.note(r)
    }

    fn start_work(&mut self, origin: Origin, project_id: ProjectId, freelancer: AccountId) -> Result<(), DispatchError> {
        let r = self.projects.start_work(origin, project_id, freelancer, self.now);
        self.note(r)
    }

    fn create_dispute(&mut self, origin: Origin, project_id: ProjectId) -> Result<(), DispatchError> {
        let r = self.arbitration.create_dispute(
            &mut self.arbitrable,
            &mut self.balances,
            origin,
            project_id,
            str_to_bounded("ipfs://evidence"),
            self.now,
        );
        self.note(r)
    }

    fn submit_ruling(&mut self, origin: Origin, project_id: ProjectId, ruling: Ruling) -> Result<(), DispatchError> {
        let r = self.arbitration.submit_ruling(origin, project_id, ruling, self.now);
        self.note(r)
    }

    fn appeal_ruling(&mut self, origin: Origin, project_id: ProjectId) -> Result<(), DispatchError> {
        let r = self.arbitration.appeal_ruling(
            &self.arbitrable,
            &mut self.reputation,
            &mut self.balances,
            origin,
            project_id,
            str_to_bounded("ipfs://appeal"),
            self.now,
        );
        self.note(r)
    }

    fn cast_vote(&mut self, origin: Origin, project_id: ProjectId, vote: Vote) -> Result<(), DispatchError> {
        let r = self.arbitration.cast_vote(origin, project_id, vote);
        self.note(r)
    }

    fn finalize_round(&mut self, origin: Origin, project_id: ProjectId) -> Result<(), DispatchError> {
        let r = self.arbitration.finalize_round(
            &mut self.reputation,
            &mut self.balances,
            origin,
            project_id,
            self.now,
        );
        self.note(r)
    }

    fn enforce_final_ruling(&mut self, origin: Origin, project_id: ProjectId) -> Result<(), DispatchError> {
        let r = self.arbitration.enforce_final_ruling(
            &mut self.arbitrable,
            &mut self.reputation,
            &mut self.balances,
            origin,
            project_id,
            self.now,
        );
        self.note(r)
    }

    fn arbitration_events(&self) -> Vec<Event> {
        self.events
            .iter()
            .filter_map(|event| match event {
                RuntimeEvent::Arbitration(e) => Some(*e),
                _ => None,
            })
            .collect()
    }

    fn has_event(&self, event: Event) -> bool {
        self.arbitration_events().contains(&event)
    }
}


const PROJECT: ProjectId = 0;
const CLIENT: AccountId = 1_001;
const FREELANCER: AccountId = 1_002;
const BUDGET: Balance = 100_000;

fn three_jurors() -> Vec<AccountId> {
    vec![23, 21, 22]
}

fn hundred_jurors() -> Vec<AccountId> {
    (1..=100u64).collect()
}

/// A world in which the freelancer has opened a dispute at block 1.
fn disputed(floors: (Balance, Balance, Balance)) -> World {
    let mut w = world(floors);
    w.arbitrable.set_project_parties(PROJECT, CLIENT, FREELANCER);
    w.arbitrable.set_project_budget(PROJECT, BUDGET);
    w.balances.deposit_creating(CLIENT, 10 * UNIT);
    w.balances.deposit_creating(FREELANCER, 10 * UNIT);
    w.now = 1;
    assert_eq!(w.create_dispute(Origin::Signed(FREELANCER), PROJECT), Ok(()));
    w
}

/// A world in which the first ruling went against the freelancer at block 2.
fn ruled(floors: (Balance, Balance, Balance)) -> World {
    let mut w = disputed(floors);
    w.now = 2;
    assert_eq!(w.submit_ruling(Origin::Root, PROJECT, Ruling::ClientWins), Ok(()));
    w
}

/// A world in which the freelancer has appealed at block 3 and three jurors sit.
fn voting(floors: (Balance, Balance, Balance)) -> World {
    let mut w = ruled(floors);
    w.reputation.set_jurors(three_jurors());
    w.now = 3;
    assert_eq!(w.appeal_ruling(Origin::Signed(FREELANCER), PROJECT), Ok(()));
    w
}

fn arbitration_error(e: Error) -> Result<(), DispatchError> {
    Err(DispatchError::Arbitration(e))
}

fn snapshot(w: &World) -> (Vec<(AccountId, bool)>, Vec<(AccountId, Vote)>, DisputeStatus, Option<Ruling>, u32, BlockNumber, Balance, Balance, Balance) {
    let d = w.arbitration.disputes(PROJECT).unwrap();
    (
        d.jurors.to_vec(),
        d.votes.iter().map(|(who, vote)| (*who, *vote)).collect(),
        d.status,
        d.ruling,
        d.round,
        d.start_block,
        w.arbitration.get_total_arbitration_costs(PROJECT),
        w.balances.reserved_balance(FREELANCER) + w.balances.reserved_balance(CLIENT),
        w.balances.total_issuance(),
    )
}

#[test]
fn a_dispute_is_opened_with_its_bond_and_its_cost() {
    let w = disputed((0, 0, 0));
    assert_eq!(w.balances.reserved_balance(FREELANCER), 5_000);
    assert_eq!(w.balances.free_balance(FREELANCER), 10 * UNIT - 5_000);
    assert_eq!(w.arbitration.get_total_arbitration_costs(PROJECT), 2_000);
    assert_eq!(w.arbitration.get_appeal_bond_info(PROJECT, 1), Some((FREELANCER, 5_000)));
    assert_eq!(w.arbitration.get_appeal_bond_info(PROJECT, 2), None);
    assert_eq!(w.arbitration.get_appeal_bond_info(PROJECT, 0), None);
    assert_eq!(w.arbitration.get_jury_rewards_owed(PROJECT, 21), 0);
    let d = w.arbitration.disputes(PROJECT).unwrap();
    assert_eq!(d.status, DisputeStatus::AiProcessing);
    assert_eq!(d.round, 1);
    assert_eq!(d.start_block, 1);
    assert_eq!(d.ruling, None);
    assert_eq!(d.evidence_uri.to_vec(), b"ipfs://evidence".to_vec());
    assert!(d.jurors.is_empty());
    assert!(d.votes.is_empty());
    assert_eq!(w.arbitration_events(), vec![Event::DisputeCreated { project_id: PROJECT, who: FREELANCER }]);
}

#[test]
fn a_dispute_is_refused_for_each_reason_in_turn() {
    let mut w = world((0, 0, 0));
    w.arbitrable.set_project_parties(PROJECT, CLIENT, FREELANCER);
    w.arbitrable.set_project_budget(PROJECT, BUDGET);
    w.balances.deposit_creating(FREELANCER, 4_999);
    w.balances.deposit_creating(CLIENT, 10 * UNIT);
    assert_eq!(w.create_dispute(Origin::Root, PROJECT), Err(DispatchError::BadOrigin));
    assert_eq!(w.create_dispute(Origin::Unsigned, PROJECT), Err(DispatchError::BadOrigin));
    assert_eq!(w.create_dispute(Origin::Signed(CLIENT), PROJECT), arbitration_error(Error::NotAuthorized));
    assert_eq!(
        w.create_dispute(Origin::Signed(FREELANCER), PROJECT),
        Err(DispatchError::Ledger(LedgerError::InsufficientBalance))
    );
    assert!(w.arbitration.disputes(PROJECT).is_none());
    assert_eq!(w.arbitration.get_total_arbitration_costs(PROJECT), 0);
    assert_eq!(w.balances.reserved_balance(FREELANCER), 0);
    assert_eq!(w.balances.reserved_balance(CLIENT), 0);
    w.balances.deposit_creating(FREELANCER, 1);
    assert_eq!(w.create_dispute(Origin::Signed(FREELANCER), PROJECT), Ok(()));
    w.balances.deposit_creating(FREELANCER, 10_000);
    assert_eq!(
        w.create_dispute(Origin::Signed(FREELANCER), PROJECT),
        arbitration_error(Error::DisputeAlreadyExists)
    );
    assert_eq!(w.balances.reserved_balance(FREELANCER), 5_000);
    assert!(w.events.len() == 1);
}

#[test]
fn only_the_oracle_rules_and_only_once() {
    let mut w = disputed((0, 0, 0));
    w.now = 2;
    assert_eq!(w.submit_ruling(Origin::Signed(CLIENT), PROJECT, Ruling::ClientWins), Err(DispatchError::BadOrigin));
    assert_eq!(w.submit_ruling(Origin::Unsigned, PROJECT, Ruling::ClientWins), Err(DispatchError::BadOrigin));
    assert_eq!(w.submit_ruling(Origin::Root, 9, Ruling::ClientWins), arbitration_error(Error::DisputeNotFound));
    assert_eq!(w.arbitration.disputes(PROJECT).unwrap().status, DisputeStatus::AiProcessing);
    assert_eq!(w.submit_ruling(Origin::Root, PROJECT, Ruling::FreelancerWins), Ok(()));
    w.now = 3;
    assert_eq!(w.submit_ruling(Origin::Root, PROJECT, Ruling::ClientWins), arbitration_error(Error::InvalidStatus));
    let d = w.arbitration.disputes(PROJECT).unwrap();
    assert_eq!(d.ruling, Some(Ruling::FreelancerWins));
    assert_eq!(d.start_block, 2);
}

#[test]
fn an_oracle_can_be_an_account() {
    let mut w = disputed((0, 0, 0));
    w.arbitration.config.ai_oracle = Origin::Signed(77);
    assert_eq!(w.submit_ruling(Origin::Root, PROJECT, Ruling::ClientWins), Err(DispatchError::BadOrigin));
    assert_eq!(w.submit_ruling(Origin::Signed(78), PROJECT, Ruling::ClientWins), Err(DispatchError::BadOrigin));
    assert_eq!(w.submit_ruling(Origin::Signed(77), PROJECT, Ruling::ClientWins), Ok(()));
}

#[test]
fn an_appeal_opens_the_vote_of_the_next_round() {
    let w = voting((0, 0, 0));
    let d = w.arbitration.disputes(PROJECT).unwrap();
    assert_eq!(d.status, DisputeStatus::Voting);
    assert_eq!(d.round, 2);
    assert_eq!(d.ruling, None);
    assert_eq!(d.start_block, 3);
    assert_eq!(d.evidence_uri.to_vec(), b"ipfs://appeal".to_vec());
    assert_eq!(d.jurors.to_vec(), vec![(23, false), (21, false), (22, false)]);
    assert!(d.votes.is_empty());
    assert_eq!(w.balances.reserved_balance(FREELANCER), 25_000);
    assert_eq!(w.arbitration.get_appeal_bond_info(PROJECT, 1), Some((FREELANCER, 5_000)));
    assert_eq!(w.arbitration.get_appeal_bond_info(PROJECT, 2), Some((FREELANCER, 20_000)));
    assert_eq!(w.arbitration.get_appeal_bond_info(PROJECT, 3), None);
    assert_eq!(w.arbitration.get_total_arbitration_costs(PROJECT), 7_000);
    assert_eq!(
        w.arbitration_events()[2..].to_vec(),
        vec![
            Event::AppealStarted { project_id: PROJECT, appellant: FREELANCER, bond: 20_000 },
            Event::ArbitrationCostReserved { project_id: PROJECT, amount: 5_000 },
        ]
    );
    let fees = &w.arbitration.finances.get(&PROJECT).unwrap().jury_fees_owed;
    assert_eq!(fees.len(), 3);
    for (fee, juror) in fees.iter().zip(three_jurors()) {
        assert_eq!((fee.round, fee.juror, fee.base_fee, fee.performance_bonus), (2, juror, 1_000, 250));
    }
}

#[test]
fn an_appeal_is_refused_for_each_reason_in_turn() {
    let mut w = disputed((0, 0, 0));
    w.reputation.set_jurors(three_jurors());
    w.now = 2;
    assert_eq!(w.appeal_ruling(Origin::Root, PROJECT), Err(DispatchError::BadOrigin));
    assert_eq!(w.appeal_ruling(Origin::Signed(FREELANCER), 9), arbitration_error(Error::DisputeNotFound));
    // No ruling stands yet.
    assert_eq!(w.appeal_ruling(Origin::Signed(FREELANCER), PROJECT), arbitration_error(Error::InvalidStatus));
    assert_eq!(w.submit_ruling(Origin::Root, PROJECT, Ruling::ClientWins), Ok(()));
    let before = snapshot(&w);
    // The party that won has nothing to appeal.
    assert_eq!(w.appeal_ruling(Origin::Signed(CLIENT), PROJECT), arbitration_error(Error::NotLosingParty));
    assert_eq!(w.appeal_ruling(Origin::Signed(55), PROJECT), arbitration_error(Error::NotLosingParty));
    // Two jurors are not a jury.
    w.reputation.set_jurors(vec![21, 22]);
    assert_eq!(w.appeal_ruling(Origin::Signed(FREELANCER), PROJECT), arbitration_error(Error::NotEnoughJurors));
    w.reputation.set_jurors(three_jurors());
    // The window is open until the block before the deadline.
    w.now = 2 + APPEAL_PERIOD;
    assert_eq!(
        w.appeal_ruling(Origin::Signed(FREELANCER), PROJECT),
        arbitration_error(Error::AppealPeriodExpired)
    );
    assert_eq!(snapshot(&w), before);
    assert_eq!(w.balances.reserved_balance(FREELANCER), 5_000);
    w.now = 2 + APPEAL_PERIOD - 1;
    assert_eq!(w.appeal_ruling(Origin::Signed(FREELANCER), PROJECT), Ok(()));
    // While the jury votes, no ruling stands.
    assert_eq!(w.appeal_ruling(Origin::Signed(FREELANCER), PROJECT), arbitration_error(Error::InvalidStatus));
}

#[test]
fn an_appeal_needs_the_bond() {
    let mut w = world((0, 0, 0));
    w.arbitrable.set_project_parties(PROJECT, CLIENT, FREELANCER);
    w.arbitrable.set_project_budget(PROJECT, BUDGET);
    w.balances.deposit_creating(FREELANCER, 24_999);
    w.reputation.set_jurors(three_jurors());
    w.now = 1;
    assert_eq!(w.create_dispute(Origin::Signed(FREELANCER), PROJECT), Ok(()));
    assert_eq!(w.submit_ruling(Origin::Root, PROJECT, Ruling::ClientWins), Ok(()));
    let before = snapshot(&w);
    assert_eq!(
        w.appeal_ruling(Origin::Signed(FREELANCER), PROJECT),
        Err(DispatchError::Ledger(LedgerError::InsufficientBalance))
    );
    assert_eq!(snapshot(&w), before);
    w.balances.deposit_creating(FREELANCER, 1);
    assert_eq!(w.appeal_ruling(Origin::Signed(FREELANCER), PROJECT), Ok(()));
    assert_eq!(w.balances.free_balance(FREELANCER), 0);
}

#[test]
fn a_juror_votes_once() {
    let mut w = voting((0, 0, 0));
    assert_eq!(w.cast_vote(Origin::Signed(22), PROJECT, Vote::ForClient), Ok(()));
    let before = snapshot(&w);
    assert_eq!(w.cast_vote(Origin::Signed(22), PROJECT, Vote::ForFreelancer), arbitration_error(Error::AlreadyVoted));
    assert_eq!(w.cast_vote(Origin::Signed(22), PROJECT, Vote::ForClient), arbitration_error(Error::AlreadyVoted));
    assert_eq!(snapshot(&w), before);
    let d = w.arbitration.disputes(PROJECT).unwrap();
    assert_eq!(d.votes.get(&22), Some(&Vote::ForClient));
    assert_eq!(d.votes.len(), 1);
    assert_eq!(d.jurors.to_vec(), vec![(23, false), (21, false), (22, true)]);
    assert_eq!(
        w.arbitration_events().last(),
        Some(&Event::VoteCast { project_id: PROJECT, who: 22, vote: Vote::ForClient })
    );
}

#[test]
fn a_vote_is_refused_for_each_reason_in_turn() {
    let mut w = ruled((0, 0, 0));
    w.reputation.set_jurors(three_jurors());
    assert_eq!(w.cast_vote(Origin::Signed(21), PROJECT, Vote::ForClient), arbitration_error(Error::InvalidStatus));
    w.now = 3;
    assert_eq!(w.appeal_ruling(Origin::Signed(FREELANCER), PROJECT), Ok(()));
    assert_eq!(w.cast_vote(Origin::Root, PROJECT, Vote::ForClient), Err(DispatchError::BadOrigin));
    assert_eq!(w.cast_vote(Origin::Signed(21), 9, Vote::ForClient), arbitration_error(Error::DisputeNotFound));
    assert_eq!(w.cast_vote(Origin::Signed(CLIENT), PROJECT, Vote::ForClient), arbitration_error(Error::NotJuror));
    assert_eq!(w.cast_vote(Origin::Signed(24), PROJECT, Vote::ForClient), arbitration_error(Error::NotJuror));
    assert!(w.arbitration.disputes(PROJECT).unwrap().votes.is_empty());
    assert_eq!(w.cast_vote(Origin::Signed(21), PROJECT, Vote::ForClient), Ok(()));
}

#[test]
fn the_votes_never_pass_the_seats() {
    let mut w = voting((0, 0, 0));
    for (i, juror) in three_jurors().into_iter().enumerate() {
        assert_eq!(w.cast_vote(Origin::Signed(juror), PROJECT, Vote::ForClient), Ok(()));
        let d = w.arbitration.disputes(PROJECT).unwrap();
        assert_eq!(d.votes.len(), i + 1);
        assert!(d.votes.len() <= d.jurors.len());
    }
    for juror in three_jurors() {
        assert_eq!(
            w.cast_vote(Origin::Signed(juror), PROJECT, Vote::ForFreelancer),
            arbitration_error(Error::AlreadyVoted)
        );
    }
    let d = w.arbitration.disputes(PROJECT).unwrap();
    assert_eq!(d.votes.len(), 3);
    assert!(d.votes.values().all(|vote| *vote == Vote::ForClient));
}

#[test]
fn votes_are_kept_in_the_order_of_the_jurors() {
    let mut w = voting((0, 0, 0));
    assert_eq!(w.cast_vote(Origin::Signed(23), PROJECT, Vote::ForFreelancer), Ok(()));
    assert_eq!(w.cast_vote(Origin::Signed(21), PROJECT, Vote::ForClient), Ok(()));
    assert_eq!(w.cast_vote(Origin::Signed(22), PROJECT, Vote::ForFreelancer), Ok(()));
    w.now += VOTING_PERIOD;
    let seen = w.events.len();
    assert_eq!(w.finalize_round(Origin::Signed(5), PROJECT), Ok(()));
    assert_eq!(
        w.arbitration_events()[seen..].to_vec(),
        vec![
            Event::JurorBaseFeeAwarded { project_id: PROJECT, juror: 21, amount: 1_000 },
            Event::JurorBaseFeeAwarded { project_id: PROJECT, juror: 22, amount: 1_000 },
            Event::JurorPerformanceBonusAwarded { project_id: PROJECT, juror: 22, amount: 250 },
            Event::JurorBaseFeeAwarded { project_id: PROJECT, juror: 23, amount: 1_000 },
            Event::JurorPerformanceBonusAwarded { project_id: PROJECT, juror: 23, amount: 250 },
            Event::RoundFinalized { project_id: PROJECT, ruling: Ruling::FreelancerWins },
        ]
    );
    assert_eq!(
        w.arbitration.finances.get(&PROJECT).unwrap().juror_rewards,
        vec![
            JurorReward { juror: 21, amount: 1_000 },
            JurorReward { juror: 22, amount: 1_250 },
            JurorReward { juror: 23, amount: 1_250 },
        ]
    );
    assert_eq!(w.arbitration.get_jury_rewards_owed(PROJECT, 21), 1_000);
    assert_eq!(w.arbitration.get_jury_rewards_owed(PROJECT, 22), 1_250);
    assert_eq!(w.arbitration.get_jury_rewards_owed(PROJECT, 24), 0);
}

#[test]
fn a_tie_goes_to_the_freelancer() {
    let mut w = voting((0, 0, 0));
    assert_eq!(w.cast_vote(Origin::Signed(21), PROJECT, Vote::ForClient), Ok(()));
    assert_eq!(w.cast_vote(Origin::Signed(22), PROJECT, Vote::ForFreelancer), Ok(()));
    w.now += VOTING_PERIOD;
    assert_eq!(w.finalize_round(Origin::Signed(5), PROJECT), Ok(()));
    let d = w.arbitration.disputes(PROJECT).unwrap();
    assert_eq!(d.ruling, Some(Ruling::FreelancerWins));
    assert_eq!(d.status, DisputeStatus::Appealable);
    assert_eq!(d.start_block, 3 + VOTING_PERIOD);
}

#[test]
fn no_votes_are_a_tie() {
    let mut w = voting((0, 0, 0));
    w.now += VOTING_PERIOD;
    assert_eq!(w.finalize_round(Origin::Signed(5), PROJECT), Ok(()));
    assert_eq!(w.arbitration.disputes(PROJECT).unwrap().ruling, Some(Ruling::FreelancerWins));
    assert!(w.arbitration.finances.get(&PROJECT).unwrap().juror_rewards.is_empty());
}

#[test]
fn the_client_wins_with_more_votes() {
    let mut w = voting((0, 0, 0));
    assert_eq!(w.cast_vote(Origin::Signed(21), PROJECT, Vote::ForClient), Ok(()));
    assert_eq!(w.cast_vote(Origin::Signed(22), PROJECT, Vote::ForFreelancer), Ok(()));
    assert_eq!(w.cast_vote(Origin::Signed(23), PROJECT, Vote::ForClient), Ok(()));
    w.now += VOTING_PERIOD;
    assert_eq!(w.finalize_round(Origin::Signed(5), PROJECT), Ok(()));
    assert_eq!(w.arbitration.disputes(PROJECT).unwrap().ruling, Some(Ruling::ClientWins));
    assert_eq!(w.arbitration.get_jury_rewards_owed(PROJECT, 21), 1_250);
    assert_eq!(w.arbitration.get_jury_rewards_owed(PROJECT, 22), 1_000);
    assert_eq!(w.arbitration.get_jury_rewards_owed(PROJECT, 23), 1_250);
}

#[test]
fn a_round_is_closed_only_after_its_voting_period() {
    let mut w = voting((0, 0, 0));
    assert_eq!(w.cast_vote(Origin::Signed(21), PROJECT, Vote::ForClient), Ok(()));
    let before = snapshot(&w);
    assert_eq!(w.finalize_round(Origin::Root, PROJECT), Err(DispatchError::BadOrigin));
    assert_eq!(w.finalize_round(Origin::Signed(5), 9), arbitration_error(Error::DisputeNotFound));
    w.now = 3 + VOTING_PERIOD - 1;
    assert_eq!(w.finalize_round(Origin::Signed(5), PROJECT), arbitration_error(Error::VotingPeriodNotOver));
    assert_eq!(snapshot(&w), before);
    assert_eq!(w.arbitration.get_jury_rewards_owed(PROJECT, 21), 0);
    w.now = 3 + VOTING_PERIOD;
    assert_eq!(w.finalize_round(Origin::Signed(5), PROJECT), Ok(()));
    assert_eq!(w.finalize_round(Origin::Signed(5), PROJECT), arbitration_error(Error::InvalidStatus));
}

/// A world in which the third round was voted and ruled for the client.
fn third_round_ruled() -> World {
    let mut w = voting((0, 0, 0));
    assert_eq!(w.cast_vote(Origin::Signed(21), PROJECT, Vote::ForFreelancer), Ok(()));
    w.now += VOTING_PERIOD;
    assert_eq!(w.finalize_round(Origin::Signed(5), PROJECT), Ok(()));
    w.reputation.set_jurors(hundred_jurors());
    assert_eq!(w.appeal_ruling(Origin::Signed(FREELANCER), PROJECT), arbitration_error(Error::NotLosingParty));
    assert_eq!(w.appeal_ruling(Origin::Signed(CLIENT), PROJECT), Ok(()));
    // The votes of the round before are gone, its seats are taken by the new jury.
    assert!(w.arbitration.disputes(PROJECT).unwrap().votes.is_empty());
    assert!(w.arbitration.disputes(PROJECT).unwrap().jurors.iter().all(|seat| !seat.1));
    for juror in 1..=60u64 {
        assert_eq!(w.cast_vote(Origin::Signed(juror), PROJECT, Vote::ForClient), Ok(()));
    }
    for juror in 61..=100u64 {
        assert_eq!(w.cast_vote(Origin::Signed(juror), PROJECT, Vote::ForFreelancer), Ok(()));
    }
    w.now += VOTING_PERIOD;
    assert_eq!(w.finalize_round(Origin::Signed(5), PROJECT), Ok(()));
    w
}

#[test]
fn the_third_round_seats_a_full_jury() {
    let mut w = voting((0, 0, 0));
    w.now += VOTING_PERIOD;
    assert_eq!(w.finalize_round(Origin::Signed(5), PROJECT), Ok(()));
    w.reputation.set_jurors((1..=99u64).collect());
    assert_eq!(w.appeal_ruling(Origin::Signed(CLIENT), PROJECT), arbitration_error(Error::NotEnoughJurors));
    assert_eq!(w.arbitration.disputes(PROJECT).unwrap().round, 2);
    assert_eq!(w.balances.reserved_balance(CLIENT), 0);
    w.reputation.set_jurors(hundred_jurors());
    assert_eq!(w.appeal_ruling(Origin::Signed(CLIENT), PROJECT), Ok(()));
    let d = w.arbitration.disputes(PROJECT).unwrap();
    assert_eq!(d.round, 3);
    assert_eq!(d.jurors.len(), 100);
    assert_eq!(w.balances.reserved_balance(CLIENT), 50_000);
    assert_eq!(w.arbitration.get_appeal_bond_info(PROJECT, 3), Some((CLIENT, 50_000)));
    assert_eq!(w.arbitration.get_total_arbitration_costs(PROJECT), 2_000 + 5_000 + 8_000);
    let fees = &w.arbitration.finances.get(&PROJECT).unwrap().jury_fees_owed;
    assert_eq!(fees.len(), 103);
    assert_eq!((fees[3].round, fees[3].juror, fees[3].base_fee, fees[3].performance_bonus), (3, 1, 2_000, 500));
}

#[test]
fn there_is_no_fourth_round() {
    let mut w = third_round_ruled();
    let d = w.arbitration.disputes(PROJECT).unwrap();
    assert_eq!(d.round, 3);
    assert_eq!(d.ruling, Some(Ruling::ClientWins));
    assert_eq!(d.status, DisputeStatus::Appealable);
    let before = snapshot(&w);
    let events = w.events.len();
    assert_eq!(w.appeal_ruling(Origin::Signed(FREELANCER), PROJECT), arbitration_error(Error::MaxAppealsReached));
    assert_eq!(snapshot(&w), before);
    assert_eq!(w.events.len(), events);
    assert_eq!(w.arbitration.get_appeal_bond_info(PROJECT, 4), None);
    assert_eq!(w.balances.reserved_balance(FREELANCER), 25_000);
}

#[test]
fn a_ruling_is_enforced_only_after_its_appeal_period() {
    let mut w = ruled((0, 0, 0));
    let before = snapshot(&w);
    assert_eq!(w.enforce_final_ruling(Origin::Root, PROJECT), Err(DispatchError::BadOrigin));
    assert_eq!(w.enforce_final_ruling(Origin::Signed(5), 9), arbitration_error(Error::DisputeNotFound));
    w.now = 2 + APPEAL_PERIOD - 1;
    assert_eq!(w.enforce_final_ruling(Origin::Signed(5), PROJECT), arbitration_error(Error::AppealPeriodExpired));
    assert_eq!(snapshot(&w), before);
    w.now = 2 + APPEAL_PERIOD;
    assert_eq!(w.enforce_final_ruling(Origin::Signed(5), PROJECT), Ok(()));
    assert_eq!(w.enforce_final_ruling(Origin::Signed(5), PROJECT), arbitration_error(Error::InvalidStatus));
    assert_eq!(w.appeal_ruling(Origin::Signed(FREELANCER), PROJECT), arbitration_error(Error::InvalidStatus));
}

#[test]
fn a_dispute_without_a_ruling_is_not_enforced() {
    let mut w = disputed((0, 0, 0));
    w.now = 1_000;
    assert_eq!(w.enforce_final_ruling(Origin::Signed(5), PROJECT), arbitration_error(Error::InvalidStatus));
    let mut w = voting((0, 0, 0));
    w.now = 1_000;
    assert_eq!(w.enforce_final_ruling(Origin::Signed(5), PROJECT), arbitration_error(Error::InvalidStatus));
}

#[test]
fn the_bond_of_a_loser_covers_the_cost() {
    let mut w = ruled((0, 0, 0));
    let pallet = w.arbitration.account_id();
    let total = w.balances.total_issuance();
    w.now = 2 + APPEAL_PERIOD;
    let seen = w.events.len();
    assert_eq!(w.enforce_final_ruling(Origin::Signed(5), PROJECT), Ok(()));
    // The freelancer lost its bond of 5000, which is more than the cost of 2000:
    // nobody pays anything more.
    assert_eq!(w.balances.reserved_balance(FREELANCER), 0);
    assert_eq!(w.balances.free_balance(FREELANCER), 10 * UNIT - 5_000);
    assert_eq!(w.balances.free_balance(CLIENT), 10 * UNIT);
    assert_eq!(w.balances.free_balance(pallet), 5_000);
    assert_eq!(w.balances.total_issuance(), total);
    assert_eq!(
        w.arbitration_events()[seen..].to_vec(),
        vec![
            Event::ArbitrationCostsPaid { project_id: PROJECT, payer: FREELANCER, amount: 2_000 },
            Event::DisputeResolved { project_id: PROJECT, winner: CLIENT },
            Event::PayoutCompleted { project_id: PROJECT },
        ]
    );
    assert_eq!(w.arbitration.get_total_arbitration_costs(PROJECT), 0);
    assert_eq!(w.arbitration.get_appeal_bond_info(PROJECT, 1), None);
    assert!(w.arbitration.finances.get(&PROJECT).is_none());
    assert_eq!(w.arbitration.disputes(PROJECT).unwrap().status, DisputeStatus::Finalized);
    assert_eq!(w.arbitration.disputes(PROJECT).unwrap().ruling, Some(Ruling::ClientWins));
}

#[test]
fn a_loser_that_cannot_pay_the_cost_pays_nothing() {
    let mut w = world((0, 0, 0));
    w.arbitrable.set_project_parties(PROJECT, CLIENT, FREELANCER);
    w.arbitrable.set_project_budget(PROJECT, BUDGET);
    w.balances.deposit_creating(FREELANCER, 5_000);
    w.balances.deposit_creating(CLIENT, 1_999);
    w.now = 1;
    assert_eq!(w.create_dispute(Origin::Signed(FREELANCER), PROJECT), Ok(()));
    assert_eq!(w.submit_ruling(Origin::Root, PROJECT, Ruling::FreelancerWins), Ok(()));
    w.now = 1 + APPEAL_PERIOD;
    let seen = w.events.len();
    assert_eq!(w.enforce_final_ruling(Origin::Signed(5), PROJECT), Ok(()));
    assert_eq!(w.balances.free_balance(CLIENT), 1_999);
    assert_eq!(w.balances.free_balance(FREELANCER), 5_000);
    assert_eq!(w.balances.reserved_balance(FREELANCER), 0);
    assert_eq!(w.balances.free_balance(w.arbitration.account_id()), 0);
    assert_eq!(
        w.arbitration_events()[seen..].to_vec(),
        vec![
            Event::AppealBondReturned { project_id: PROJECT, appellant: FREELANCER, amount: 5_000 },
            Event::DisputeResolved { project_id: PROJECT, winner: FREELANCER },
            Event::PayoutCompleted { project_id: PROJECT },
        ]
    );
}

#[test]
fn jurors_that_cannot_be_paid_stop_the_enforcement() {
    let mut w = world((0, 0, 0));
    w.arbitrable.set_project_parties(PROJECT, CLIENT, FREELANCER);
    w.arbitrable.set_project_budget(PROJECT, BUDGET);
    w.balances.deposit_creating(FREELANCER, 25_000);
    // Enough for a part of the cost only: the transfer of the shortfall fails.
    w.balances.deposit_creating(CLIENT, 6_999);
    w.reputation.set_jurors(three_jurors());
    w.now = 1;
    assert_eq!(w.create_dispute(Origin::Signed(FREELANCER), PROJECT), Ok(()));
    assert_eq!(w.submit_ruling(Origin::Root, PROJECT, Ruling::ClientWins), Ok(()));
    assert_eq!(w.appeal_ruling(Origin::Signed(FREELANCER), PROJECT), Ok(()));
    assert_eq!(w.cast_vote(Origin::Signed(21), PROJECT, Vote::ForFreelancer), Ok(()));
    w.now += VOTING_PERIOD;
    assert_eq!(w.finalize_round(Origin::Signed(5), PROJECT), Ok(()));
    w.now += APPEAL_PERIOD;
    let before = snapshot(&w);
    let events = w.events.len();
    assert_eq!(w.enforce_final_ruling(Origin::Signed(5), PROJECT), arbitration_error(Error::PaymentFailed));
    assert_eq!(snapshot(&w), before);
    assert_eq!(w.events.len(), events);
    assert_eq!(w.balances.reserved_balance(FREELANCER), 25_000);
    assert_eq!(w.balances.free_balance(CLIENT), 6_999);
    assert_eq!(w.balances.free_balance(21), 0);
    assert_eq!(w.arbitration.get_jury_rewards_owed(PROJECT, 21), 1_250);
    assert_eq!(w.arbitration.get_total_arbitration_costs(PROJECT), 7_000);
    // Once the client can pay, the ruling is enforced.
    w.balances.deposit_creating(CLIENT, 1);
    assert_eq!(w.enforce_final_ruling(Origin::Signed(5), PROJECT), Ok(()));
    assert_eq!(w.balances.free_balance(CLIENT), 0);
    assert_eq!(w.balances.free_balance(21), 1_250);
    assert_eq!(w.balances.free_balance(w.arbitration.account_id()), 5_750);
    assert_eq!(w.balances.free_balance(FREELANCER), 25_000);
    assert_eq!(w.balances.reserved_balance(FREELANCER), 0);
}

#[test]
fn the_settlement_of_three_rounds() {
    let mut w = third_round_ruled();
    let pallet = w.arbitration.account_id();
    w.now += APPEAL_PERIOD;
    // A hundred jurors of the third round are owed more than the slashed bonds
    // bring in: the ruling cannot be enforced before someone funds the account of
    // the arbitration.
    let before = snapshot(&w);
    assert_eq!(w.enforce_final_ruling(Origin::Signed(5), PROJECT), arbitration_error(Error::PaymentFailed));
    assert_eq!(snapshot(&w), before);
    w.balances.deposit_creating(pallet, UNIT);
    let total = w.balances.total_issuance();
    let seen = w.events.len();
    assert_eq!(w.enforce_final_ruling(Origin::Signed(5), PROJECT), Ok(()));
    // The client won: its bond of 50000 comes back; the bonds of the freelancer,
    // 5000 and 20000, are slashed and cover the cost of 15000.
    assert_eq!(w.balances.reserved_balance(CLIENT), 0);
    assert_eq!(w.balances.free_balance(CLIENT), 10 * UNIT);
    assert_eq!(w.balances.reserved_balance(FREELANCER), 0);
    assert_eq!(w.balances.free_balance(FREELANCER), 10 * UNIT - 25_000);
    // Juror 21 earned 1250 in the second round and 2500 in the third; the other 59
    // jurors of the majority earned 2500, the 40 of the minority 2000.
    assert_eq!(w.balances.free_balance(21), 3_750);
    assert_eq!(w.balances.free_balance(1), 2_500);
    assert_eq!(w.balances.free_balance(60), 2_500);
    assert_eq!(w.balances.free_balance(61), 2_000);
    assert_eq!(w.balances.free_balance(100), 2_000);
    assert_eq!(w.balances.free_balance(22), 2_500);
    assert_eq!(w.balances.free_balance(pallet), UNIT + 25_000 - 231_250);
    assert_eq!(w.balances.total_issuance(), total);
    let resolved = w.arbitration_events()[seen..].to_vec();
    assert_eq!(resolved.len(), 2 + 100 + 2);
    assert_eq!(
        resolved[..3].to_vec(),
        vec![
            Event::AppealBondReturned { project_id: PROJECT, appellant: CLIENT, amount: 50_000 },
            Event::ArbitrationCostsPaid { project_id: PROJECT, payer: FREELANCER, amount: 15_000 },
            Event::JurorRewarded { project_id: PROJECT, juror: 21, amount: 3_750 },
        ]
    );
    assert_eq!(
        resolved[102..].to_vec(),
        vec![
            Event::DisputeResolved { project_id: PROJECT, winner: CLIENT },
            Event::PayoutCompleted { project_id: PROJECT },
        ]
    );
}
