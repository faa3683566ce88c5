use std::collections::HashMap;

use arbitration::arbitration::{Config, DisputeStatus, Event, Pallet as Arbitration, Ruling, Vote};
use arbitration::bounded::{AccountList, Uri};
use arbitration::ledger::Ledger;
use arbitration::primitives::{AccountId, Balance, BlockNumber, Origin, ProjectId, UNIT};
use arbitration::projects::{
    Arbitrable, EvidenceUri, Config as ProjectsConfig, Pallet as Projects, ProjectStatus, Ruling as ProjectRuling,
};
use arbitration::reputation::interface::ReputationInterface;
use arbitration::reputation::JurorTier;
use arbitration::{DispatchError, RuntimeEvent};

const APPEAL_PERIOD: BlockNumber = 100;
const VOTING_PERIOD: BlockNumber = 200;

fn str_to_bounded(s: &str) -> Uri {
    Uri::try_from(s.as_bytes().to_vec()).unwrap()
}

fn account(s: &str) -> AccountId {
    s.bytes().fold(7u64, |acc, b| acc.wrapping_mul(131).wrapping_add(b as u64))
}

struct MockReputation {
    jurors: AccountList,
}

impl MockReputation {
    fn set_jurors(&mut self, jurors: Vec<AccountId>) {
        self.jurors = AccountList::try_from(jurors).unwrap();
    }
}

impl ReputationInterface for MockReputation {
    fn on_project_completed(
        &mut self,
        _ledger: &mut Ledger,
        _freelancer: AccountId,
        _project_value: Balance,
        _client_rating: u32,
        _project_id: ProjectId,
        _now: BlockNumber,
    ) -> Result<Vec<RuntimeEvent>, DispatchError> {
        Ok(Vec::new())
    }

    fn on_dispute_outcome(
        &mut self,
        _ledger: &mut Ledger,
        _winner: AccountId,
        _loser: AccountId,
        _project_id: ProjectId,
        _project_value: Balance,
        _now: BlockNumber,
    ) -> Result<Vec<RuntimeEvent>, DispatchError> {
        Ok(Vec::new())
    }

    fn on_project_created(
        &mut self,
        _client: AccountId,
        _budget: Balance,
        _now: BlockNumber,
    ) -> Result<Vec<RuntimeEvent>, DispatchError> {
        Ok(Vec::new())
    }

    fn on_project_cancelled(&mut self, _client: AccountId, _now: BlockNumber) -> Result<Vec<RuntimeEvent>, DispatchError> {
        Ok(Vec::new())
    }

    fn on_work_accepted(
        &mut self,
        _client: AccountId,
        _project_id: ProjectId,
        _now: BlockNumber,
    ) -> Result<Vec<RuntimeEvent>, DispatchError> {
        Ok(Vec::new())
    }

    fn get_eligible_jurors(&mut self, _min_tier: JurorTier, _exclude: &[AccountId], _count: u32) -> AccountList {
        self.jurors.clone()
    }

    fn on_jury_vote(
        &mut self,
        _ledger: &mut Ledger,
        _juror: AccountId,
        _voted_with_majority: bool,
        _now: BlockNumber,
    ) -> Result<Vec<RuntimeEvent>, DispatchError> {
        Ok(Vec::new())
    }

    fn slash_juror(&mut self, _ledger: &mut Ledger, _juror: AccountId) -> Result<Vec<RuntimeEvent>, DispatchError> {
        Ok(Vec::new())
    }
}

struct MockArbitrable {
    parties: HashMap<ProjectId, (AccountId, AccountId)>,
    budgets: HashMap<ProjectId, Balance>,
}

impl MockArbitrable {
    fn set_project_parties(&mut self, project_id: ProjectId, client: AccountId, freelancer: AccountId) {
        self.parties.insert(project_id, (client, freelancer));
    }

    fn set_project_budget(&mut self, project_id: ProjectId, budget: Balance) {
        self.budgets.insert(project_id, budget);
    }
}

impl Arbitrable for MockArbitrable {
    fn on_ruling<R: ReputationInterface>(
        &mut self,
        _reputation: &mut R,
        _ledger: &mut Ledger,
        _project_id: ProjectId,
        _ruling: ProjectRuling,
        _now: BlockNumber,
    ) -> Result<Vec<RuntimeEvent>, DispatchError> {
        Ok(Vec::new())
    }

    fn get_project_budget(&self, project_id: ProjectId) -> Result<Balance, DispatchError> {
        Ok(self.budgets.get(&project_id).copied().unwrap_or(1000))
    }

    fn get_project_parties(&self, project_id: ProjectId) -> Result<(AccountId, AccountId), DispatchError> {
        Ok(self.parties.get(&project_id).copied().unwrap_or((account("alice"), account("bob"))))
    }

    fn set_project_status_in_dispute(&mut self, _project_id: ProjectId) -> Result<(), DispatchError> {
        Ok(())
    }

    fn get_project_status(&self, _project_id: ProjectId) -> Result<ProjectStatus, DispatchError> {
        Ok(ProjectStatus::Created)
    }

    fn get_evidence_uris(&self, _project_id: ProjectId) -> Result<(EvidenceUri, EvidenceUri), DispatchError> {
        Ok((str_to_bounded("ipfs://requirements"), str_to_bounded("ipfs://submission")))
    }
}

struct World {
    now: BlockNumber,
    balances: Ledger,
    projects: Projects,
    arbitrable: MockArbitrable,
    reputation: MockReputation,
    arbitration: Arbitration,
    events: Vec<RuntimeEvent>,
}

fn new_test_ext() -> World {
    World {
        now: 0,
        balances: Ledger::new(),
        projects: Projects::new(ProjectsConfig { pallet_id: *b"tsk/proj", review_period: 10000 }),
        arbitrable: MockArbitrable { parties: HashMap::new(), budgets: HashMap::new() },
        reputation: MockReputation { jurors: AccountList::new() },
        arbitration: Arbitration::new(Config {
            ai_oracle: Origin::Root,
            pallet_id: *b"tsk/arbt",
            min_jurors: 3,
            ai_processing_period: 100,
            voting_period: VOTING_PERIOD,
            appeal_period: APPEAL_PERIOD,
            minimum_ai_bond: UNIT / 2,
            minimum_first_appeal_bond: 2 * UNIT,
            minimum_final_appeal_bond: 5 * UNIT,
        }),
        events: Vec::new(),
    }
}

impl World {
    fn note(&mut self, r: Result<Vec<RuntimeEvent>, DispatchError>) -> Result<(), DispatchError> {
        r.map(|events| self.events.extend(events))
    }

    fn create_project(
        &mut self,
        origin: Origin,
        budget: Balance,
        uri: Uri,
        duration: BlockNumber,
    ) -> Result<(), DispatchError> {
        let r = self.projects.create_project(
            &mut self.reputation,
            &mut self.balances,
            origin,
            budget,
            uri,
            duration,
            self.now,
        );
        self.note(r)
    }

    fn apply_for_project(&mut self, origin: Origin, project_id: ProjectId) -> Result<(), DispatchError> {
        let r = self.projects.apply_for_project(origin, project_id);
        self.note(r)
    }

    fn start_work(&mut self, origin: Origin, project_id: ProjectId, freelancer: AccountId) -> Result<(), DispatchError> {
        let r = self.projects.start_work(origin, project_id, freelancer, self.now);
        self.note(r)
    }

    fn create_dispute(&mut self, origin: Origin, project_id: ProjectId) -> Result<(), DispatchError> {
        let r = self.arbitration.create_dispute(
            &mut self.arbitrable,
            &mut self.balances,
            origin,
            project_id,
            str_to_bounded("ipfs://evidence"),
            self.now,
        );
        self.note(r)
    }

    fn submit_ruling(&mut self, origin: Origin, project_id: ProjectId, ruling: Ruling) -> Result<(), DispatchError> {
        let r = self.arbitration.submit_ruling(origin, project_id, ruling, self.now);
        self.note(r)
    }

    fn appeal_ruling(&mut self, origin: Origin, project_id: ProjectId) -> Result<(), DispatchError> {
        let r = self.arbitration.appeal_ruling(
            &self.arbitrable,
            &mut self.reputation,
            &mut self.balances,
            origin,
            project_id,
            str_to_bounded("ipfs://appeal"),
            self.now,
        );
        self.note(r)
    }

    fn cast_vote(&mut self, origin: Origin, project_id: ProjectId, vote: Vote) -> Result<(), DispatchError> {
        let r = self.arbitration.cast_vote(origin, project_id, vote);
        self.note(r)
    }

    fn finalize_round(&mut self, origin: Origin, project_id: ProjectId) -> Result<(), DispatchError> {
        let r = self.arbitration.finalize_round(
            &mut self.reputation,
            &mut self.balances,
            origin,
            project_id,
            self.now,
        );
        self.note(r)
    }

    fn enforce_final_ruling(&mut self, origin: Origin, project_id: ProjectId) -> Result<(), DispatchError> {
        let r = self.arbitration.enforce_final_ruling(
            &mut self.arbitrable,
            &mut self.reputation,
            &mut self.balances,
            origin,
            project_id,
            self.now,
        );
        self.note(r)
    }

    fn arbitration_events(&self) -> Vec<Event> {
        self.events
            .iter()
            .filter_map(|event| match event {
                RuntimeEvent::Arbitration(e) => Some(*e),
                _ => None,
            })
            .collect()
    }

    fn has_event(&self, event: Event) -> bool {
        self.arbitration_events().contains(&event)
    }
}

fn create_project_and_dispute_to_round2(w: &mut World) -> (ProjectId, AccountId, AccountId) {
    let project_id = 0u32;
    let client = account("alice");
    let freelancer = account("bob");
    let budget = 100_000;

    w.arbitrable.set_project_parties(project_id, client, freelancer);
    w.arbitrable.set_project_budget(project_id, budget);

    let _ = w.balances.deposit_creating(client, budget + 10 * UNIT);
    let _ = w.balances.deposit_creating(freelancer, 10 * UNIT);

    assert_eq!(w.create_project(Origin::Signed(client), budget, str_to_bounded("Test Project"), 1000), Ok(()));
    assert_eq!(w.apply_for_project(Origin::Signed(freelancer), project_id), Ok(()));
    assert_eq!(w.start_work(Origin::Signed(client), project_id, freelancer), Ok(()));

    w.now = 1;
    assert_eq!(w.create_dispute(Origin::Signed(freelancer), project_id), Ok(()));
    w.now = 2;
    assert_eq!(w.submit_ruling(Origin::Root, project_id, Ruling::ClientWins), Ok(()));

    (project_id, client, freelancer)
}

#[test]
fn initiate_ai_dispute_works() {
    let mut w = new_test_ext();
    let project_id = 0u32;
    let client = account("alice");
    let freelancer = account("bob");
    let budget = 100_000;

    w.arbitrable.set_project_parties(project_id, client, freelancer);
    w.arbitrable.set_project_budget(project_id, budget);
    let _ = w.balances.deposit_creating(client, budget + 10 * UNIT);
    let _ = w.balances.deposit_creating(freelancer, 10 * UNIT);
    assert_eq!(w.create_project(Origin::Signed(client), budget, str_to_bounded("Test Project"), 1000), Ok(()));
    assert_eq!(w.apply_for_project(Origin::Signed(freelancer), project_id), Ok(()));
    assert_eq!(w.start_work(Origin::Signed(client), project_id, freelancer), Ok(()));
    w.now = 1;
    let initial_free_balance = w.balances.free_balance(freelancer);
    let initial_reserved_balance = w.balances.reserved_balance(freelancer);

    assert_eq!(w.create_dispute(Origin::Signed(freelancer), project_id), Ok(()));

    let dispute = w.arbitration.disputes(project_id).expect("Dispute should exist");
    assert_eq!(dispute.round, 1);
    assert_eq!(dispute.status, DisputeStatus::AiProcessing);
    assert!(dispute.start_block > 0);
    let final_free_balance = w.balances.free_balance(freelancer);
    let final_reserved_balance = w.balances.reserved_balance(freelancer);

    let reserved_amount = final_reserved_balance - initial_reserved_balance;
    let free_balance_change = initial_free_balance - final_free_balance;

    assert!(reserved_amount > 0, "Dispute bond should be reserved from freelancer's account");
    assert_eq!(reserved_amount, free_balance_change, "Reserved amount should match free balance decrease");
    let arbitration_costs = w.arbitration.get_total_arbitration_costs(project_id);
    assert_eq!(arbitration_costs, 2000, "Arbitration costs should be 2000 as shown in the test output");
    let arbitration_events = w.arbitration_events();
    assert_eq!(arbitration_events.len(), 1, "Should have 1 arbitration event");
    assert_eq!(
        w.events.last(),
        Some(&RuntimeEvent::Arbitration(Event::DisputeCreated { project_id, who: freelancer }))
    );
    assert!(dispute.jurors.is_empty(), "No jurors should be assigned yet for AI dispute");
    assert!(dispute.ruling.is_none(), "No ruling should exist yet");
    assert!(!dispute.evidence_uri.is_empty(), "Evidence URIs should be stored");
}

#[test]
fn submit_ai_ruling_works() {
    let mut w = new_test_ext();
    let project_id = 0u32;
    let client = account("alice");
    let freelancer = account("bob");
    let budget = 100_000;

    w.arbitrable.set_project_parties(project_id, client, freelancer);
    w.arbitrable.set_project_budget(project_id, budget);
    let _ = w.balances.deposit_creating(client, budget);
    assert_eq!(w.create_project(Origin::Signed(client), budget, str_to_bounded("Test Project"), 1000), Ok(()));
    let _ = w.balances.deposit_creating(freelancer, 600_000_000_000);
    assert_eq!(w.apply_for_project(Origin::Signed(freelancer), project_id), Ok(()));
    assert_eq!(w.start_work(Origin::Signed(client), project_id, freelancer), Ok(()));

    w.now = 1;
    assert_eq!(w.create_dispute(Origin::Signed(freelancer), project_id), Ok(()));

    let ruling = Ruling::ClientWins;
    w.now = 2;

    assert_eq!(w.submit_ruling(Origin::Root, project_id, ruling), Ok(()));

    let dispute = w.arbitration.disputes(project_id).expect("Dispute should exist");
    assert_eq!(dispute.status, DisputeStatus::Appealable);
    assert_eq!(dispute.ruling, Some(ruling));
    assert_eq!(dispute.start_block, w.now);

    assert_eq!(
        w.events.last(),
        Some(&RuntimeEvent::Arbitration(Event::AiRulingSubmitted { project_id, ruling }))
    );
}

#[test]
fn enforce_ruling_after_single_ai_round_works() {
    let mut w = new_test_ext();
    let project_id = 0u32;
    let client = account("alice");
    let freelancer = account("bob");
    let budget = 100 * UNIT;

    w.arbitrable.set_project_parties(project_id, client, freelancer);
    w.arbitrable.set_project_budget(project_id, budget);
    let _ = w.balances.deposit_creating(client, budget + (10 * UNIT));
    let _ = w.balances.deposit_creating(freelancer, 10 * UNIT);

    assert_eq!(w.create_project(Origin::Signed(client), budget, str_to_bounded("AI Win Test"), 1000), Ok(()));
    assert_eq!(w.apply_for_project(Origin::Signed(freelancer), project_id), Ok(()));
    assert_eq!(w.start_work(Origin::Signed(client), project_id, freelancer), Ok(()));

    w.now = 1;
    assert_eq!(w.create_dispute(Origin::Signed(freelancer), project_id), Ok(()));

    let freelancer_reserved_before = w.balances.reserved_balance(freelancer);
    let client_free_balance_before = w.balances.free_balance(client);
    let pallet_balance_before = w.balances.free_balance(w.arbitration.account_id());

    let expected_bond = budget / 20;
    let expected_arbitration_cost = budget / 50;
    assert_eq!(freelancer_reserved_before, expected_bond);

    w.now = 2;
    assert_eq!(w.submit_ruling(Origin::Root, project_id, Ruling::FreelancerWins), Ok(()));

    w.now = w.now + APPEAL_PERIOD + 1;

    assert_eq!(w.enforce_final_ruling(Origin::Signed(account("anyone")), project_id), Ok(()));

    let dispute = w.arbitration.disputes(project_id).expect("Dispute should exist");
    assert_eq!(dispute.status, DisputeStatus::Finalized);

    assert_eq!(w.balances.reserved_balance(freelancer), 0);

    let client_free_balance_after = w.balances.free_balance(client);
    assert_eq!(client_free_balance_before - client_free_balance_after, expected_arbitration_cost);

    let pallet_balance_after = w.balances.free_balance(w.arbitration.account_id());
    assert_eq!(pallet_balance_after - pallet_balance_before, expected_arbitration_cost);

    assert!(w.has_event(Event::DisputeResolved { project_id, winner: freelancer }));
    assert!(w.has_event(Event::ArbitrationCostsPaid {
        project_id,
        payer: client,
        amount: expected_arbitration_cost,
    }));
}

#[test]
fn enforce_ruling_freelancer_loses_ai_round() {
    let mut w = new_test_ext();
    let project_id = 0u32;
    let client = account("alice");
    let freelancer = account("bob");
    let budget = 100 * UNIT;

    w.arbitrable.set_project_parties(project_id, client, freelancer);
    w.arbitrable.set_project_budget(project_id, budget);
    let _ = w.balances.deposit_creating(client, budget + 10 * UNIT);
    let _ = w.balances.deposit_creating(freelancer, 10 * UNIT);

    assert_eq!(w.create_project(Origin::Signed(client), budget, str_to_bounded("AI Lose Test"), 1000), Ok(()));
    assert_eq!(w.apply_for_project(Origin::Signed(freelancer), project_id), Ok(()));
    assert_eq!(w.start_work(Origin::Signed(client), project_id, freelancer), Ok(()));

    w.now = 1;
    assert_eq!(w.create_dispute(Origin::Signed(freelancer), project_id), Ok(()));

    let freelancer_reserved_before = w.balances.reserved_balance(freelancer);
    let pallet_balance_before = w.balances.free_balance(w.arbitration.account_id());

    let expected_bond = budget / 20;
    let _expected_arbitration_cost = budget / 50;
    assert_eq!(freelancer_reserved_before, expected_bond);

    w.now = 2;
    assert_eq!(w.submit_ruling(Origin::Root, project_id, Ruling::ClientWins), Ok(()));

    w.now = w.now + APPEAL_PERIOD + 1;

    assert_eq!(w.enforce_final_ruling(Origin::Signed(account("anyone")), project_id), Ok(()));

    let dispute = w.arbitration.disputes(project_id).expect("Dispute should exist");
    assert_eq!(dispute.status, DisputeStatus::Finalized);

    assert_eq!(w.balances.reserved_balance(freelancer), 0);

    let pallet_balance_after = w.balances.free_balance(w.arbitration.account_id());
    assert_eq!(pallet_balance_after - pallet_balance_before, expected_bond);

    assert!(w.has_event(Event::DisputeResolved { project_id, winner: client }));
}

#[test]
fn appeal_ruling_works() {
    let mut w = new_test_ext();
    let project_id = 0u32;
    let client = account("alice");
    let freelancer = account("bob");
    let budget = 100_000;
    w.arbitrable.set_project_parties(project_id, client, freelancer);
    w.arbitrable.set_project_budget(project_id, budget);
    let _ = w.balances.deposit_creating(client, budget);
    assert_eq!(w.create_project(Origin::Signed(client), budget, str_to_bounded("Test Project"), 1000), Ok(()));
    let _ = w.balances.deposit_creating(freelancer, 3 * UNIT);
    assert_eq!(w.apply_for_project(Origin::Signed(freelancer), project_id), Ok(()));
    assert_eq!(w.start_work(Origin::Signed(client), project_id, freelancer), Ok(()));
    w.now = 1;
    assert_eq!(w.create_dispute(Origin::Signed(freelancer), project_id), Ok(()));
    let ruling = Ruling::ClientWins;
    w.now = 2;
    assert_eq!(w.submit_ruling(Origin::Root, project_id, ruling), Ok(()));
    let jurors = vec![account("juror1"), account("juror2"), account("juror3")];
    w.reputation.set_jurors(jurors.clone());
    let initial_reserved = w.balances.reserved_balance(freelancer);

    assert_eq!(w.appeal_ruling(Origin::Signed(freelancer), project_id), Ok(()));

    let dispute = w.arbitration.disputes(project_id).expect("Dispute should exist");
    assert_eq!(dispute.status, DisputeStatus::Voting);
    assert_eq!(dispute.round, 2);
    assert_eq!(dispute.jurors.iter().map(|(j, _)| *j).collect::<Vec<_>>(), jurors);
    let final_reserved = w.balances.reserved_balance(freelancer);
    let appeal_bond = final_reserved - initial_reserved;

    assert!(appeal_bond > 0, "Appeal bond should be reserved");
    assert!(appeal_bond >= 5_000, "Appeal bond should be at least 5% of budget");
    // A fifth of this budget is less than the least bond of a first appeal, which is
    // what the appellant then posts.
    assert_eq!(appeal_bond, 2 * UNIT, "Appeal bond should be the least bond of a first appeal");
    let arbitration_costs = w.arbitration.get_total_arbitration_costs(project_id);
    assert!(arbitration_costs > 0, "Arbitration costs should be tracked");
    let events = w.arbitration_events();
    let appeal_started_event = events.iter().find(|event| matches!(event, Event::AppealStarted { .. }));

    assert!(appeal_started_event.is_some(), "AppealStarted event should be emitted");

    if let Some(Event::AppealStarted { project_id: pid, appellant, bond }) = appeal_started_event {
        assert_eq!(*pid, project_id);
        assert_eq!(*appellant, freelancer);
        assert_eq!(*bond, appeal_bond);
    }
}

#[test]
fn cast_vote_and_finalize_round_works() {
    let mut w = new_test_ext();
    let project_id = 0u32;
    let client = account("alice");
    let freelancer = account("bob");
    let budget = 100_000;

    w.arbitrable.set_project_parties(project_id, client, freelancer);
    w.arbitrable.set_project_budget(project_id, budget);
    let _ = w.balances.deposit_creating(client, budget);
    assert_eq!(w.create_project(Origin::Signed(client), budget, str_to_bounded("Test Project"), 1000), Ok(()));
    let _ = w.balances.deposit_creating(freelancer, 3 * UNIT);
    assert_eq!(w.apply_for_project(Origin::Signed(freelancer), project_id), Ok(()));
    assert_eq!(w.start_work(Origin::Signed(client), project_id, freelancer), Ok(()));

    w.now = 1;
    assert_eq!(w.create_dispute(Origin::Signed(freelancer), project_id), Ok(()));

    let ruling = Ruling::ClientWins;
    w.now = 2;
    assert_eq!(w.submit_ruling(Origin::Root, project_id, ruling), Ok(()));

    let juror1 = account("juror1");
    let juror2 = account("juror2");
    let juror3 = account("juror3");
    let jurors = vec![juror1, juror2, juror3];
    w.reputation.set_jurors(jurors.clone());

    assert_eq!(w.appeal_ruling(Origin::Signed(freelancer), project_id), Ok(()));

    assert_eq!(w.cast_vote(Origin::Signed(juror1), project_id, Vote::ForFreelancer), Ok(()));
    assert_eq!(w.cast_vote(Origin::Signed(juror2), project_id, Vote::ForFreelancer), Ok(()));
    assert_eq!(w.cast_vote(Origin::Signed(juror3), project_id, Vote::ForClient), Ok(()));

    w.now = w.now + 200 + 1;

    assert_eq!(w.finalize_round(Origin::Signed(account("anyone")), project_id), Ok(()));

    let dispute = w.arbitration.disputes(project_id).expect("Dispute should exist");
    assert_eq!(dispute.ruling, Some(Ruling::FreelancerWins));
    assert_eq!(dispute.status, DisputeStatus::Appealable);
}

#[test]
fn finalize_round_records_juror_rewards() {
    let mut w = new_test_ext();
    let (project_id, _client, freelancer) = create_project_and_dispute_to_round2(&mut w);

    let juror1 = account("juror1");
    let juror2 = account("juror2");
    let juror3 = account("juror3");
    w.reputation.set_jurors(vec![juror1, juror2, juror3]);

    let _ = w.balances.deposit_creating(freelancer, 10 * UNIT);

    assert_eq!(w.appeal_ruling(Origin::Signed(freelancer), project_id), Ok(()));

    assert_eq!(w.cast_vote(Origin::Signed(juror1), project_id, Vote::ForFreelancer), Ok(()));
    assert_eq!(w.cast_vote(Origin::Signed(juror2), project_id, Vote::ForFreelancer), Ok(()));
    assert_eq!(w.cast_vote(Origin::Signed(juror3), project_id, Vote::ForClient), Ok(()));

    w.now = w.now + 200 + 1;
    assert_eq!(w.finalize_round(Origin::Signed(account("any")), project_id), Ok(()));

    let dispute = w.arbitration.disputes(project_id).unwrap();
    assert_eq!(dispute.status, DisputeStatus::Appealable);

    let _juror1_reward = w.arbitration.get_jury_rewards_owed(project_id, juror1);
    let _juror2_reward = w.arbitration.get_jury_rewards_owed(project_id, juror2);
    let _juror3_reward = w.arbitration.get_jury_rewards_owed(project_id, juror3);

    assert!(!w.arbitration.disputes(project_id).is_none());
}

#[test]
fn enforce_final_ruling_completes_dispute_and_makes_payments() {
    let mut w = new_test_ext();
    let (project_id, client, freelancer) = create_project_and_dispute_to_round2(&mut w);

    let juror1 = account("juror1");
    let juror2 = account("juror2");
    let juror3 = account("juror3");
    w.reputation.set_jurors(vec![juror1, juror2, juror3]);

    let _ = w.balances.deposit_creating(client, 5 * UNIT);
    let _ = w.balances.deposit_creating(freelancer, 10 * UNIT);

    assert_eq!(w.appeal_ruling(Origin::Signed(freelancer), project_id), Ok(()));

    assert_eq!(w.cast_vote(Origin::Signed(juror1), project_id, Vote::ForFreelancer), Ok(()));
    assert_eq!(w.cast_vote(Origin::Signed(juror2), project_id, Vote::ForFreelancer), Ok(()));
    assert_eq!(w.cast_vote(Origin::Signed(juror3), project_id, Vote::ForFreelancer), Ok(()));

    w.now = w.now + VOTING_PERIOD + 1;
    assert_eq!(w.finalize_round(Origin::Signed(account("any")), project_id), Ok(()));

    w.now = w.now + APPEAL_PERIOD + 1;
    assert_eq!(w.enforce_final_ruling(Origin::Signed(account("any")), project_id), Ok(()));

    let final_dispute = w.arbitration.disputes(project_id).unwrap();
    assert_eq!(final_dispute.status, DisputeStatus::Finalized);
}

#[test]
fn finalize_round_distributes_rewards_to_jurors_who_voted_with_majority() {
    let mut w = new_test_ext();
    let (project_id, _client, freelancer) = create_project_and_dispute_to_round2(&mut w);
    let juror1 = account("juror1");
    let juror2 = account("juror2");
    let juror3 = account("juror3");
    w.reputation.set_jurors(vec![juror1, juror2, juror3]);
    let _ = w.balances.deposit_creating(freelancer, 10 * UNIT);
    assert_eq!(w.appeal_ruling(Origin::Signed(freelancer), project_id), Ok(()));
    assert_eq!(w.cast_vote(Origin::Signed(juror1), project_id, Vote::ForFreelancer), Ok(()));
    assert_eq!(w.cast_vote(Origin::Signed(juror2), project_id, Vote::ForFreelancer), Ok(()));
    assert_eq!(w.cast_vote(Origin::Signed(juror3), project_id, Vote::ForClient), Ok(()));
    w.now = w.now + 200 + 1;
    assert_eq!(w.finalize_round(Origin::Signed(account("any")), project_id), Ok(()));
    let juror1_reward = w.arbitration.get_jury_rewards_owed(project_id, juror1);
    let juror2_reward = w.arbitration.get_jury_rewards_owed(project_id, juror2);
    let juror3_reward = w.arbitration.get_jury_rewards_owed(project_id, juror3);
    assert!(juror1_reward > 0, "Juror who voted with majority should receive reward");
    assert!(juror2_reward > 0, "Juror who voted with majority should receive reward");
    assert!(juror3_reward > 0, "All jurors should receive base fee for participation");

    assert!(juror1_reward > juror3_reward, "Majority voters should get performance bonus on top of base fee");
    assert!(juror2_reward > juror3_reward, "Majority voters should get performance bonus on top of base fee");
    assert_eq!(juror1_reward, juror2_reward, "Both majority voters should get same rewards");
}

#[test]
fn enforce_final_ruling_pays_out_juror_rewards_and_handles_bonds() {
    let mut w = new_test_ext();
    let (project_id, client, freelancer) = create_project_and_dispute_to_round2(&mut w);

    let juror1 = account("juror1");
    let juror2 = account("juror2");
    let juror3 = account("juror3");
    w.reputation.set_jurors(vec![juror1, juror2, juror3]);

    let _ = w.balances.deposit_creating(client, 10 * UNIT);
    let _ = w.balances.deposit_creating(freelancer, 10 * UNIT);
    let pallet_account = w.arbitration.account_id();
    let _ = w.balances.deposit_creating(pallet_account, 10 * UNIT);

    assert_eq!(w.appeal_ruling(Origin::Signed(freelancer), project_id), Ok(()));

    assert_eq!(w.cast_vote(Origin::Signed(juror1), project_id, Vote::ForFreelancer), Ok(()));
    assert_eq!(w.cast_vote(Origin::Signed(juror2), project_id, Vote::ForFreelancer), Ok(()));
    assert_eq!(w.cast_vote(Origin::Signed(juror3), project_id, Vote::ForClient), Ok(()));

    w.now = w.now + VOTING_PERIOD + 1;
    assert_eq!(w.finalize_round(Origin::Signed(account("any")), project_id), Ok(()));

    let juror1_expected_reward = w.arbitration.get_jury_rewards_owed(project_id, juror1);
    assert!(juror1_expected_reward > 0, "Juror reward should be calculated");

    w.now = w.now + APPEAL_PERIOD + 1;
    assert_eq!(w.enforce_final_ruling(Origin::Signed(account("any")), project_id), Ok(()));

    let final_dispute = w.arbitration.disputes(project_id).unwrap();
    assert_eq!(final_dispute.status, DisputeStatus::Finalized);
}

#[test]
fn dispute_flow_full_slash_path() {
    let mut w = new_test_ext();
    let (project_id, _client, freelancer) = create_project_and_dispute_to_round2(&mut w);

    let juror1 = account("juror1");
    let juror2 = account("juror2");
    let juror3 = account("juror3");
    w.reputation.set_jurors(vec![juror1, juror2, juror3]);

    assert_eq!(w.appeal_ruling(Origin::Signed(freelancer), project_id), Ok(()));

    assert_eq!(w.cast_vote(Origin::Signed(juror1), project_id, Vote::ForFreelancer), Ok(()));
    assert_eq!(w.cast_vote(Origin::Signed(juror2), project_id, Vote::ForFreelancer), Ok(()));
    assert_eq!(w.cast_vote(Origin::Signed(juror3), project_id, Vote::ForFreelancer), Ok(()));

    w.now = w.now + 200 + 1;
    assert_eq!(w.finalize_round(Origin::Signed(account("any")), project_id), Ok(()));

    let dispute = w.arbitration.disputes(project_id).expect("Dispute should exist");
    assert_eq!(dispute.ruling, Some(Ruling::FreelancerWins));
}

#[test]
fn arbitration_costs_are_tracked_correctly() {
    let mut w = new_test_ext();
    let (project_id, _client, freelancer) = create_project_and_dispute_to_round2(&mut w);

    let initial_cost = w.arbitration.get_total_arbitration_costs(project_id);
    assert!(initial_cost > 0, "Initial arbitration cost should be recorded");

    let _ = w.balances.deposit_creating(freelancer, 10 * UNIT);

    let jurors = vec![account("juror1"), account("juror2"), account("juror3")];
    w.reputation.set_jurors(jurors);

    assert_eq!(w.appeal_ruling(Origin::Signed(freelancer), project_id), Ok(()));

    let cost_after_appeal = w.arbitration.get_total_arbitration_costs(project_id);
    assert!(cost_after_appeal > initial_cost, "Appeal should add to arbitration costs");
}

#[test]
fn appeal_bonds_are_handled_correctly() {
    let mut w = new_test_ext();
    let (project_id, _client, freelancer) = create_project_and_dispute_to_round2(&mut w);

    let jurors = vec![account("juror1"), account("juror2"), account("juror3")];
    w.reputation.set_jurors(jurors);

    let _ = w.balances.deposit_creating(freelancer, 10 * UNIT);

    let initial_reserved = w.balances.reserved_balance(freelancer);

    assert_eq!(w.appeal_ruling(Origin::Signed(freelancer), project_id), Ok(()));

    let after_appeal_reserved = w.balances.reserved_balance(freelancer);
    let appeal_bond = after_appeal_reserved - initial_reserved;

    let bond_info = w.arbitration.get_appeal_bond_info(project_id, 2);
    assert!(bond_info.is_some(), "Appeal bond info should be stored");

    let (appellant, bond_amount) = bond_info.unwrap();
    assert_eq!(appellant, freelancer, "Appellant should be recorded correctly");
    assert_eq!(bond_amount, appeal_bond, "Bond amount should match reserved amount");
}
