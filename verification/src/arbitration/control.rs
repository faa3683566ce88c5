//! The commands of the dispute controller that need no answer from outside: they are
//! handed what the project escrow and the juror registry have said.

use vstd::prelude::*;
use crate::arbitration::model::{
    deadline, fresh_seats, lemma_wf_same_votes, loser_of, required_jury, tally, votes_for,
    with_fee, with_fees, with_majority, with_reward,
};
use crate::arbitration::schedule::{
    appeal_bond, arbitration_cost, bond_for, cost_for, fees_for, jury_fees, MAX_ROUND,
};
use crate::arbitration::{
    find_fee, find_reward, seat_is, ArbitrationView, DisputeInfo, DisputeStatus, DisputeView, Error,
    Event, Finances, FinancesView, JurorReward, JuryFee, Pallet, Ruling, Vote,
};
use crate::bounded::{
    account_list_get, account_list_items, account_list_len, ballots_cast, ballots_clear,
    ballots_entries, ballots_new, ballots_try_insert, jury_get, jury_len, jury_new, jury_seats,
    jury_set, jury_try_push, uri_bytes, AccountList, Ballots, Jury, Uri, MAX_ACCOUNTS,
};
use crate::reputation::JurorTier;
use crate::ledger::Ledger;
use crate::primitives::{ensure_signed, spec_ensure_signed, AccountId, Balance, BlockNumber, LedgerError, Origin, ProjectId};
use crate::seqs::{first, lemma_first, lemma_no_first};
use crate::{DispatchError, RuntimeEvent};

verus! {

/// Finds the first seat of a juror.
pub(crate) fn find_seat(jury: &Jury, who: AccountId) -> (r: Option<usize>)
    ensures
        match r {
            Some(i) => first(jury_seats(*jury), seat_is(who)) == Some(i as int) && i < jury_seats(
                *jury,
            ).len() && jury_seats(*jury)[i as int].0 == who,
            None => first(jury_seats(*jury), seat_is(who)) is None,
        },
{
    let ghost p = seat_is(who);
    let n = jury_len(jury);
    let mut i: usize = 0;
    while i < n
        invariant
            n == jury_seats(*jury).len(),
            i <= n,
            p == seat_is(who),
            forall|k: int| 0 <= k < i ==> !p(jury_seats(*jury)[k]),
        decreases n - i,
    {
        if jury_get(jury, i).0 == who {
            proof {
                lemma_first(jury_seats(*jury), p, i as int);
            }
            return Some(i);
        }
        i += 1;
    }
    proof {
        lemma_no_first(jury_seats(*jury), p);
    }
    None
}

impl Pallet {
    /// Puts a dispute on record.
    pub(crate) fn put_dispute(&mut self, project_id: ProjectId, dispute: DisputeInfo)
        ensures
            final(self)@ == old(self)@.with_dispute(project_id, dispute@),
    {
        self.disputes.insert(project_id, dispute);
        assert(self@.disputes =~= old(self)@.disputes.insert(project_id, dispute@));
    }

    /// Puts the financial records of a dispute on record.
    pub(crate) fn put_finances(&mut self, project_id: ProjectId, finances: Finances)
        ensures
            final(self)@ == old(self)@.with_finances(project_id, finances@),
    {
        self.finances.insert(project_id, finances);
        assert(self@.finances =~= old(self)@.finances.insert(project_id, finances@));
    }

    /// Takes a dispute off the record, to be changed and put back.
    pub(crate) fn take_dispute(&mut self, project_id: ProjectId) -> (r: Option<DisputeInfo>)
        ensures
            match r {
                Some(dispute) => old(self)@.disputes.contains_key(project_id) && dispute@ == old(self)@.disputes[project_id] && final(self)@ == (ArbitrationView {
                    disputes: old(self)@.disputes.remove(project_id),
                    ..old(self)@
                }),
                None => !old(self)@.disputes.contains_key(project_id) && final(self)@ == old(self)@,
            },
    {
        let r = self.disputes.remove(&project_id);
        assert(self@.disputes =~= old(self)@.disputes.remove(project_id));
        assert(r is None ==> self@.disputes =~= old(self)@.disputes);
        assert(old(self)@.disputes.contains_key(project_id) == old(self).disputes@.contains_key(
            project_id,
        ));
        assert(old(self).disputes@.contains_key(project_id) ==> old(self)@.disputes[project_id]
            == old(self).disputes@[project_id]@);
        r
    }

    /// Takes the financial records of a dispute off the record, to be changed and put
    /// back.
    pub(crate) fn take_finances(&mut self, project_id: ProjectId) -> (r: Option<Finances>)
        ensures
            match r {
                Some(finances) => old(self)@.finances.contains_key(project_id) && finances@ == old(self)@.finances[project_id] && final(self)@ == (ArbitrationView {
                    finances: old(self)@.finances.remove(project_id),
                    ..old(self)@
                }),
                None => !old(self)@.finances.contains_key(project_id) && final(self)@ == old(self)@,
            },
    {
        let r = self.finances.remove(&project_id);
        assert(self@.finances =~= old(self)@.finances.remove(project_id));
        assert(r is None ==> self@.finances =~= old(self)@.finances);
        assert(old(self)@.finances.contains_key(project_id) == old(self).finances@.contains_key(
            project_id,
        ));
        assert(old(self).finances@.contains_key(project_id) ==> old(self)@.finances[project_id]
            == old(self).finances@[project_id]@);
        r
    }

    /// Opens the dispute about a project for its freelancer, who is `parties.1`:
    /// reserves the bond of the first round, records the cost of the first round and
    /// puts the dispute on record, waiting for its first ruling.
    pub fn open_dispute(
        &mut self,
        ledger: &mut Ledger,
        origin: Origin,
        project_id: ProjectId,
        evidence_uri: Uri,
        parties: (AccountId, AccountId),
        budget: Balance,
        now: BlockNumber,
    ) -> (r: Result<Vec<RuntimeEvent>, DispatchError>)
        requires
            old(ledger).wf(),
        ensures
            final(ledger).wf(),
            old(self)@.wf() ==> final(self)@.wf(),
            match r {
                Ok(events) => spec_ensure_signed(origin) matches Ok(who) && old(self)@.create_dispute_error(old(ledger)@, origin, project_id, parties.1, budget) is None
                    && final(self)@ == old(self)@.create_dispute(
                    who,
                    project_id,
                    uri_bytes(evidence_uri),
                    budget,
                    now,
                ) && final(ledger)@ == old(ledger)@.reserve(
                    who,
                    crate::arbitration::schedule::appeal_bond(old(self)@.config, budget, 1).unwrap(),
                ) && events@ == seq![
                    RuntimeEvent::Arbitration(Event::DisputeCreated { project_id, who }),
                ],
                Err(e) => old(self)@.create_dispute_error(
                    old(ledger)@,
                    origin,
                    project_id,
                    parties.1,
                    budget,
                ) == Some(e) && final(self)@ == old(self)@ && final(ledger)@ == old(ledger)@,
            },
    {
        let freelancer = match ensure_signed(origin) {
            Ok(who) => who,
            Err(e) => {
                return Err(e);
            },
        };
        if self.disputes.contains_key(&project_id) {
            return Err(DispatchError::Arbitration(Error::DisputeAlreadyExists));
        }
        if freelancer != parties.1 {
            return Err(DispatchError::Arbitration(Error::NotAuthorized));
        }
        let bond = match bond_for(&self.config, budget, 1) {
            Ok(bond) => bond,
            Err(e) => {
                return Err(DispatchError::Arbitration(e));
            },
        };
        let initial_arbitration_cost = match cost_for(budget, 1) {
            Ok(cost) => cost,
            Err(e) => {
                return Err(DispatchError::Arbitration(e));
            },
        };
        match ledger.reserve(freelancer, bond) {
            Ok(_) => {},
            Err(e) => {
                return Err(DispatchError::Ledger(e));
            },
        }
        let new_dispute = DisputeInfo {
            status: DisputeStatus::AiProcessing,
            evidence_uri,
            start_block: now,
            ruling: None,
            round: 1,
            jurors: jury_new(),
            votes: ballots_new(),
        };
        self.put_dispute(project_id, new_dispute);
        self.put_finances(
            project_id,
            Finances {
                arbitration_cost: initial_arbitration_cost,
                bond_round_1: Some((freelancer, bond)),
                bond_round_2: None,
                bond_round_3: None,
                jury_fees_owed: Vec::new(),
                juror_rewards: Vec::new(),
            },
        );
        let mut events: Vec<RuntimeEvent> = Vec::new();
        events.push(RuntimeEvent::Arbitration(Event::DisputeCreated { project_id, who: freelancer }));
        Ok(events)
    }

    /// Records the first ruling of a dispute. Only the oracle may submit it, and only
    /// while the dispute waits for it; the ruling can then be appealed.
    pub fn submit_ruling(&mut self, origin: Origin, project_id: ProjectId, ruling: Ruling, now: BlockNumber) -> (r:
        Result<Vec<RuntimeEvent>, DispatchError>)
        ensures
            old(self)@.wf() ==> final(self)@.wf(),
            match r {
                Ok(events) => old(self)@.submit_ruling_error(origin, project_id) is None && final(self)@ == old(self)@.with_dispute(
                    project_id,
                    old(self)@.disputes[project_id].ruled(ruling, now),
                ) && events@ == seq![
                    RuntimeEvent::Arbitration(Event::AiRulingSubmitted { project_id, ruling }),
                ],
                Err(e) => old(self)@.submit_ruling_error(origin, project_id) == Some(e) && final(self)@ == old(self)@,
            },
    {
        if origin != self.config.ai_oracle {
            return Err(DispatchError::BadOrigin);
        }
        let status = match self.disputes.get(&project_id) {
            Some(dispute) => dispute.status,
            None => {
                return Err(DispatchError::Arbitration(Error::DisputeNotFound));
            },
        };
        if status != DisputeStatus::AiProcessing {
            return Err(DispatchError::Arbitration(Error::InvalidStatus));
        }
        let mut dispute = match self.take_dispute(project_id) {
            Some(dispute) => dispute,
            None => {
                return Err(DispatchError::Arbitration(Error::DisputeNotFound));
            },
        };
        dispute.ruling = Some(ruling);
        dispute.status = DisputeStatus::Appealable;
        dispute.start_block = now;
        proof {
            if old(self)@.wf() {
                assert(old(self)@.disputes.contains_key(project_id));
                assert(old(self)@.disputes[project_id].wf());
                crate::arbitration::model::lemma_wf_same_votes(
                    old(self)@.disputes[project_id],
                    dispute@,
                );
            }
        }
        self.put_dispute(project_id, dispute);
        assert(final(self)@.disputes =~= old(self)@.disputes.insert(
            project_id,
            old(self)@.disputes[project_id].ruled(ruling, now),
        ));
        let mut events: Vec<RuntimeEvent> = Vec::new();
        events.push(RuntimeEvent::Arbitration(Event::AiRulingSubmitted { project_id, ruling }));
        Ok(events)
    }

    /// Casts the vote of a juror of the current round. A juror votes once.
    pub fn cast_vote(&mut self, origin: Origin, project_id: ProjectId, vote: Vote) -> (r: Result<
        Vec<RuntimeEvent>,
        DispatchError,
    >)
        ensures
            old(self)@.wf() ==> final(self)@.wf(),
            match r {
                Ok(events) => spec_ensure_signed(origin) matches Ok(who) && old(self)@.cast_vote_error(origin, project_id) is None && final(self)@ == old(self)@.with_dispute(project_id, old(self)@.disputes[project_id].cast_vote(who, vote))
                    && events@ == seq![
                    RuntimeEvent::Arbitration(Event::VoteCast { project_id, who, vote }),
                ],
                Err(e) => old(self)@.cast_vote_error(origin, project_id) == Some(e) && final(self)@
                    == old(self)@,
            },
    {
        let juror = match ensure_signed(origin) {
            Ok(who) => who,
            Err(e) => {
                return Err(e);
            },
        };
        let seat = match self.disputes.get(&project_id) {
            None => {
                return Err(DispatchError::Arbitration(Error::DisputeNotFound));
            },
            Some(dispute) => {
                if dispute.status != DisputeStatus::Voting {
                    return Err(DispatchError::Arbitration(Error::InvalidStatus));
                }
                let seat = match find_seat(&dispute.jurors, juror) {
                    Some(seat) => seat,
                    None => {
                        return Err(DispatchError::Arbitration(Error::NotJuror));
                    },
                };
                if jury_get(&dispute.jurors, seat).1 {
                    return Err(DispatchError::Arbitration(Error::AlreadyVoted));
                }
                seat
            },
        };
        let mut dispute = match self.take_dispute(project_id) {
            Some(dispute) => dispute,
            None => {
                return Err(DispatchError::Arbitration(Error::DisputeNotFound));
            },
        };
        let ghost before = dispute@;
        match ballots_try_insert(&mut dispute.votes, juror, vote) {
            Ok(_) => {},
            Err(_) => {
                self.put_dispute(project_id, dispute);
                assert(self@.disputes =~= old(self)@.disputes);
                return Err(DispatchError::Arbitration(Error::NotEnoughJurors));
            },
        }
        jury_set(&mut dispute.jurors, seat, (juror, true));
        assert(dispute@ == before.cast_vote(juror, vote));
        proof {
            crate::arbitration::model::lemma_cast_vote_wf(before, juror, vote);
        }
        self.put_dispute(project_id, dispute);
        assert(self@.disputes =~= old(self)@.disputes.insert(
            project_id,
            old(self)@.disputes[project_id].cast_vote(juror, vote),
        ));
        let mut events: Vec<RuntimeEvent> = Vec::new();
        events.push(RuntimeEvent::Arbitration(Event::VoteCast { project_id, who: juror, vote }));
        Ok(events)
    }
}

/// Seats the jurors that were selected: nobody has voted.
fn seat_jury(jurors: &AccountList) -> (jury: Jury)
    ensures
        jury_seats(jury) == fresh_seats(account_list_items(*jurors)),
        jury_seats(jury).len() <= MAX_ACCOUNTS,
{
    let n = account_list_len(jurors);
    let mut jury = jury_new();
    let mut i: usize = 0;
    while i < n
        invariant
            n == account_list_items(*jurors).len(),
            n <= MAX_ACCOUNTS,
            i <= n,
            jury_seats(jury) == fresh_seats(account_list_items(*jurors).take(i as int)),
        decreases n - i,
    {
        let pushed = jury_try_push(&mut jury, (account_list_get(jurors, i), false));
        assert(pushed is Ok);
        proof {
            let all = account_list_items(*jurors);
            assert(fresh_seats(all.take(i as int)).push((all[i as int], false)) =~= fresh_seats(
                all.take(i as int + 1),
            ));
        }
        i += 1;
    }
    proof {
        assert(account_list_items(*jurors).take(n as int) =~= account_list_items(*jurors));
    }
    jury
}

/// Records what one juror is owed for a round, in place of what was on record.
fn record_fee(fees: &mut Vec<JuryFee>, fee: JuryFee)
    ensures
        final(fees)@ == with_fee(old(fees)@, fee),
{
    match find_fee(fees, fee.round, fee.juror) {
        Some(i) => {
            fees.set(i, fee);
        },
        None => {
            fees.push(fee);
        },
    }
}

/// Records what every juror of a round is owed.
fn record_fees(
    fees: &mut Vec<JuryFee>,
    round: u32,
    jurors: &AccountList,
    base_fee: Balance,
    performance_bonus: Balance,
)
    ensures
        final(fees)@ == with_fees(
            old(fees)@,
            round,
            account_list_items(*jurors),
            base_fee,
            performance_bonus,
        ),
{
    let n = account_list_len(jurors);
    let mut i: usize = 0;
    while i < n
        invariant
            n == account_list_items(*jurors).len(),
            i <= n,
            fees@ == with_fees(
                old(fees)@,
                round,
                account_list_items(*jurors).take(i as int),
                base_fee,
                performance_bonus,
            ),
        decreases n - i,
    {
        proof {
            let all = account_list_items(*jurors);
            assert(all.take(i as int + 1).drop_last() =~= all.take(i as int));
        }
        record_fee(fees, JuryFee { round, juror: account_list_get(jurors, i), base_fee, performance_bonus });
        i += 1;
    }
    proof {
        assert(account_list_items(*jurors).take(n as int) =~= account_list_items(*jurors));
    }
}

/// Adds to what a juror has earned.
fn add_reward(rewards: &mut Vec<JurorReward>, juror: AccountId, amount: Balance)
    ensures
        final(rewards)@ == with_reward(old(rewards)@, juror, amount),
{
    match find_reward(rewards, juror) {
        Some(i) => {
            let so_far = rewards[i].amount;
            rewards.set(i, JurorReward { juror, amount: so_far.saturating_add(amount) });
        },
        None => {
            rewards.push(JurorReward { juror, amount });
        },
    }
}

/// Whether a vote goes with a ruling.
pub(crate) fn voted_with_majority(ruling: Ruling, vote: Vote) -> (b: bool)
    ensures
        b == with_majority(ruling, vote),
{
    match (ruling, vote) {
        (Ruling::FreelancerWins, Vote::ForFreelancer) => true,
        (Ruling::ClientWins, Vote::ForClient) => true,
        _ => false,
    }
}

/// Counts votes into a ruling: a tie goes to the freelancer.
pub(crate) fn count_votes(entries: &Vec<(AccountId, Vote)>) -> (ruling: Ruling)
    ensures
        ruling == tally(entries@),
{
    let mut client_votes: usize = 0;
    let mut freelancer_votes: usize = 0;
    let mut i: usize = 0;
    while i < entries.len()
        invariant
            i <= entries@.len(),
            client_votes == votes_for(entries@.take(i as int), Vote::ForClient),
            freelancer_votes == votes_for(entries@.take(i as int), Vote::ForFreelancer),
            client_votes <= i,
            freelancer_votes <= i,
        decreases entries@.len() - i,
    {
        proof {
            assert(entries@.take(i as int + 1).drop_last() =~= entries@.take(i as int));
        }
        match entries[i].1 {
            Vote::ForClient => {
                client_votes += 1;
            },
            Vote::ForFreelancer => {
                freelancer_votes += 1;
            },
        }
        i += 1;
    }
    proof {
        assert(entries@.take(i as int) =~= entries@);
    }
    if freelancer_votes >= client_votes {
        Ruling::FreelancerWins
    } else {
        Ruling::ClientWins
    }
}

/// What an appeal that can go ahead needs to know.
pub(crate) struct AppealPlan {
    pub appellant: AccountId,
    pub next_round: u32,
    pub bond: Balance,
    pub required_tier: JurorTier,
    pub jury_size: u32,
}

impl Pallet {
    /// Takes the financial records of a dispute off the record, or empty ones where
    /// nothing is on record.
    pub(crate) fn take_finances_or_empty(&mut self, project_id: ProjectId) -> (finances: Finances)
        ensures
            finances@ == old(self)@.finances_of(project_id),
            final(self)@ == (ArbitrationView {
                finances: old(self)@.finances.remove(project_id),
                ..old(self)@
            }),
    {
        match self.take_finances(project_id) {
            Some(finances) => finances,
            None => {
                assert(self@.finances =~= old(self)@.finances.remove(project_id));
                Finances {
                    arbitration_cost: 0,
                    bond_round_1: None,
                    bond_round_2: None,
                    bond_round_3: None,
                    jury_fees_owed: Vec::new(),
                    juror_rewards: Vec::new(),
                }
            },
        }
    }

    /// Checks everything about an appeal that does not depend on the jury.
    pub(crate) fn check_appeal(
        &self,
        ledger: &Ledger,
        origin: Origin,
        project_id: ProjectId,
        parties: (AccountId, AccountId),
        budget: Balance,
        now: BlockNumber,
    ) -> (r: Result<AppealPlan, DispatchError>)
        requires
            ledger.wf(),
        ensures
            match r {
                Ok(plan) => self@.appeal_error_before_selection(
                    ledger@,
                    origin,
                    project_id,
                    parties,
                    budget,
                    now,
                ) is None && spec_ensure_signed(origin) == Ok::<AccountId, DispatchError>(
                    plan.appellant,
                ) && plan.next_round == self@.disputes[project_id].round.saturating_add(1)
                    && 2 <= plan.next_round <= MAX_ROUND && appeal_bond(
                    self@.config,
                    budget,
                    plan.next_round,
                ) == Some(plan.bond) && required_jury(self@.config, plan.next_round) == Some(
                    (plan.required_tier, plan.jury_size),
                ),
                Err(e) => self@.appeal_error_before_selection(
                    ledger@,
                    origin,
                    project_id,
                    parties,
                    budget,
                    now,
                ) == Some(e),
            },
    {
        let appellant = match ensure_signed(origin) {
            Ok(who) => who,
            Err(e) => {
                return Err(e);
            },
        };
        let dispute = match self.disputes(project_id) {
            Some(dispute) => dispute,
            None => {
                return Err(DispatchError::Arbitration(Error::DisputeNotFound));
            },
        };
        if dispute.status != DisputeStatus::Appealable {
            return Err(DispatchError::Arbitration(Error::InvalidStatus));
        }
        if !(now < dispute.start_block.saturating_add(self.config.appeal_period)) {
            return Err(DispatchError::Arbitration(Error::AppealPeriodExpired));
        }
        let (client, freelancer) = parties;
        let loser = match dispute.ruling {
            Some(Ruling::ClientWins) => freelancer,
            Some(Ruling::FreelancerWins) => client,
            None => {
                return Err(DispatchError::Arbitration(Error::InvalidStatus));
            },
        };
        if appellant != loser {
            return Err(DispatchError::Arbitration(Error::NotLosingParty));
        }
        let next_round = dispute.round.saturating_add(1);
        if next_round > MAX_ROUND {
            return Err(DispatchError::Arbitration(Error::MaxAppealsReached));
        }
        let bond = match bond_for(&self.config, budget, next_round) {
            Ok(bond) => bond,
            Err(e) => {
                return Err(DispatchError::Arbitration(e));
            },
        };
        if !ledger.can_withdraw(appellant, bond) {
            return Err(DispatchError::Ledger(LedgerError::InsufficientBalance));
        }
        let (required_tier, jury_size) = if next_round == 2 {
            (JurorTier::Bronze, self.config.min_jurors)
        } else if next_round == 3 {
            (JurorTier::Silver, MAX_ACCOUNTS)
        } else {
            return Err(DispatchError::Arbitration(Error::InvalidRound));
        };
        Ok(AppealPlan { appellant, next_round, bond, required_tier, jury_size })
    }

    /// Carries out an appeal that can go ahead.
    pub(crate) fn apply_appeal(
        &mut self,
        ledger: &mut Ledger,
        plan: &AppealPlan,
        origin: Origin,
        project_id: ProjectId,
        evidence_uri: Uri,
        parties: (AccountId, AccountId),
        budget: Balance,
        jurors: &AccountList,
        now: BlockNumber,
    ) -> (events: Vec<RuntimeEvent>)
        requires
            old(ledger).wf(),
            old(self)@.appeal_ruling_error(
                old(ledger)@,
                origin,
                project_id,
                parties,
                budget,
                account_list_items(*jurors),
                now,
            ) is None,
            spec_ensure_signed(origin) == Ok::<AccountId, DispatchError>(plan.appellant),
            plan.next_round == old(self)@.disputes[project_id].round.saturating_add(1),
            2 <= plan.next_round <= MAX_ROUND,
            appeal_bond(old(self)@.config, budget, plan.next_round) == Some(plan.bond),
        ensures
            final(ledger).wf(),
            old(self)@.wf() ==> final(self)@.wf(),
            final(self)@ == old(self)@.appeal_ruling(
                plan.appellant,
                project_id,
                uri_bytes(evidence_uri),
                budget,
                account_list_items(*jurors),
                now,
            ),
            final(ledger)@ == old(ledger)@.reserve(plan.appellant, plan.bond),
            events@ == old(self)@.appeal_ruling_events(plan.appellant, project_id, budget),
    {
        let next_round = plan.next_round;
        let appellant = plan.appellant;
        let cost = match cost_for(budget, next_round) {
            Ok(cost) => cost,
            Err(_) => unreached(),
        };
        let (base_fee, performance_bonus) = match fees_for(budget, next_round) {
            Ok(fees) => fees,
            Err(_) => unreached(),
        };
        let reserved = ledger.reserve(appellant, plan.bond);
        assert(reserved is Ok);
        let mut finances = self.take_finances_or_empty(project_id);
        if next_round == 2 {
            finances.bond_round_2 = Some((appellant, plan.bond));
        } else {
            finances.bond_round_3 = Some((appellant, plan.bond));
        }
        finances.arbitration_cost = finances.arbitration_cost.saturating_add(cost);
        record_fees(&mut finances.jury_fees_owed, next_round, jurors, base_fee, performance_bonus);
        self.put_finances(project_id, finances);
        let mut dispute = match self.take_dispute(project_id) {
            Some(dispute) => dispute,
            None => unreached(),
        };
        dispute.round = next_round;
        dispute.status = DisputeStatus::Voting;
        dispute.jurors = seat_jury(jurors);
        ballots_clear(&mut dispute.votes);
        dispute.ruling = None;
        dispute.start_block = now;
        dispute.evidence_uri = evidence_uri;
        self.put_dispute(project_id, dispute);
        proof {
            let target = old(self)@.appeal_ruling(
                appellant,
                project_id,
                uri_bytes(evidence_uri),
                budget,
                account_list_items(*jurors),
                now,
            );
            assert(self@.finances =~= target.finances);
            assert(self@.disputes =~= target.disputes);
        }
        let mut events: Vec<RuntimeEvent> = Vec::new();
        events.push(
            RuntimeEvent::Arbitration(Event::AppealStarted { project_id, appellant, bond: plan.bond }),
        );
        events.push(RuntimeEvent::Arbitration(Event::ArbitrationCostReserved { project_id, amount: cost }));
        events
    }

    /// Appeals the ruling that stands, for the party that it goes against, with the
    /// jury that the registry has selected for the next round: reserves the bond of the
    /// round, adds its cost, records what its jurors are owed, and opens the vote.
    pub fn appeal_with_jury(
        &mut self,
        ledger: &mut Ledger,
        origin: Origin,
        project_id: ProjectId,
        evidence_uri: Uri,
        parties: (AccountId, AccountId),
        budget: Balance,
        jurors: &AccountList,
        now: BlockNumber,
    ) -> (r: Result<Vec<RuntimeEvent>, DispatchError>)
        requires
            old(ledger).wf(),
        ensures
            final(ledger).wf(),
            old(self)@.wf() ==> final(self)@.wf(),
            match r {
                Ok(events) => spec_ensure_signed(origin) matches Ok(appellant) && old(self)@.appeal_ruling_error(
                    old(ledger)@,
                    origin,
                    project_id,
                    parties,
                    budget,
                    account_list_items(*jurors),
                    now,
                ) is None && final(self)@ == old(self)@.appeal_ruling(
                    appellant,
                    project_id,
                    uri_bytes(evidence_uri),
                    budget,
                    account_list_items(*jurors),
                    now,
                ) && final(ledger)@ == old(ledger)@.reserve(
                    appellant,
                    appeal_bond(
                        old(self)@.config,
                        budget,
                        old(self)@.disputes[project_id].round.saturating_add(1),
                    ).unwrap(),
                ) && events@ == old(self)@.appeal_ruling_events(appellant, project_id, budget),
                Err(e) => old(self)@.appeal_ruling_error(
                    old(ledger)@,
                    origin,
                    project_id,
                    parties,
                    budget,
                    account_list_items(*jurors),
                    now,
                ) == Some(e) && final(self)@ == old(self)@ && final(ledger)@ == old(ledger)@,
            },
    {
        let plan = match self.check_appeal(ledger, origin, project_id, parties, budget, now) {
            Ok(plan) => plan,
            Err(e) => {
                return Err(e);
            },
        };
        if account_list_len(jurors) < plan.jury_size as usize {
            return Err(DispatchError::Arbitration(Error::NotEnoughJurors));
        }
        Ok(self.apply_appeal(ledger, &plan, origin, project_id, evidence_uri, parties, budget, jurors, now))
    }

    /// Credits every juror that voted in a round with its fee, and with its bonus
    /// where its vote went with the ruling.
    pub fn award_jury_fees_for_round(
        &mut self,
        project_id: ProjectId,
        round: u32,
        ruling: Ruling,
        votes: &Ballots,
    ) -> (events: Vec<RuntimeEvent>)
        ensures
            final(self)@ == old(self)@.with_finances(
                project_id,
                FinancesView {
                    juror_rewards: old(self)@.finances_of(project_id).rewarded(
                        round,
                        ruling,
                        ballots_cast(*votes),
                    ),
                    ..old(self)@.finances_of(project_id)
                },
            ),
            events@ == old(self)@.finances_of(project_id).reward_events(
                project_id,
                round,
                ruling,
                ballots_cast(*votes),
            ),
    {
        let entries = ballots_entries(votes);
        let mut finances = self.take_finances_or_empty(project_id);
        let ghost before = finances@;
        let mut events: Vec<RuntimeEvent> = Vec::new();
        let mut i: usize = 0;
        while i < entries.len()
            invariant
                i <= entries@.len(),
                finances@ == (FinancesView {
                    juror_rewards: before.rewarded(round, ruling, entries@.take(i as int)),
                    ..before
                }),
                events@ == before.reward_events(project_id, round, ruling, entries@.take(i as int)),
            decreases entries@.len() - i,
        {
            proof {
                assert(entries@.take(i as int + 1).drop_last() =~= entries@.take(i as int));
            }
            let (juror, vote) = entries[i];
            let (base_fee, performance_bonus) = match find_fee(&finances.jury_fees_owed, round, juror) {
                Some(k) => (finances.jury_fees_owed[k].base_fee, finances.jury_fees_owed[k].performance_bonus),
                None => (0, 0),
            };
            add_reward(&mut finances.juror_rewards, juror, base_fee);
            events.push(
                RuntimeEvent::Arbitration(Event::JurorBaseFeeAwarded { project_id, juror, amount: base_fee }),
            );
            if voted_with_majority(ruling, vote) {
                add_reward(&mut finances.juror_rewards, juror, performance_bonus);
                events.push(
                    RuntimeEvent::Arbitration(
                        Event::JurorPerformanceBonusAwarded { project_id, juror, amount: performance_bonus },
                    ),
                );
            }
            i += 1;
        }
        proof {
            assert(entries@.take(i as int) =~= entries@);
        }
        self.put_finances(project_id, finances);
        assert(self@.finances =~= old(self)@.finances.insert(project_id, finances@));
        events
    }

    /// Checks whether the votes of a round can be counted.
    pub(crate) fn check_finalize_round(&self, origin: Origin, project_id: ProjectId, now: BlockNumber) -> (r: Result<
        (),
        DispatchError,
    >)
        ensures
            match r {
                Ok(_) => self@.finalize_round_error(origin, project_id, now) is None,
                Err(e) => self@.finalize_round_error(origin, project_id, now) == Some(e),
            },
    {
        match ensure_signed(origin) {
            Ok(_) => {},
            Err(e) => {
                return Err(e);
            },
        }
        let dispute = match self.disputes(project_id) {
            Some(dispute) => dispute,
            None => {
                return Err(DispatchError::Arbitration(Error::DisputeNotFound));
            },
        };
        if dispute.status != DisputeStatus::Voting {
            return Err(DispatchError::Arbitration(Error::InvalidStatus));
        }
        if !(now >= dispute.start_block.saturating_add(self.config.voting_period)) {
            return Err(DispatchError::Arbitration(Error::VotingPeriodNotOver));
        }
        Ok(())
    }

    /// Counts and rewards the votes of a round that can be counted, and lets the
    /// ruling stand; returns what the rewarding reports, the ruling, and every vote
    /// with its juror.
    pub(crate) fn apply_finalize_round(&mut self, project_id: ProjectId, now: BlockNumber) -> (r: (
        Vec<RuntimeEvent>,
        Ruling,
        Vec<(AccountId, Vote)>,
    ))
        requires
            old(self)@.disputes.contains_key(project_id),
        ensures
            old(self)@.wf() ==> final(self)@.wf(),
            final(self)@ == old(self)@.finalize_round(project_id, now),
            r.0@ == old(self)@.finalize_round_rewards(project_id),
            r.1 == tally(old(self)@.disputes[project_id].votes),
            r.2@ == old(self)@.disputes[project_id].votes,
    {
        let taken = self.take_dispute(project_id);
        let mut dispute = match taken {
            Some(dispute) => dispute,
            None => unreached(),
        };
        let ghost before = dispute@;
        let entries = ballots_entries(&dispute.votes);
        let round_ruling = count_votes(&entries);
        let events = self.award_jury_fees_for_round(project_id, dispute.round, round_ruling, &dispute.votes);
        dispute.ruling = Some(round_ruling);
        dispute.status = DisputeStatus::Appealable;
        dispute.start_block = now;
        proof {
            if old(self)@.wf() {
                assert(old(self)@.disputes[project_id].wf());
                lemma_wf_same_votes(before, dispute@);
            }
        }
        self.put_dispute(project_id, dispute);
        proof {
            let target = old(self)@.finalize_round(project_id, now);
            assert(self@.finances =~= target.finances);
            assert(self@.disputes =~= target.disputes);
        }
        (events, round_ruling, entries)
    }

    /// Counts the votes of a round whose voting period is over: a tie goes to the
    /// freelancer. Every juror that voted is credited with its fee, and with its bonus
    /// where it voted with the ruling; the ruling can then be appealed.
    pub fn close_round(&mut self, origin: Origin, project_id: ProjectId, now: BlockNumber) -> (r: Result<
        Vec<RuntimeEvent>,
        DispatchError,
    >)
        ensures
            old(self)@.wf() ==> final(self)@.wf(),
            match r {
                Ok(events) => old(self)@.finalize_round_error(origin, project_id, now) is None
                    && final(self)@ == old(self)@.finalize_round(project_id, now) && events@ == old(self)@.finalize_round_rewards(project_id) + seq![
                    RuntimeEvent::Arbitration(
                        Event::RoundFinalized {
                            project_id,
                            ruling: tally(old(self)@.disputes[project_id].votes),
                        },
                    ),
                ],
                Err(e) => old(self)@.finalize_round_error(origin, project_id, now) == Some(e)
                    && final(self)@ == old(self)@,
            },
    {
        match self.check_finalize_round(origin, project_id, now) {
            Ok(_) => {},
            Err(e) => {
                return Err(e);
            },
        }
        let (mut events, ruling, _) = self.apply_finalize_round(project_id, now);
        events.push(RuntimeEvent::Arbitration(Event::RoundFinalized { project_id, ruling }));
        Ok(events)
    }
}

} // verus!
