//! What holds of every dispute, whatever its history.

use vstd::prelude::*;
use vstd::seq_lib::seq_to_set_is_finite;
use vstd::set_lib::lemma_len_subset;
use crate::arbitration::model::{has_marked_seat, loser_of, tally, votes_for};
use crate::arbitration::schedule::MAX_ROUND;
use crate::arbitration::{
    seat_is, ArbitrationView, DisputeStatus, DisputeView, Error, FinancesView, Ruling, Vote,
};
use crate::bounded::{ascending, ballots_take, has_voted, vote_of, with_vote, MAX_ACCOUNTS};
use crate::ledger::LedgerView;
use crate::primitives::{spec_ensure_signed, AccountId, Balance, BlockNumber, Origin, ProjectId};
use crate::reputation::interface::ReputationInterface;
use crate::seqs::{first, lemma_first, lemma_first_is_first};
use crate::DispatchError;

verus! {

/// The jurors that have voted, in the order of their votes.
pub open spec fn voters(cast: Seq<(AccountId, Vote)>) -> Seq<AccountId> {
    Seq::new(cast.len(), |i: int| cast[i].0)
}

/// The jurors that sit on a jury, in the order of their seats.
pub open spec fn seated(jurors: Seq<(AccountId, bool)>) -> Seq<AccountId> {
    Seq::new(jurors.len(), |j: int| jurors[j].0)
}

/// A dispute never holds more votes than its jury has seats.
pub proof fn lemma_votes_within_jury(dispute: DisputeView)
    requires
        dispute.wf(),
    ensures
        dispute.votes.len() <= dispute.jurors.len(),
{
    let v = voters(dispute.votes);
    let s = seated(dispute.jurors);
    assert(v.no_duplicates()) by {
        assert forall|i: int, j: int| 0 <= i < v.len() && 0 <= j < v.len() && i != j implies v[i]
            != v[j] by {
            if i < j {
                assert(dispute.votes[i].0 < dispute.votes[j].0);
            } else {
                assert(dispute.votes[j].0 < dispute.votes[i].0);
            }
        }
    }
    v.unique_seq_to_set();
    s.lemma_cardinality_of_set();
    seq_to_set_is_finite(s);
    assert(v.to_set().subset_of(s.to_set())) by {
        assert forall|who: AccountId| v.to_set().contains(who) implies s.to_set().contains(who) by {
            let i = choose|i: int| 0 <= i < v.len() && v[i] == who;
            assert(has_marked_seat(dispute.jurors, dispute.votes[i].0));
            let j = choose|j: int| 0 <= j < dispute.jurors.len() && dispute.jurors[j] == (who, true);
            assert(s[j] == who);
        }
    }
    lemma_len_subset(v.to_set(), s.to_set());
}

/// A juror whose seat is not marked and who has not voted finds room for its vote: the
/// votes of a round never fill the ballots before every juror has voted.
pub proof fn lemma_room_for_every_juror(dispute: DisputeView, juror: AccountId)
    requires
        dispute.wf(),
        dispute.seat_of(juror) is Some,
    ensures
        ballots_take(dispute.votes, juror),
{
    if !has_voted(dispute.votes, juror) {
        let v = voters(dispute.votes);
        let s = seated(dispute.jurors);
        lemma_first_is_first(dispute.jurors, seat_is(juror));
        let k = dispute.seat_of(juror).unwrap();
        assert(s[k] == juror);
        assert(v.no_duplicates()) by {
            assert forall|i: int, j: int| 0 <= i < v.len() && 0 <= j < v.len() && i != j implies v[i]
                != v[j] by {
                if i < j {
                    assert(dispute.votes[i].0 < dispute.votes[j].0);
                } else {
                    assert(dispute.votes[j].0 < dispute.votes[i].0);
                }
            }
        }
        v.unique_seq_to_set();
        s.lemma_cardinality_of_set();
        seq_to_set_is_finite(s);
        let others = s.to_set().remove(juror);
        assert(v.to_set().subset_of(others)) by {
            assert forall|who: AccountId| v.to_set().contains(who) implies others.contains(who) by {
                let i = choose|i: int| 0 <= i < v.len() && v[i] == who;
                assert(dispute.votes[i].0 == who);
                assert(has_marked_seat(dispute.jurors, dispute.votes[i].0));
                let j = choose|j: int|
                    0 <= j < dispute.jurors.len() && dispute.jurors[j] == (who, true);
                assert(s[j] == who);
            }
        }
        assert(s.to_set().contains(juror));
        lemma_len_subset(v.to_set(), others);
    }
}

/// A juror votes once: after its vote is cast, a second vote of the same juror is
/// refused as already cast, and the vote that stands is the first.
pub proof fn lemma_second_vote_refused(dispute: DisputeView, juror: AccountId, vote: Vote)
    requires
        dispute.wf(),
        dispute.cast_vote_error(juror) is None,
    ensures
        dispute.cast_vote(juror, vote).cast_vote_error(juror) == Some(Error::AlreadyVoted),
        vote_of(dispute.cast_vote(juror, vote).votes, juror) == Some(vote),
{
    let after = dispute.cast_vote(juror, vote);
    lemma_first_is_first(dispute.jurors, seat_is(juror));
    let k = dispute.seat_of(juror).unwrap();
    assert(crate::seqs::is_first(after.jurors, seat_is(juror), k)) by {
        assert forall|i: int| 0 <= i < k implies !seat_is(juror)(after.jurors[i]) by {
            assert(after.jurors[i] == dispute.jurors[i]);
        }
    }
    lemma_first(after.jurors, seat_is(juror), k);
    crate::arbitration::model::lemma_with_vote(dispute.votes, juror, vote);
    let next = after.votes;
    let p = crate::bounded::place_of(next, juror);
    assert(next[p].0 == juror);
    if has_voted(dispute.votes, juror) {
        let q = crate::bounded::place_of(dispute.votes, juror);
        if p != q {
            assert(next[q].0 == juror);
            if p < q {
                assert(next[p].0 < next[q].0);
            } else {
                assert(next[q].0 < next[p].0);
            }
        }
    } else {
        let q = crate::bounded::lower_bound(dispute.votes, juror);
        crate::arbitration::model::lemma_lower_bound(dispute.votes, juror);
        if p != q {
            assert(next[q].0 == juror);
            if p < q {
                assert(next[p].0 < next[q].0);
            } else {
                assert(next[q].0 < next[p].0);
            }
        }
    }
}

/// A tie goes to the freelancer: votes that are for the client as often as for the
/// freelancer amount to a ruling for the freelancer.
pub proof fn lemma_tie_goes_to_freelancer(cast: Seq<(AccountId, Vote)>)
    requires
        votes_for(cast, Vote::ForClient) == votes_for(cast, Vote::ForFreelancer),
    ensures
        tally(cast) == Ruling::FreelancerWins,
{
}

/// The client wins a vote only with more votes than the freelancer.
pub proof fn lemma_client_needs_majority(cast: Seq<(AccountId, Vote)>)
    ensures
        tally(cast) == Ruling::ClientWins <==> votes_for(cast, Vote::ForClient) > votes_for(
            cast,
            Vote::ForFreelancer,
        ),
{
}

/// There is no fourth round: the appeal of the party that lost the third round, in
/// time and in order, is refused because no appeal is left, whatever the project, the
/// ledger and the jury.
pub proof fn lemma_no_fourth_round(
    controller: ArbitrationView,
    ledger: LedgerView,
    origin: Origin,
    project_id: ProjectId,
    parties: (AccountId, AccountId),
    budget: Balance,
    jurors: Seq<AccountId>,
    now: BlockNumber,
)
    requires
        spec_ensure_signed(origin) is Ok,
        controller.disputes.contains_key(project_id),
        controller.disputes[project_id].status == DisputeStatus::Appealable,
        controller.disputes[project_id].ruling is Some,
        controller.disputes[project_id].round >= MAX_ROUND,
        now < crate::arbitration::model::deadline(
            controller.disputes[project_id].start_block,
            controller.config.appeal_period,
        ),
        spec_ensure_signed(origin) == Ok::<AccountId, DispatchError>(
            loser_of(controller.disputes[project_id].ruling.unwrap(), parties.0, parties.1),
        ),
    ensures
        controller.appeal_ruling_error(ledger, origin, project_id, parties, budget, jurors, now)
            == Some(DispatchError::Arbitration(Error::MaxAppealsReached)),
{
}

/// No appeal, by whomever and for whatever reason it is refused or not, succeeds on a
/// dispute that is in its third round.
pub proof fn lemma_third_round_is_last(
    controller: ArbitrationView,
    ledger: LedgerView,
    origin: Origin,
    project_id: ProjectId,
    parties: (AccountId, AccountId),
    budget: Balance,
    jurors: Seq<AccountId>,
    now: BlockNumber,
)
    requires
        controller.disputes.contains_key(project_id),
        controller.disputes[project_id].round >= MAX_ROUND,
    ensures
        controller.appeal_ruling_error(ledger, origin, project_id, parties, budget, jurors, now)
            is Some,
{
}

/// No appeal succeeds on a dispute that is in its third round, whatever the project
/// escrow answers and whatever jury the registry selects.
pub proof fn lemma_third_round_is_last_for_every_answer<R: ReputationInterface>(
    controller: ArbitrationView,
    ledger: LedgerView,
    origin: Origin,
    project_id: ProjectId,
    parties: Result<(AccountId, AccountId), DispatchError>,
    budget: Result<Balance, DispatchError>,
    reputation: R,
    now: BlockNumber,
)
    requires
        controller.disputes.contains_key(project_id),
        controller.disputes[project_id].round >= MAX_ROUND,
    ensures
        controller.appeal_refusal(ledger, origin, project_id, parties, budget, reputation, now)
            is Some,
{
}

/// What the slashed bonds and the shortfall come to together covers the cost of the
/// arbitration, and is the cost exactly where there is a shortfall.
pub proof fn lemma_cost_is_covered(finances: FinancesView, ledger: LedgerView, pallet_account: AccountId, winner: AccountId)
    ensures
        finances.total_slashed(ledger, pallet_account, winner) + finances.shortfall(
            ledger,
            pallet_account,
            winner,
        ) >= finances.arbitration_cost,
        finances.shortfall(ledger, pallet_account, winner) > 0 ==> finances.total_slashed(
            ledger,
            pallet_account,
            winner,
        ) + finances.shortfall(ledger, pallet_account, winner) == finances.arbitration_cost,
{
}

/// Once the ruling of a dispute is enforced, nothing of the dispute is on the
/// financial records: no bond, no cost, no reward.
pub proof fn lemma_settled_records_are_cleared(controller: ArbitrationView, project_id: ProjectId, round: u32, juror: AccountId)
    requires
        controller.disputes.contains_key(project_id),
    ensures
        controller.enforce_final_ruling(project_id).appeal_bond_info(project_id, round) is None,
        controller.enforce_final_ruling(project_id).total_arbitration_costs(project_id) == 0,
        controller.enforce_final_ruling(project_id).jury_rewards_owed(project_id, juror) == 0,
        controller.enforce_final_ruling(project_id).disputes[project_id].status
            == DisputeStatus::Finalized,
{
}

/// The bond of a winner goes back to it in full where it is reserved in full: what
/// the winner has reserved shrinks by the bond, what it has free grows by it, and
/// nothing of it is slashed.
pub proof fn lemma_bond_of_winner_is_returned(
    ledger: LedgerView,
    pallet_account: AccountId,
    winner: AccountId,
    amount: Balance,
)
    requires
        ledger.funds.dom().contains(winner),
        ledger.reserved(winner) >= amount,
        ledger.free(winner) + amount <= Balance::MAX,
    ensures
        crate::arbitration::settlement::slashed_of(ledger, Some((winner, amount)), winner) == 0,
        crate::arbitration::settlement::bond_settled(
            ledger,
            pallet_account,
            Some((winner, amount)),
            winner,
        ).reserved(winner) == ledger.reserved(winner) - amount,
        crate::arbitration::settlement::bond_settled(
            ledger,
            pallet_account,
            Some((winner, amount)),
            winner,
        ).free(winner) == ledger.free(winner) + amount,
        crate::arbitration::settlement::bond_settled(
            ledger,
            pallet_account,
            Some((winner, amount)),
            winner,
        ).total == ledger.total,
{
}

/// The bond of a loser goes to the account of the arbitration in full where it is
/// reserved in full: what the loser has reserved shrinks by the bond, what the
/// account of the arbitration has free grows by it, and the total stays.
pub proof fn lemma_bond_of_loser_is_collected(
    ledger: LedgerView,
    pallet_account: AccountId,
    winner: AccountId,
    loser: AccountId,
    amount: Balance,
)
    requires
        loser != winner,
        loser != pallet_account,
        ledger.funds.dom().contains(loser),
        ledger.funds.dom().contains(pallet_account),
        ledger.reserved(loser) >= amount,
        ledger.total <= Balance::MAX,
        ledger.free(pallet_account) + amount <= Balance::MAX,
    ensures
        crate::arbitration::settlement::slashed_of(ledger, Some((loser, amount)), winner) == amount,
        crate::arbitration::settlement::bond_settled(
            ledger,
            pallet_account,
            Some((loser, amount)),
            winner,
        ).reserved(loser) == ledger.reserved(loser) - amount,
        crate::arbitration::settlement::bond_settled(
            ledger,
            pallet_account,
            Some((loser, amount)),
            winner,
        ).free(pallet_account) == ledger.free(pallet_account) + amount,
        crate::arbitration::settlement::bond_settled(
            ledger,
            pallet_account,
            Some((loser, amount)),
            winner,
        ).total == ledger.total,
{
}

/// The round of a dispute never falls: a ruling, a vote, the count of the votes and the
/// enforcement keep it, and an appeal raises it by one as long as it is below the
/// largest number.
pub proof fn lemma_round_never_falls(
    dispute: DisputeView,
    ruling: Ruling,
    juror: AccountId,
    vote: Vote,
    evidence: Seq<u8>,
    jurors: Seq<AccountId>,
    now: BlockNumber,
)
    ensures
        dispute.ruled(ruling, now).round == dispute.round,
        dispute.cast_vote(juror, vote).round == dispute.round,
        dispute.round_closed(now).round == dispute.round,
        dispute.finalized().round == dispute.round,
        dispute.appealed(evidence, jurors, now).round >= dispute.round,
        dispute.round < u32::MAX ==> dispute.appealed(evidence, jurors, now).round == dispute.round + 1,
{
}

} // verus!
