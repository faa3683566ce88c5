//! The settlement of a dispute: every bond goes back to a winner or is slashed into
//! the account of the arbitration, the loser pays what the slashed bonds do not cover
//! of the cost, the jurors are paid, and the financial records are cleared.

use vstd::prelude::*;
use crate::arbitration::model::{deadline, loser_of, winner_of};
use crate::arbitration::{
    ArbitrationView, DisputeStatus, Error, Event, FinancesView, JurorReward, Pallet, Ruling,
};
use crate::ledger::{min_balance, Ledger, LedgerView};
use crate::primitives::{ensure_signed, spec_ensure_signed, AccountId, Balance, BlockNumber, Origin, ProjectId};
use crate::{DispatchError, RuntimeEvent};

verus! {

/// What of a bond is slashed: as much of it as its appellant has reserved, and
/// nothing of the bond of a winner or where there is no bond.
pub open spec fn slashed_of(ledger: LedgerView, bond: Option<(AccountId, Balance)>, winner: AccountId) -> Balance {
    match bond {
        Some((appellant, amount)) => if appellant == winner {
            0
        } else {
            min_balance(amount, ledger.reserved(appellant))
        },
        None => 0,
    }
}

/// The ledger after one bond was disposed of: freed for a winner, and otherwise
/// slashed and minted into the account of the arbitration.
pub open spec fn bond_settled(
    ledger: LedgerView,
    pallet_account: AccountId,
    bond: Option<(AccountId, Balance)>,
    winner: AccountId,
) -> LedgerView {
    match bond {
        Some((appellant, amount)) => if appellant == winner {
            ledger.unreserve(appellant, amount)
        } else {
            ledger.slash_reserved(appellant, amount).deposit(
                pallet_account,
                slashed_of(ledger, bond, winner),
            )
        },
        None => ledger,
    }
}

/// What the disposal of one bond reports: the return of the bond of a winner.
pub open spec fn bond_events(project_id: ProjectId, bond: Option<(AccountId, Balance)>, winner: AccountId) -> Seq<
    RuntimeEvent,
> {
    match bond {
        Some((appellant, amount)) => if appellant == winner {
            seq![RuntimeEvent::Arbitration(Event::AppealBondReturned { project_id, appellant, amount })]
        } else {
            Seq::empty()
        },
        None => Seq::empty(),
    }
}

/// The ledger after the jurors from place `from` on were paid out of the account of
/// the arbitration, one after the other; `None` where the account cannot pay one of
/// them. A juror that has earned nothing is passed over.
pub open spec fn rewards_paid(
    ledger: LedgerView,
    pallet_account: AccountId,
    rewards: Seq<JurorReward>,
    from: int,
) -> Option<LedgerView>
    decreases rewards.len() - from,
{
    if from < 0 || from >= rewards.len() {
        Some(ledger)
    } else if rewards[from].amount == 0 {
        rewards_paid(ledger, pallet_account, rewards, from + 1)
    } else if !ledger.can_withdraw(pallet_account, rewards[from].amount) {
        None
    } else {
        rewards_paid(
            ledger.transfer(pallet_account, rewards[from].juror, rewards[from].amount),
            pallet_account,
            rewards,
            from + 1,
        )
    }
}

/// What the payment of the jurors from place `from` on reports.
pub open spec fn rewards_paid_events(project_id: ProjectId, rewards: Seq<JurorReward>, from: int) -> Seq<
    RuntimeEvent,
>
    decreases rewards.len() - from,
{
    if from < 0 || from >= rewards.len() {
        Seq::empty()
    } else if rewards[from].amount == 0 {
        rewards_paid_events(project_id, rewards, from + 1)
    } else {
        seq![
            RuntimeEvent::Arbitration(
                Event::JurorRewarded { project_id, juror: rewards[from].juror, amount: rewards[from].amount },
            ),
        ] + rewards_paid_events(project_id, rewards, from + 1)
    }
}

/// Everything that the jurors from place `from` on have earned.
pub open spec fn rewards_total(rewards: Seq<JurorReward>, from: int) -> int
    decreases rewards.len() - from,
{
    if from < 0 || from >= rewards.len() {
        0
    } else {
        rewards[from].amount + rewards_total(rewards, from + 1)
    }
}

/// Whether an account has nothing to do with a bond.
pub open spec fn stranger_to(who: AccountId, bond: Option<(AccountId, Balance)>) -> bool {
    match bond {
        Some((appellant, _)) => appellant != who,
        None => true,
    }
}

impl FinancesView {
    /// Whether an account stands outside a dispute: it is neither of the parties, has
    /// posted no bond and earned no reward.
    pub open spec fn outsider(self, who: AccountId, winner: AccountId, loser: AccountId) -> bool {
        &&& who != winner
        &&& who != loser
        &&& stranger_to(who, self.bond_round_1)
        &&& stranger_to(who, self.bond_round_2)
        &&& stranger_to(who, self.bond_round_3)
        &&& forall|i: int| 0 <= i < self.juror_rewards.len() ==> self.juror_rewards[i].juror != who
    }

    /// What the loser pays of the cost: the shortfall if it can, and nothing if it
    /// cannot.
    pub open spec fn paid_by_loser(
        self,
        ledger: LedgerView,
        pallet_account: AccountId,
        winner: AccountId,
        loser: AccountId,
    ) -> Balance {
        if self.loser_pays(ledger, pallet_account, winner, loser) {
            self.shortfall(ledger, pallet_account, winner)
        } else {
            0
        }
    }

    /// The ledger after the bond of the first round was disposed of.
    pub open spec fn after_bond_1(self, ledger: LedgerView, pallet_account: AccountId, winner: AccountId) -> LedgerView {
        bond_settled(ledger, pallet_account, self.bond_round_1, winner)
    }

    /// The ledger after the bonds of the first two rounds were disposed of.
    pub open spec fn after_bond_2(self, ledger: LedgerView, pallet_account: AccountId, winner: AccountId) -> LedgerView {
        bond_settled(
            self.after_bond_1(ledger, pallet_account, winner),
            pallet_account,
            self.bond_round_2,
            winner,
        )
    }

    /// The ledger after every bond was disposed of, round by round.
    pub open spec fn after_bonds(self, ledger: LedgerView, pallet_account: AccountId, winner: AccountId) -> LedgerView {
        bond_settled(
            self.after_bond_2(ledger, pallet_account, winner),
            pallet_account,
            self.bond_round_3,
            winner,
        )
    }

    /// Everything that was slashed of the bonds.
    pub open spec fn total_slashed(self, ledger: LedgerView, pallet_account: AccountId, winner: AccountId) -> Balance {
        slashed_of(ledger, self.bond_round_1, winner).saturating_add(
            slashed_of(self.after_bond_1(ledger, pallet_account, winner), self.bond_round_2, winner),
        ).saturating_add(
            slashed_of(self.after_bond_2(ledger, pallet_account, winner), self.bond_round_3, winner),
        )
    }

    /// What of the cost the slashed bonds do not cover.
    pub open spec fn shortfall(self, ledger: LedgerView, pallet_account: AccountId, winner: AccountId) -> Balance {
        self.arbitration_cost.saturating_sub(self.total_slashed(ledger, pallet_account, winner))
    }

    /// Whether the loser pays the shortfall: there is one, and the loser can give it
    /// up.
    pub open spec fn loser_pays(
        self,
        ledger: LedgerView,
        pallet_account: AccountId,
        winner: AccountId,
        loser: AccountId,
    ) -> bool {
        self.shortfall(ledger, pallet_account, winner) > 0 && self.after_bonds(
            ledger,
            pallet_account,
            winner,
        ).can_withdraw(loser, self.shortfall(ledger, pallet_account, winner))
    }

    /// The ledger after the bonds were disposed of and the cost was collected: the
    /// loser pays the shortfall if it can, and nothing if it cannot.
    pub open spec fn after_costs(
        self,
        ledger: LedgerView,
        pallet_account: AccountId,
        winner: AccountId,
        loser: AccountId,
    ) -> LedgerView {
        if self.loser_pays(ledger, pallet_account, winner, loser) {
            self.after_bonds(ledger, pallet_account, winner).transfer(
                loser,
                pallet_account,
                self.shortfall(ledger, pallet_account, winner),
            )
        } else {
            self.after_bonds(ledger, pallet_account, winner)
        }
    }

    /// What the collection of the cost reports: what the loser paid, or the whole cost
    /// where the slashed bonds cover it; nothing where the loser could not pay.
    pub open spec fn cost_events(
        self,
        ledger: LedgerView,
        project_id: ProjectId,
        pallet_account: AccountId,
        winner: AccountId,
        loser: AccountId,
    ) -> Seq<RuntimeEvent> {
        if self.shortfall(ledger, pallet_account, winner) > 0 {
            if self.loser_pays(ledger, pallet_account, winner, loser) {
                seq![
                    RuntimeEvent::Arbitration(
                        Event::ArbitrationCostsPaid {
                            project_id,
                            payer: loser,
                            amount: self.shortfall(ledger, pallet_account, winner),
                        },
                    ),
                ]
            } else {
                Seq::empty()
            }
        } else {
            seq![
                RuntimeEvent::Arbitration(
                    Event::ArbitrationCostsPaid { project_id, payer: loser, amount: self.arbitration_cost },
                ),
            ]
        }
    }

    /// The ledger after the whole settlement; `None` where the account of the
    /// arbitration cannot pay a juror.
    pub open spec fn settled(
        self,
        ledger: LedgerView,
        pallet_account: AccountId,
        winner: AccountId,
        loser: AccountId,
    ) -> Option<LedgerView> {
        rewards_paid(
            self.after_costs(ledger, pallet_account, winner, loser),
            pallet_account,
            self.juror_rewards,
            0,
        )
    }

    /// What the whole settlement reports.
    pub open spec fn settled_events(
        self,
        ledger: LedgerView,
        project_id: ProjectId,
        pallet_account: AccountId,
        winner: AccountId,
        loser: AccountId,
    ) -> Seq<RuntimeEvent> {
        bond_events(project_id, self.bond_round_1, winner) + bond_events(
            project_id,
            self.bond_round_2,
            winner,
        ) + bond_events(project_id, self.bond_round_3, winner) + self.cost_events(
            ledger,
            project_id,
            pallet_account,
            winner,
            loser,
        ) + rewards_paid_events(project_id, self.juror_rewards, 0)
    }
}

impl ArbitrationView {
    /// The controller after the financial records of a dispute were cleared.
    pub open spec fn cleaned_up(self, project_id: ProjectId) -> ArbitrationView {
        ArbitrationView { finances: self.finances.remove(project_id), ..self }
    }

    /// Why the last ruling cannot be enforced, whatever the settlement brings, if it
    /// cannot: the ruling has to stand and its appeal period has to be over.
    pub open spec fn enforce_error_before_settlement(self, origin: Origin, project_id: ProjectId, now: BlockNumber) -> Option<
        DispatchError,
    > {
        match spec_ensure_signed(origin) {
            Err(e) => Some(e),
            Ok(_) => if !self.disputes.contains_key(project_id) {
                Some(DispatchError::Arbitration(Error::DisputeNotFound))
            } else if self.disputes[project_id].status != DisputeStatus::Appealable {
                Some(DispatchError::Arbitration(Error::InvalidStatus))
            } else if now < deadline(
                self.disputes[project_id].start_block,
                self.config.appeal_period,
            ) {
                Some(DispatchError::Arbitration(Error::AppealPeriodExpired))
            } else if self.disputes[project_id].ruling is None {
                Some(DispatchError::Arbitration(Error::InvalidStatus))
            } else {
                None
            },
        }
    }

    /// The party that the ruling of a dispute goes for.
    pub open spec fn winner(self, project_id: ProjectId, parties: (AccountId, AccountId)) -> AccountId {
        winner_of(self.disputes[project_id].ruling.unwrap(), parties.0, parties.1)
    }

    /// The party that the ruling of a dispute goes against.
    pub open spec fn loser(self, project_id: ProjectId, parties: (AccountId, AccountId)) -> AccountId {
        loser_of(self.disputes[project_id].ruling.unwrap(), parties.0, parties.1)
    }

    /// Why the last ruling cannot be enforced, if it cannot: as before the settlement,
    /// and the account of the arbitration has to be able to pay every juror.
    pub open spec fn enforce_final_ruling_error(
        self,
        ledger: LedgerView,
        origin: Origin,
        project_id: ProjectId,
        parties: (AccountId, AccountId),
        now: BlockNumber,
    ) -> Option<DispatchError> {
        match self.enforce_error_before_settlement(origin, project_id, now) {
            Some(e) => Some(e),
            None => if self.finances_of(project_id).settled(
                ledger,
                self.account_id(),
                self.winner(project_id, parties),
                self.loser(project_id, parties),
            ) is None {
                Some(DispatchError::Arbitration(Error::PaymentFailed))
            } else {
                None
            },
        }
    }

    /// The controller after the last ruling of a dispute was enforced.
    pub open spec fn enforce_final_ruling(self, project_id: ProjectId) -> ArbitrationView {
        self.cleaned_up(project_id).with_dispute(project_id, self.disputes[project_id].finalized())
    }

    /// What the end of a dispute reports after its settlement.
    pub open spec fn resolved_events(project_id: ProjectId, winner: AccountId) -> Seq<RuntimeEvent> {
        seq![
            RuntimeEvent::Arbitration(Event::DisputeResolved { project_id, winner }),
            RuntimeEvent::Arbitration(Event::PayoutCompleted { project_id }),
        ]
    }
}

/// Disposes of one bond.
fn settle_bond(
    ledger: &mut Ledger,
    events: &mut Vec<RuntimeEvent>,
    project_id: ProjectId,
    pallet_account: AccountId,
    bond: Option<(AccountId, Balance)>,
    winner: AccountId,
) -> (slashed: Balance)
    requires
        old(ledger).wf(),
    ensures
        final(ledger).wf(),
        final(ledger)@ == bond_settled(old(ledger)@, pallet_account, bond, winner),
        final(ledger)@.total == old(ledger)@.total,
        slashed == slashed_of(old(ledger)@, bond, winner),
        final(events)@ == old(events)@ + bond_events(project_id, bond, winner),
        stranger_to(pallet_account, bond) ==> final(ledger)@.free(pallet_account) == old(ledger)@.free(pallet_account) + slashed,
{
    proof {
        ledger.lemma_view(pallet_account);
    }
    match bond {
        Some((appellant, bond_amount)) => {
            if appellant == winner {
                proof {
                    ledger.lemma_view(appellant);
                }
                ledger.unreserve(appellant, bond_amount);
                events.push(
                    RuntimeEvent::Arbitration(
                        Event::AppealBondReturned { project_id, appellant, amount: bond_amount },
                    ),
                );
                0
            } else {
                proof {
                    ledger.lemma_view(appellant);
                }
                let slashed = ledger.slash_reserved(appellant, bond_amount);
                proof {
                    ledger.lemma_view(pallet_account);
                }
                ledger.deposit_creating(pallet_account, slashed);
                assert(events@ =~= old(events)@ + bond_events(project_id, bond, winner));
                slashed
            }
        },
        None => {
            assert(events@ =~= old(events)@ + bond_events(project_id, bond, winner));
            0
        },
    }
}

/// Pays the jurors out of the account of the arbitration, one after the other.
fn pay_all_jury_rewards(
    ledger: &mut Ledger,
    events: &mut Vec<RuntimeEvent>,
    project_id: ProjectId,
    pallet_account: AccountId,
    rewards: &Vec<JurorReward>,
) -> (r: Result<(), DispatchError>)
    requires
        old(ledger).wf(),
    ensures
        final(ledger).wf(),
        final(ledger)@.total == old(ledger)@.total,
        match r {
            Ok(_) => rewards_paid(old(ledger)@, pallet_account, rewards@, 0) == Some(final(ledger)@)
                && final(events)@ == old(events)@ + rewards_paid_events(project_id, rewards@, 0),
            Err(e) => rewards_paid(old(ledger)@, pallet_account, rewards@, 0) is None && e
                == DispatchError::Arbitration(Error::PaymentFailed),
        },
        r is Ok && (forall|k: int| 0 <= k < rewards@.len() ==> rewards@[k].juror != pallet_account)
            ==> final(ledger)@.free(pallet_account) == old(ledger)@.free(pallet_account)
            - rewards_total(rewards@, 0),
{
    let mut i: usize = 0;
    while i < rewards.len()
        invariant
            i <= rewards@.len(),
            ledger.wf(),
            ledger@.total == old(ledger)@.total,
            (forall|k: int| 0 <= k < rewards@.len() ==> rewards@[k].juror != pallet_account)
                ==> ledger@.free(pallet_account) - rewards_total(rewards@, i as int) == old(ledger)@.free(pallet_account) - rewards_total(rewards@, 0),
            rewards_paid(ledger@, pallet_account, rewards@, i as int) == rewards_paid(
                old(ledger)@,
                pallet_account,
                rewards@,
                0,
            ),
            events@ + rewards_paid_events(project_id, rewards@, i as int) == old(events)@
                + rewards_paid_events(project_id, rewards@, 0),
        decreases rewards@.len() - i,
    {
        let reward = rewards[i];
        proof {
            ledger.lemma_view(pallet_account);
        }
        if reward.amount != 0 {
            let ghost before = events@;
            match ledger.transfer(pallet_account, reward.juror, reward.amount) {
                Ok(_) => {},
                Err(_) => {
                    return Err(DispatchError::Arbitration(Error::PaymentFailed));
                },
            }
            events.push(
                RuntimeEvent::Arbitration(
                    Event::JurorRewarded { project_id, juror: reward.juror, amount: reward.amount },
                ),
            );
            assert(events@ + rewards_paid_events(project_id, rewards@, i as int + 1) =~= before
                + rewards_paid_events(project_id, rewards@, i as int));
        }
        i += 1;
    }
    assert(events@ + rewards_paid_events(project_id, rewards@, i as int) =~= events@);
    Ok(())
}

impl Pallet {
    /// Checks everything about the enforcement of a ruling that does not depend on
    /// the settlement, and says who wins and who loses.
    pub(crate) fn check_enforce(&self, origin: Origin, project_id: ProjectId, parties: (AccountId, AccountId), now: BlockNumber) -> (r:
        Result<(AccountId, AccountId, Ruling), DispatchError>)
        ensures
            match r {
                Ok(roles) => self@.enforce_error_before_settlement(origin, project_id, now) is None
                    && roles.0 == self@.winner(project_id, parties) && roles.1 == self@.loser(
                    project_id,
                    parties,
                ) && self@.disputes[project_id].ruling == Some(roles.2),
                Err(e) => self@.enforce_error_before_settlement(origin, project_id, now) == Some(e),
            },
    {
        match ensure_signed(origin) {
            Ok(_) => {},
            Err(e) => {
                return Err(e);
            },
        }
        let dispute = match self.disputes(project_id) {
            Some(dispute) => dispute,
            None => {
                return Err(DispatchError::Arbitration(Error::DisputeNotFound));
            },
        };
        if dispute.status != DisputeStatus::Appealable {
            return Err(DispatchError::Arbitration(Error::InvalidStatus));
        }
        if !(now >= dispute.start_block.saturating_add(self.config.appeal_period)) {
            return Err(DispatchError::Arbitration(Error::AppealPeriodExpired));
        }
        let (client, freelancer) = parties;
        let final_ruling = match dispute.ruling {
            Some(ruling) => ruling,
            None => {
                return Err(DispatchError::Arbitration(Error::InvalidStatus));
            },
        };
        let (winner, loser) = match final_ruling {
            Ruling::ClientWins => (client, freelancer),
            Ruling::FreelancerWins => (freelancer, client),
        };
        Ok((winner, loser, final_ruling))
    }

    /// Moves the value of a settlement on a ledger, and leaves the records as they
    /// are: the bonds, the cost, the rewards. Where a juror cannot be paid, the ledger
    /// is handed back in a state that the caller has to drop.
    pub(crate) fn settle_on(&self, ledger: &mut Ledger, project_id: ProjectId, winner: AccountId, loser: AccountId) -> (r:
        Result<Vec<RuntimeEvent>, DispatchError>)
        requires
            old(ledger).wf(),
        ensures
            final(ledger).wf(),
            final(ledger)@.total == old(ledger)@.total,
            match r {
                Ok(events) => self@.finances_of(project_id).settled(
                    old(ledger)@,
                    self@.account_id(),
                    winner,
                    loser,
                ) == Some(final(ledger)@) && events@ == self@.finances_of(project_id).settled_events(
                    old(ledger)@,
                    project_id,
                    self@.account_id(),
                    winner,
                    loser,
                ),
                Err(e) => self@.finances_of(project_id).settled(
                    old(ledger)@,
                    self@.account_id(),
                    winner,
                    loser,
                ) is None && e == DispatchError::Arbitration(Error::PaymentFailed),
            },
            r is Ok && self@.finances_of(project_id).outsider(self@.account_id(), winner, loser)
                ==> final(ledger)@.free(self@.account_id()) == old(ledger)@.free(self@.account_id())
                + self@.finances_of(project_id).total_slashed(
                old(ledger)@,
                self@.account_id(),
                winner,
            ) + self@.finances_of(project_id).paid_by_loser(
                old(ledger)@,
                self@.account_id(),
                winner,
                loser,
            ) - rewards_total(self@.finances_of(project_id).juror_rewards, 0),
    {
        let pallet_account = self.account_id();
        let mut events: Vec<RuntimeEvent> = Vec::new();
        let finances = match self.finances.get(&project_id) {
            Some(finances) => finances,
            None => {
                events.push(
                    RuntimeEvent::Arbitration(
                        Event::ArbitrationCostsPaid { project_id, payer: loser, amount: 0 },
                    ),
                );
                proof {
                    let f = self@.finances_of(project_id);
                    assert(f == FinancesView::empty());
                    assert(f.settled_events(
                        old(ledger)@,
                        project_id,
                        self@.account_id(),
                        winner,
                        loser,
                    ) =~= events@);
                }
                return Ok(events);
            },
        };
        let ghost f = finances@;
        assert(f == self@.finances_of(project_id));
        let ghost start = ledger@;
        let first = settle_bond(ledger, &mut events, project_id, pallet_account, finances.bond_round_1, winner);
        let second = settle_bond(ledger, &mut events, project_id, pallet_account, finances.bond_round_2, winner);
        let third = settle_bond(ledger, &mut events, project_id, pallet_account, finances.bond_round_3, winner);
        let total_slashed_funds = first.saturating_add(second).saturating_add(third);
        let total_arbitration_costs = finances.arbitration_cost;
        proof {
            ledger.lemma_view(pallet_account);
            if loser != pallet_account {
                ledger.lemma_two_within_total(loser, pallet_account);
            }
        }
        if total_arbitration_costs > total_slashed_funds {
            let remaining_costs = total_arbitration_costs.saturating_sub(total_slashed_funds);
            if ledger.transfer(loser, pallet_account, remaining_costs).is_ok() {
                events.push(
                    RuntimeEvent::Arbitration(
                        Event::ArbitrationCostsPaid { project_id, payer: loser, amount: remaining_costs },
                    ),
                );
            }
        } else {
            events.push(
                RuntimeEvent::Arbitration(
                    Event::ArbitrationCostsPaid { project_id, payer: loser, amount: total_arbitration_costs },
                ),
            );
        }
        assert(ledger@ == f.after_costs(start, pallet_account, winner, loser));
        assert(events@ =~= bond_events(project_id, f.bond_round_1, winner) + bond_events(
            project_id,
            f.bond_round_2,
            winner,
        ) + bond_events(project_id, f.bond_round_3, winner) + f.cost_events(
            start,
            project_id,
            pallet_account,
            winner,
            loser,
        ));
        match pay_all_jury_rewards(ledger, &mut events, project_id, pallet_account, &finances.juror_rewards) {
            Ok(_) => {},
            Err(e) => {
                return Err(e);
            },
        }
        Ok(events)
    }

    /// Clears the financial records of a dispute.
    pub(crate) fn cleanup_arbitration_storage(&mut self, project_id: ProjectId)
        ensures
            final(self)@ == old(self)@.cleaned_up(project_id),
    {
        self.finances.remove(&project_id);
        assert(self@.finances =~= old(self)@.finances.remove(project_id));
    }

    /// Settles a dispute between a winner and a loser: frees the bonds of the winner,
    /// slashes every other bond into the account of the arbitration, lets the loser
    /// pay what the slashed bonds do not cover of the cost as far as it can, pays the
    /// jurors, and clears the financial records. Where a juror cannot be paid, nothing
    /// is changed. No value is made or lost, and the account of the arbitration, where
    /// it stands outside the dispute, ends with what it had, what was slashed and what
    /// the loser paid, less what the jurors earned.
    pub fn complete_arbitration_payouts(
        &mut self,
        ledger: &mut Ledger,
        project_id: ProjectId,
        winner: AccountId,
        loser: AccountId,
    ) -> (r: Result<Vec<RuntimeEvent>, DispatchError>)
        requires
            old(ledger).wf(),
        ensures
            final(ledger).wf(),
            final(ledger)@.total == old(ledger)@.total,
            r is Ok && old(self)@.finances_of(project_id).outsider(
                old(self)@.account_id(),
                winner,
                loser,
            ) ==> final(ledger)@.free(old(self)@.account_id()) == old(ledger)@.free(
                old(self)@.account_id(),
            ) + old(self)@.finances_of(project_id).total_slashed(
                old(ledger)@,
                old(self)@.account_id(),
                winner,
            ) + old(self)@.finances_of(project_id).paid_by_loser(
                old(ledger)@,
                old(self)@.account_id(),
                winner,
                loser,
            ) - rewards_total(old(self)@.finances_of(project_id).juror_rewards, 0),
            match r {
                Ok(events) => old(self)@.finances_of(project_id).settled(
                    old(ledger)@,
                    old(self)@.account_id(),
                    winner,
                    loser,
                ) == Some(final(ledger)@) && final(self)@ == old(self)@.cleaned_up(project_id)
                    && events@ == old(self)@.finances_of(project_id).settled_events(
                    old(ledger)@,
                    project_id,
                    old(self)@.account_id(),
                    winner,
                    loser,
                ),
                Err(e) => old(self)@.finances_of(project_id).settled(
                    old(ledger)@,
                    old(self)@.account_id(),
                    winner,
                    loser,
                ) is None && e == DispatchError::Arbitration(Error::PaymentFailed) && final(self)@
                    == old(self)@ && final(ledger)@ == old(ledger)@,
            },
    {
        let mut scratch = ledger.snapshot();
        match self.settle_on(&mut scratch, project_id, winner, loser) {
            Ok(events) => {
                *ledger = scratch;
                self.cleanup_arbitration_storage(project_id);
                Ok(events)
            },
            Err(e) => Err(e),
        }
    }

    /// Enforces the ruling that stands once its appeal period is over, for `parties`,
    /// the client and the freelancer of the project: settles the dispute between the
    /// winner and the loser, and finalizes it. No value is made or lost, and the
    /// account of the arbitration, where it stands outside the dispute, ends with what
    /// it had, what was slashed and what the loser paid, less what the jurors earned.
    pub fn settle_dispute(
        &mut self,
        ledger: &mut Ledger,
        origin: Origin,
        project_id: ProjectId,
        parties: (AccountId, AccountId),
        now: BlockNumber,
    ) -> (r: Result<Vec<RuntimeEvent>, DispatchError>)
        requires
            old(ledger).wf(),
        ensures
            final(ledger).wf(),
            final(ledger)@.total == old(ledger)@.total,
            old(self)@.wf() ==> final(self)@.wf(),
            r is Ok && old(self)@.finances_of(project_id).outsider(
                old(self)@.account_id(),
                old(self)@.winner(project_id, parties),
                old(self)@.loser(project_id, parties),
            ) ==> final(ledger)@.free(old(self)@.account_id()) == old(ledger)@.free(
                old(self)@.account_id(),
            ) + old(self)@.finances_of(project_id).total_slashed(
                old(ledger)@,
                old(self)@.account_id(),
                old(self)@.winner(project_id, parties),
            ) + old(self)@.finances_of(project_id).paid_by_loser(
                old(ledger)@,
                old(self)@.account_id(),
                old(self)@.winner(project_id, parties),
                old(self)@.loser(project_id, parties),
            ) - rewards_total(old(self)@.finances_of(project_id).juror_rewards, 0),
            match r {
                Ok(events) => old(self)@.enforce_final_ruling_error(
                    old(ledger)@,
                    origin,
                    project_id,
                    parties,
                    now,
                ) is None && old(self)@.finances_of(project_id).settled(
                    old(ledger)@,
                    old(self)@.account_id(),
                    old(self)@.winner(project_id, parties),
                    old(self)@.loser(project_id, parties),
                ) == Some(final(ledger)@) && final(self)@ == old(self)@.enforce_final_ruling(
                    project_id,
                ) && events@ == old(self)@.finances_of(project_id).settled_events(
                    old(ledger)@,
                    project_id,
                    old(self)@.account_id(),
                    old(self)@.winner(project_id, parties),
                    old(self)@.loser(project_id, parties),
                ) + ArbitrationView::resolved_events(
                    project_id,
                    old(self)@.winner(project_id, parties),
                ),
                Err(e) => old(self)@.enforce_final_ruling_error(
                    old(ledger)@,
                    origin,
                    project_id,
                    parties,
                    now,
                ) == Some(e) && final(self)@ == old(self)@ && final(ledger)@ == old(ledger)@,
            },
    {
        let (winner, loser, _) = match self.check_enforce(origin, project_id, parties, now) {
            Ok(roles) => roles,
            Err(e) => {
                return Err(e);
            },
        };
        let mut events = match self.complete_arbitration_payouts(ledger, project_id, winner, loser) {
            Ok(events) => events,
            Err(e) => {
                return Err(e);
            },
        };
        self.finalize_dispute(project_id);
        assert(self@ == old(self)@.enforce_final_ruling(project_id)) by {
            assert(self@.disputes =~= old(self)@.enforce_final_ruling(project_id).disputes);
        }
        events.push(RuntimeEvent::Arbitration(Event::DisputeResolved { project_id, winner }));
        events.push(RuntimeEvent::Arbitration(Event::PayoutCompleted { project_id }));
        Ok(events)
    }

    /// Marks a dispute whose ruling was enforced as finalized.
    pub(crate) fn finalize_dispute(&mut self, project_id: ProjectId)
        requires
            old(self)@.disputes.contains_key(project_id),
            old(self)@.disputes[project_id].status == DisputeStatus::Appealable,
            old(self)@.disputes[project_id].ruling is Some,
        ensures
            old(self)@.wf() ==> final(self)@.wf(),
            final(self)@ == old(self)@.with_dispute(
                project_id,
                old(self)@.disputes[project_id].finalized(),
            ),
    {
        let taken = self.take_dispute(project_id);
        let mut dispute = match taken {
            Some(dispute) => dispute,
            None => unreached(),
        };
        let ghost before = dispute@;
        dispute.status = DisputeStatus::Finalized;
        proof {
            if old(self)@.wf() {
                assert(old(self)@.disputes[project_id].wf());
                crate::arbitration::model::lemma_wf_same_votes(before, dispute@);
            }
        }
        self.put_dispute(project_id, dispute);
        assert(self@.disputes =~= old(self)@.disputes.insert(
            project_id,
            old(self)@.disputes[project_id].finalized(),
        ));
    }
}

} // verus!
