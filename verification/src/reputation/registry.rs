//! The juror registry: joining and leaving against a stake, the pools by tier, and
//! the move between pools that follows every change of an account's statistics.

use vstd::prelude::*;
use sp_runtime::Permill;
use crate::bounded::{
    account_list_get, account_list_items, account_list_len, account_list_swap_remove,
    account_list_try_push, AccountList, MAX_ACCOUNTS,
};
use crate::ledger::{Ledger, LedgerView};
use crate::permill::{permill_of, permill_parts, spec_permill_of, MILLION};
use crate::primitives::{ensure_signed, spec_ensure_signed, AccountId, Balance, Origin};
use crate::reputation::{Error, Event, JurorTier, Pallet, ReputationView};
use crate::{DispatchError, RuntimeEvent};

verus! {

/// Whether `i` is the first place at which `who` stands in a list.
pub open spec fn is_first_place(list: Seq<AccountId>, who: AccountId, i: int) -> bool {
    &&& 0 <= i < list.len()
    &&& list[i] == who
    &&& forall|k: int| 0 <= k < i ==> list[k] != who
}

/// The first place at which `who` stands in a list, if it stands in it.
pub open spec fn first_place(list: Seq<AccountId>, who: AccountId) -> Option<int> {
    if exists|i: int| is_first_place(list, who, i) {
        Some(choose|i: int| is_first_place(list, who, i))
    } else {
        None
    }
}

/// A list without the first standing of `who`: the last account takes its place.
pub open spec fn without_first(list: Seq<AccountId>, who: AccountId) -> Seq<AccountId> {
    match first_place(list, who) {
        Some(i) => list.update(i, list.last()).drop_last(),
        None => list,
    }
}

/// There is one first place: a place that is first is the one that `first_place`
/// names.
pub proof fn lemma_first_place(list: Seq<AccountId>, who: AccountId, i: int)
    requires
        is_first_place(list, who, i),
    ensures
        first_place(list, who) == Some(i),
{
    let j = choose|j: int| is_first_place(list, who, j);
    assert(is_first_place(list, who, j));
    if i < j {
        assert(list[i] != who);
    } else if j < i {
        assert(list[j] != who);
    }
}

/// An account that stands nowhere in a list has no first place in it.
pub proof fn lemma_no_place(list: Seq<AccountId>, who: AccountId)
    requires
        forall|k: int| 0 <= k < list.len() ==> list[k] != who,
    ensures
        first_place(list, who) is None,
{
}

impl ReputationView {
    /// The registry after `who` was taken out of the pool of a tier.
    pub open spec fn remove_from_tier_list(self, who: AccountId, tier: JurorTier) -> ReputationView {
        self.with_pool(tier, without_first(self.pool(tier), who))
    }

    /// Whether the pool of a tier has no room for one more juror.
    pub open spec fn pool_full(self, tier: JurorTier) -> bool {
        tier != JurorTier::Ineligible && self.pool(tier).len() >= MAX_ACCOUNTS
    }

    /// The registry after `who` was added to the pool of a tier that has room.
    pub open spec fn add_to_tier_list(self, who: AccountId, tier: JurorTier) -> ReputationView {
        self.with_pool(tier, self.pool(tier).push(who))
    }

    /// The registry after `who` lost its seat: out of the pool of its tier, out of the
    /// registry, without a tier.
    pub open spec fn remove_from_registry(self, who: AccountId) -> ReputationView {
        let out = self.remove_from_tier_list(who, self.tier(who));
        ReputationView {
            juror_registry: out.juror_registry.remove(who),
            juror_tiers: out.juror_tiers.remove(who),
            ..out
        }
    }

    /// Whether the tier of `who` has to change and the pool of its new tier is full.
    pub open spec fn tier_update_blocked(self, who: AccountId) -> bool {
        &&& self.opted_in(who)
        &&& self.tier(who) != self.earned_tier(who)
        &&& self.pool_full(self.earned_tier(who))
    }

    /// The registry after the tier of `who` was brought in line with its statistics.
    /// A juror that is no longer eligible leaves the registry.
    pub open spec fn update_juror_tier(self, who: AccountId) -> ReputationView {
        let earned = self.earned_tier(who);
        if !self.opted_in(who) || self.tier(who) == earned {
            self
        } else if earned == JurorTier::Ineligible {
            let out = self.remove_from_registry(who);
            ReputationView { stake_of: out.stake_of.remove(who), ..out }
        } else {
            let moved = self.remove_from_tier_list(who, self.tier(who)).add_to_tier_list(who, earned);
            ReputationView { juror_tiers: moved.juror_tiers.insert(who, earned), ..moved }
        }
    }

    /// The ledger after the tier of `who` was brought in line with its statistics: a
    /// juror that is no longer eligible gets its stake back.
    pub open spec fn update_juror_tier_ledger(self, ledger: LedgerView, who: AccountId) -> LedgerView {
        if self.opted_in(who) && self.tier(who) != self.earned_tier(who) && self.earned_tier(who)
            == JurorTier::Ineligible && self.stake_of.contains_key(who) {
            ledger.unreserve(who, self.stake_of[who])
        } else {
            ledger
        }
    }

    /// What the registry reports when it brings the tier of `who` in line.
    pub open spec fn update_juror_tier_events(self, who: AccountId) -> Seq<RuntimeEvent> {
        if !self.opted_in(who) || self.tier(who) == self.earned_tier(who) {
            Seq::empty()
        } else if self.earned_tier(who) == JurorTier::Ineligible {
            seq![RuntimeEvent::Reputation(Event::JurorAutomaticallyDeregistered { account: who })]
        } else {
            seq![RuntimeEvent::Reputation(Event::JurorTierUpdated { account: who })]
        }
    }

    /// Why an account cannot join the registry, if it cannot.
    pub open spec fn register_as_juror_error(self, ledger: LedgerView, who: AccountId) -> Option<
        DispatchError,
    > {
        if self.opted_in(who) {
            Some(DispatchError::Reputation(Error::AlreadyRegisteredAsJuror))
        } else if self.earned_tier(who) == JurorTier::Ineligible {
            Some(DispatchError::Reputation(Error::InsufficientTier))
        } else if !ledger.can_withdraw(who, self.juror_stake) {
            Some(DispatchError::Ledger(crate::primitives::LedgerError::InsufficientBalance))
        } else if self.pool_full(self.earned_tier(who)) {
            Some(DispatchError::Reputation(Error::JurorPoolFull))
        } else {
            None
        }
    }

    /// The registry after an account that can join has joined.
    pub open spec fn register_as_juror(self, who: AccountId) -> ReputationView {
        let tier = self.earned_tier(who);
        let staked = ReputationView {
            stake_of: self.stake_of.insert(who, self.juror_stake),
            juror_registry: self.juror_registry.insert(who, true),
            juror_tiers: self.juror_tiers.insert(who, tier),
            ..self
        };
        staked.add_to_tier_list(who, tier)
    }

    /// Why a juror cannot leave the registry, if it cannot.
    pub open spec fn deregister_as_juror_error(self, who: AccountId) -> Option<DispatchError> {
        if !self.opted_in(who) {
            Some(DispatchError::Reputation(Error::NotRegisteredAsJuror))
        } else if self.busy(who) {
            Some(DispatchError::Reputation(Error::Busy))
        } else if !self.stake_of.contains_key(who) {
            Some(DispatchError::Reputation(Error::NotRegisteredAsJuror))
        } else {
            None
        }
    }

    /// The registry after a juror that can leave has left.
    pub open spec fn deregister_as_juror(self, who: AccountId) -> ReputationView {
        let unstaked = ReputationView { stake_of: self.stake_of.remove(who), ..self };
        unstaked.remove_from_registry(who)
    }

    /// The parts per million that a slash takes: the configured ratio, held at a
    /// whole.
    pub open spec fn slash_parts(self) -> u32 {
        if permill_parts(self.slash_ratio) > MILLION {
            MILLION
        } else {
            permill_parts(self.slash_ratio)
        }
    }

    /// What one slash takes of the stake of a juror.
    pub open spec fn slash_amount(self, who: AccountId) -> Balance {
        spec_permill_of(self.slash_parts(), self.stake_of[who]) as Balance
    }

    /// Why a juror cannot be slashed, if it cannot.
    pub open spec fn slash_juror_error(self, who: AccountId) -> Option<DispatchError> {
        if !self.opted_in(who) || !self.stake_of.contains_key(who) {
            Some(DispatchError::Reputation(Error::NotRegisteredAsJuror))
        } else {
            None
        }
    }

    /// The registry after a juror was slashed: the stake shrinks by the slash, and a
    /// juror whose stake is used up leaves the registry.
    pub open spec fn slash_juror(self, who: AccountId) -> ReputationView {
        let left = self.stake_of[who].saturating_sub(self.slash_amount(who));
        if left == 0 {
            (ReputationView { stake_of: self.stake_of.remove(who), ..self }).remove_from_registry(who)
        } else {
            ReputationView { stake_of: self.stake_of.insert(who, left), ..self }
        }
    }

    /// What the registry reports of a slash.
    pub open spec fn slash_juror_events(self, who: AccountId) -> Seq<RuntimeEvent> {
        let slashed = RuntimeEvent::Reputation(
            Event::JurorSlashed { account: who, amount: self.slash_amount(who) },
        );
        if self.stake_of[who].saturating_sub(self.slash_amount(who)) == 0 {
            seq![
                RuntimeEvent::Reputation(Event::JurorAutomaticallyDeregistered { account: who }),
                slashed,
            ]
        } else {
            seq![slashed]
        }
    }
}

/// Finds the first place of an account in a list.
pub(crate) fn position(list: &AccountList, who: AccountId) -> (r: Option<usize>)
    ensures
        match r {
            Some(i) => first_place(account_list_items(*list), who) == Some(i as int),
            None => first_place(account_list_items(*list), who) is None,
        },
{
    let n = account_list_len(list);
    let mut i: usize = 0;
    while i < n
        invariant
            n == account_list_items(*list).len(),
            i <= n,
            forall|k: int| 0 <= k < i ==> account_list_items(*list)[k] != who,
        decreases n - i,
    {
        if account_list_get(list, i) == who {
            proof {
                lemma_first_place(account_list_items(*list), who, i as int);
            }
            return Some(i);
        }
        i += 1;
    }
    proof {
        lemma_no_place(account_list_items(*list), who);
    }
    None
}

/// Takes the first standing of an account out of a list.
fn remove_first(list: &mut AccountList, who: AccountId)
    ensures
        account_list_items(*final(list)) == without_first(account_list_items(*old(list)), who),
{
    if let Some(index) = position(list, who) {
        account_list_swap_remove(list, index);
    }
}

impl Pallet {
    fn pool_is_full(&self, tier: JurorTier) -> (b: bool)
        ensures
            b == self@.pool_full(tier),
    {
        match tier {
            JurorTier::Gold => account_list_len(&self.gold_jurors) >= MAX_ACCOUNTS as usize,
            JurorTier::Silver => account_list_len(&self.silver_jurors) >= MAX_ACCOUNTS as usize,
            JurorTier::Bronze => account_list_len(&self.bronze_jurors) >= MAX_ACCOUNTS as usize,
            JurorTier::Ineligible => false,
        }
    }

    /// Adds a juror to the pool of a tier, or refuses where the pool is full.
    pub(crate) fn add_juror_to_tier_list(&mut self, account: AccountId, tier: JurorTier) -> (r: Result<
        (),
        DispatchError,
    >)
        ensures
            match r {
                Ok(_) => !old(self)@.pool_full(tier) && final(self)@ == old(self)@.add_to_tier_list(
                    account,
                    tier,
                ),
                Err(e) => old(self)@.pool_full(tier) && e == DispatchError::Reputation(
                    Error::JurorPoolFull,
                ) && final(self)@ == old(self)@,
            },
    {
        let pushed = match tier {
            JurorTier::Gold => account_list_try_push(&mut self.gold_jurors, account),
            JurorTier::Silver => account_list_try_push(&mut self.silver_jurors, account),
            JurorTier::Bronze => account_list_try_push(&mut self.bronze_jurors, account),
            JurorTier::Ineligible => Ok(()),
        };
        match pushed {
            Ok(_) => Ok(()),
            Err(_) => Err(DispatchError::Reputation(Error::JurorPoolFull)),
        }
    }

    /// Takes a juror out of the pool of a tier, if it stands in it.
    pub(crate) fn remove_juror_from_tier_list(&mut self, account: AccountId, tier: JurorTier)
        ensures
            final(self)@ == old(self)@.remove_from_tier_list(account, tier),
    {
        match tier {
            JurorTier::Gold => remove_first(&mut self.gold_jurors, account),
            JurorTier::Silver => remove_first(&mut self.silver_jurors, account),
            JurorTier::Bronze => remove_first(&mut self.bronze_jurors, account),
            JurorTier::Ineligible => {},
        }
    }

    /// Takes a juror out of its pool and out of the registry.
    pub(crate) fn remove_juror_from_juror_registry(&mut self, juror: AccountId) -> (events: Vec<
        RuntimeEvent,
    >)
        ensures
            final(self)@ == old(self)@.remove_from_registry(juror),
            events@ == seq![
                RuntimeEvent::Reputation(Event::JurorAutomaticallyDeregistered { account: juror }),
            ],
    {
        let tier = self.juror_tier(juror);
        self.remove_juror_from_tier_list(juror, tier);
        self.juror_registry.remove(&juror);
        self.juror_tiers.remove(&juror);
        let mut events: Vec<RuntimeEvent> = Vec::new();
        events.push(RuntimeEvent::Reputation(Event::JurorAutomaticallyDeregistered { account: juror }));
        events
    }

    /// The tier that follows from what the store holds of an account.
    pub fn earned_tier(&self, who: AccountId) -> (tier: JurorTier)
        ensures
            tier == self@.earned_tier(who),
    {
        let stats = self.reputation_stats(who);
        Self::calculate_tier_from_stats(&stats)
    }

    /// Brings the tier of a registered juror in line with its statistics: the juror
    /// moves to the pool of its new tier, and one that is no longer eligible gets its
    /// stake back and leaves the registry. Refuses, and changes nothing, where the
    /// pool of the new tier is full.
    pub fn update_juror_tier(&mut self, ledger: &mut Ledger, account: AccountId) -> (r: Result<
        Vec<RuntimeEvent>,
        DispatchError,
    >)
        requires
            old(ledger).wf(),
        ensures
            final(ledger).wf(),
            match r {
                Ok(events) => !old(self)@.tier_update_blocked(account) && final(self)@ == old(self)@.update_juror_tier(account) && final(ledger)@ == old(self)@.update_juror_tier_ledger(
                    old(ledger)@,
                    account,
                ) && events@ == old(self)@.update_juror_tier_events(account),
                Err(e) => old(self)@.tier_update_blocked(account) && e == DispatchError::Reputation(
                    Error::JurorPoolFull,
                ) && final(self)@ == old(self)@ && final(ledger)@ == old(ledger)@,
            },
    {
        let mut events: Vec<RuntimeEvent> = Vec::new();
        if !self.juror_opted_in(account) {
            return Ok(events);
        }
        let old_tier = self.juror_tier(account);
        let new_tier = self.earned_tier(account);
        if old_tier == new_tier {
            return Ok(events);
        }
        if self.pool_is_full(new_tier) {
            return Err(DispatchError::Reputation(Error::JurorPoolFull));
        }
        self.remove_juror_from_tier_list(account, old_tier);
        if new_tier == JurorTier::Ineligible {
            if let Some(stake) = self.stake_of.remove(&account) {
                ledger.unreserve(account, stake);
            }
            self.juror_registry.remove(&account);
            self.juror_tiers.remove(&account);
            events.push(
                RuntimeEvent::Reputation(Event::JurorAutomaticallyDeregistered { account }),
            );
        } else {
            let added = self.add_juror_to_tier_list(account, new_tier);
            assert(added is Ok);
            self.juror_tiers.insert(account, new_tier);
            events.push(RuntimeEvent::Reputation(Event::JurorTierUpdated { account }));
        }
        Ok(events)
    }

    /// Joins the registry: reserves the stake and enters the pool of the tier that the
    /// account has earned.
    pub fn register_as_juror(&mut self, ledger: &mut Ledger, origin: Origin) -> (r: Result<
        Vec<RuntimeEvent>,
        DispatchError,
    >)
        requires
            old(ledger).wf(),
        ensures
            final(ledger).wf(),
            match r {
                Ok(events) => spec_ensure_signed(origin) matches Ok(who) && old(self)@.register_as_juror_error(old(ledger)@, who) is None && final(self)@ == old(self)@.register_as_juror(who) && final(ledger)@ == old(ledger)@.reserve(
                    who,
                    old(self)@.juror_stake,
                ) && events@ == seq![RuntimeEvent::Reputation(Event::JurorRegistered { account: who })],
                Err(e) => final(self)@ == old(self)@ && final(ledger)@ == old(ledger)@ && (match spec_ensure_signed(
                    origin,
                ) {
                    Ok(who) => old(self)@.register_as_juror_error(old(ledger)@, who) == Some(e),
                    Err(bad) => e == bad,
                }),
            },
    {
        let who = match ensure_signed(origin) {
            Ok(who) => who,
            Err(e) => {
                return Err(e);
            },
        };
        if self.juror_opted_in(who) {
            return Err(DispatchError::Reputation(Error::AlreadyRegisteredAsJuror));
        }
        let tier = self.earned_tier(who);
        if !tier.at_least(JurorTier::Bronze) {
            return Err(DispatchError::Reputation(Error::InsufficientTier));
        }
        let stake = self.juror_stake;
        if !ledger.can_withdraw(who, stake) {
            return Err(DispatchError::Ledger(crate::primitives::LedgerError::InsufficientBalance));
        }
        if self.pool_is_full(tier) {
            return Err(DispatchError::Reputation(Error::JurorPoolFull));
        }
        let reserved = ledger.reserve(who, stake);
        assert(reserved is Ok);
        self.stake_of.insert(who, stake);
        self.juror_registry.insert(who, true);
        self.juror_tiers.insert(who, tier);
        let added = self.add_juror_to_tier_list(who, tier);
        assert(added is Ok);
        let mut events: Vec<RuntimeEvent> = Vec::new();
        events.push(RuntimeEvent::Reputation(Event::JurorRegistered { account: who }));
        Ok(events)
    }

    /// Leaves the registry: frees the stake and leaves the pool. A juror that sits on
    /// an open dispute cannot leave.
    pub fn deregister_as_juror(&mut self, ledger: &mut Ledger, origin: Origin) -> (r: Result<
        Vec<RuntimeEvent>,
        DispatchError,
    >)
        requires
            old(ledger).wf(),
        ensures
            final(ledger).wf(),
            match r {
                Ok(events) => spec_ensure_signed(origin) matches Ok(who) && old(self)@.deregister_as_juror_error(who) is None && final(self)@ == old(self)@.deregister_as_juror(who) && final(ledger)@ == old(ledger)@.unreserve(
                    who,
                    old(self)@.stake_of[who],
                ) && events@ == seq![RuntimeEvent::Reputation(Event::JurorDeregistered { account: who })],
                Err(e) => final(self)@ == old(self)@ && final(ledger)@ == old(ledger)@ && (match spec_ensure_signed(
                    origin,
                ) {
                    Ok(who) => old(self)@.deregister_as_juror_error(who) == Some(e),
                    Err(bad) => e == bad,
                }),
            },
    {
        let who = match ensure_signed(origin) {
            Ok(who) => who,
            Err(e) => {
                return Err(e);
            },
        };
        if !self.juror_opted_in(who) {
            return Err(DispatchError::Reputation(Error::NotRegisteredAsJuror));
        }
        if self.juror_busy(who) {
            return Err(DispatchError::Reputation(Error::Busy));
        }
        let stake = match self.stake_of.remove(&who) {
            Some(stake) => stake,
            None => {
                assert(self.stake_of@ =~= old(self).stake_of@);
                return Err(DispatchError::Reputation(Error::NotRegisteredAsJuror));
            },
        };
        ledger.unreserve(who, stake);
        let tier = self.juror_tier(who);
        self.remove_juror_from_tier_list(who, tier);
        self.juror_registry.remove(&who);
        self.juror_tiers.remove(&who);
        let mut events: Vec<RuntimeEvent> = Vec::new();
        events.push(RuntimeEvent::Reputation(Event::JurorDeregistered { account: who }));
        Ok(events)
    }

    /// Slashes a juror: destroys the configured share of its stake, and removes a
    /// juror whose stake is used up from the registry.
    pub(crate) fn internal_slash_juror(&mut self, ledger: &mut Ledger, juror: AccountId) -> (r: Result<
        Vec<RuntimeEvent>,
        DispatchError,
    >)
        requires
            old(ledger).wf(),
        ensures
            final(ledger).wf(),
            match r {
                Ok(events) => old(self)@.slash_juror_error(juror) is None && final(self)@ == old(self)@.slash_juror(juror) && final(ledger)@ == old(ledger)@.slash_reserved(
                    juror,
                    old(self)@.slash_amount(juror),
                ) && events@ == old(self)@.slash_juror_events(juror),
                Err(e) => old(self)@.slash_juror_error(juror) == Some(e) && final(self)@ == old(self)@ && final(ledger)@ == old(ledger)@,
            },
    {
        if !self.juror_opted_in(juror) {
            return Err(DispatchError::Reputation(Error::NotRegisteredAsJuror));
        }
        let stake = match self.stake_of(juror) {
            Some(stake) => stake,
            None => {
                return Err(DispatchError::Reputation(Error::NotRegisteredAsJuror));
            },
        };
        let ratio = Permill::from_parts(self.config.slash_ratio.deconstruct());
        let slash = permill_of(ratio, stake);
        ledger.slash_reserved(juror, slash);
        let new_stake = stake.saturating_sub(slash);
        let mut events: Vec<RuntimeEvent> = Vec::new();
        if new_stake == 0 {
            self.stake_of.remove(&juror);
            events = self.remove_juror_from_juror_registry(juror);
        } else {
            self.stake_of.insert(juror, new_stake);
        }
        events.push(RuntimeEvent::Reputation(Event::JurorSlashed { account: juror, amount: slash }));
        Ok(events)
    }
}

} // verus!
