//! The juror selector: a jury drawn from the pools, best tier first, each pool walked
//! from where the last selection stopped.

use vstd::prelude::*;
use crate::bounded::{
    account_list_get, account_list_items, account_list_len, account_list_new,
    account_list_try_push, AccountList, MAX_ACCOUNTS,
};
use crate::primitives::AccountId;
use crate::reputation::{JurorTier, Pallet, ReputationView};

verus! {

/// The jury after a pool was walked from its place `start`, `tried` places of it being
/// done: each further place adds its account unless it is excluded or chosen
/// already, until the jury has the required size or every place was tried.
pub open spec fn pick_from(
    pool: Seq<AccountId>,
    exclude: Seq<AccountId>,
    required: nat,
    start: nat,
    tried: nat,
    chosen: Seq<AccountId>,
) -> Seq<AccountId>
    decreases pool.len() - tried,
{
    if chosen.len() >= required || tried >= pool.len() {
        chosen
    } else {
        let who = pool[((start + tried) % pool.len()) as int];
        let next = if !exclude.contains(who) && !chosen.contains(who) {
            chosen.push(who)
        } else {
            chosen
        };
        pick_from(pool, exclude, required, start, tried + 1, next)
    }
}

/// The number of places of a pool that such a walk has tried when it stops.
pub open spec fn tries_in(
    pool: Seq<AccountId>,
    exclude: Seq<AccountId>,
    required: nat,
    start: nat,
    tried: nat,
    chosen: Seq<AccountId>,
) -> nat
    decreases pool.len() - tried,
{
    if chosen.len() >= required || tried >= pool.len() {
        tried
    } else {
        let who = pool[((start + tried) % pool.len()) as int];
        let next = if !exclude.contains(who) && !chosen.contains(who) {
            chosen.push(who)
        } else {
            chosen
        };
        tries_in(pool, exclude, required, start, tried + 1, next)
    }
}

/// The largest jury that a selection can return, whatever was asked for.
pub open spec fn required_jurors(count: u32) -> nat {
    if count > MAX_ACCOUNTS {
        MAX_ACCOUNTS as nat
    } else {
        count as nat
    }
}

impl ReputationView {
    /// The place in the pool of a tier at which the next selection starts.
    pub open spec fn cursor(self, tier: JurorTier) -> u32 {
        match tier {
            JurorTier::Gold => self.next_gold_index,
            JurorTier::Silver => self.next_silver_index,
            JurorTier::Bronze => self.next_bronze_index,
            JurorTier::Ineligible => 0,
        }
    }

    /// The registry with the starting place of one pool replaced.
    pub open spec fn with_cursor(self, tier: JurorTier, index: u32) -> ReputationView {
        match tier {
            JurorTier::Gold => ReputationView { next_gold_index: index, ..self },
            JurorTier::Silver => ReputationView { next_silver_index: index, ..self },
            JurorTier::Bronze => ReputationView { next_bronze_index: index, ..self },
            JurorTier::Ineligible => self,
        }
    }

    /// Whether a selection walks the pool of a tier: the jury is not complete and the
    /// pool is not empty.
    pub open spec fn walks(self, tier: JurorTier, required: nat, chosen: Seq<AccountId>) -> bool {
        chosen.len() < required && self.pool(tier).len() > 0
    }

    /// The jury after the pool of a tier had its turn.
    pub open spec fn chosen_after(
        self,
        tier: JurorTier,
        exclude: Seq<AccountId>,
        required: nat,
        chosen: Seq<AccountId>,
    ) -> Seq<AccountId> {
        if self.walks(tier, required, chosen) {
            pick_from(self.pool(tier), exclude, required, self.cursor(tier) as nat, 0, chosen)
        } else {
            chosen
        }
    }

    /// The registry after the pool of a tier had its turn: the next selection starts
    /// where this one stopped.
    pub open spec fn walked(
        self,
        tier: JurorTier,
        exclude: Seq<AccountId>,
        required: nat,
        chosen: Seq<AccountId>,
    ) -> ReputationView {
        if self.walks(tier, required, chosen) {
            let pool = self.pool(tier);
            let start = self.cursor(tier) as nat;
            self.with_cursor(
                tier,
                ((start + tries_in(pool, exclude, required, start, 0, chosen)) % pool.len()) as u32,
            )
        } else {
            self
        }
    }

    /// Whether a selection for `min_tier` may draw from the pool of `tier`.
    pub open spec fn draws_from(min_tier: JurorTier, tier: JurorTier) -> bool {
        min_tier.spec_rank() <= tier.spec_rank()
    }

    /// The jury that a selection returns: drawn from the Gold pool, then from the
    /// Silver pool, then from the Bronze pool, as far as `min_tier` admits the pool.
    pub open spec fn eligible_jurors(self, min_tier: JurorTier, exclude: Seq<AccountId>, count: u32) -> Seq<AccountId> {
        let required = required_jurors(count);
        let gold = self.chosen_after(JurorTier::Gold, exclude, required, Seq::empty());
        let after_gold = self.walked(JurorTier::Gold, exclude, required, Seq::empty());
        let silver = if Self::draws_from(min_tier, JurorTier::Silver) {
            after_gold.chosen_after(JurorTier::Silver, exclude, required, gold)
        } else {
            gold
        };
        let after_silver = if Self::draws_from(min_tier, JurorTier::Silver) {
            after_gold.walked(JurorTier::Silver, exclude, required, gold)
        } else {
            after_gold
        };
        if Self::draws_from(min_tier, JurorTier::Bronze) {
            after_silver.chosen_after(JurorTier::Bronze, exclude, required, silver)
        } else {
            silver
        }
    }

    /// The registry after a selection: every pool that was walked starts its next
    /// selection where this one stopped.
    pub open spec fn after_selection(self, min_tier: JurorTier, exclude: Seq<AccountId>, count: u32) -> ReputationView {
        let required = required_jurors(count);
        let gold = self.chosen_after(JurorTier::Gold, exclude, required, Seq::empty());
        let after_gold = self.walked(JurorTier::Gold, exclude, required, Seq::empty());
        let silver = if Self::draws_from(min_tier, JurorTier::Silver) {
            after_gold.chosen_after(JurorTier::Silver, exclude, required, gold)
        } else {
            gold
        };
        let after_silver = if Self::draws_from(min_tier, JurorTier::Silver) {
            after_gold.walked(JurorTier::Silver, exclude, required, gold)
        } else {
            after_gold
        };
        if Self::draws_from(min_tier, JurorTier::Bronze) {
            after_silver.walked(JurorTier::Bronze, exclude, required, silver)
        } else {
            after_silver
        }
    }
}

/// A walk never shrinks the jury, never passes the required size once below it, and
/// tries no more places than the pool has.
pub proof fn lemma_pick_from(
    pool: Seq<AccountId>,
    exclude: Seq<AccountId>,
    required: nat,
    start: nat,
    tried: nat,
    chosen: Seq<AccountId>,
)
    requires
        tried <= pool.len(),
    ensures
        chosen.len() <= pick_from(pool, exclude, required, start, tried, chosen).len(),
        chosen.len() <= required ==> pick_from(pool, exclude, required, start, tried, chosen).len()
            <= required,
        tried <= tries_in(pool, exclude, required, start, tried, chosen) <= pool.len(),
    decreases pool.len() - tried,
{
    if !(chosen.len() >= required || tried >= pool.len()) {
        let who = pool[((start + tried) % pool.len()) as int];
        let next = if !exclude.contains(who) && !chosen.contains(who) {
            chosen.push(who)
        } else {
            chosen
        };
        lemma_pick_from(pool, exclude, required, start, tried + 1, next);
    }
}

/// Whether an account stands in a list.
pub(crate) fn list_contains(list: &AccountList, who: AccountId) -> (b: bool)
    ensures
        b == account_list_items(*list).contains(who),
{
    let n = account_list_len(list);
    let mut i: usize = 0;
    while i < n
        invariant
            n == account_list_items(*list).len(),
            i <= n,
            forall|k: int| 0 <= k < i ==> account_list_items(*list)[k] != who,
        decreases n - i,
    {
        if account_list_get(list, i) == who {
            return true;
        }
        i += 1;
    }
    false
}

/// Whether an account stands in a slice.
pub(crate) fn slice_contains(list: &[AccountId], who: AccountId) -> (b: bool)
    ensures
        b == list@.contains(who),
{
    let mut i: usize = 0;
    while i < list.len()
        invariant
            i <= list@.len(),
            forall|k: int| 0 <= k < i ==> list@[k] != who,
        decreases list@.len() - i,
    {
        if list[i] == who {
            return true;
        }
        i += 1;
    }
    false
}

/// Walks one pool from `start` and adds to the jury; returns the number of places
/// tried.
fn select_from_pool(
    selected: &mut AccountList,
    pool: &AccountList,
    exclude: &[AccountId],
    required: usize,
    start: u32,
) -> (tried: usize)
    requires
        required <= MAX_ACCOUNTS,
        account_list_items(*pool).len() > 0,
        account_list_items(*old(selected)).len() < required,
    ensures
        account_list_items(*final(selected)) == pick_from(
            account_list_items(*pool),
            exclude@,
            required as nat,
            start as nat,
            0,
            account_list_items(*old(selected)),
        ),
        tried == tries_in(
            account_list_items(*pool),
            exclude@,
            required as nat,
            start as nat,
            0,
            account_list_items(*old(selected)),
        ),
        tried <= account_list_items(*pool).len(),
{
    let len = account_list_len(pool);
    let mut attempts: usize = 0;
    while account_list_len(selected) < required && attempts < len
        invariant
            required <= MAX_ACCOUNTS,
            len == account_list_items(*pool).len(),
            0 < len <= MAX_ACCOUNTS,
            attempts <= len,
            account_list_items(*selected).len() <= required,
            pick_from(
                account_list_items(*pool),
                exclude@,
                required as nat,
                start as nat,
                attempts as nat,
                account_list_items(*selected),
            ) == pick_from(
                account_list_items(*pool),
                exclude@,
                required as nat,
                start as nat,
                0,
                account_list_items(*old(selected)),
            ),
            tries_in(
                account_list_items(*pool),
                exclude@,
                required as nat,
                start as nat,
                attempts as nat,
                account_list_items(*selected),
            ) == tries_in(
                account_list_items(*pool),
                exclude@,
                required as nat,
                start as nat,
                0,
                account_list_items(*old(selected)),
            ),
        decreases len - attempts,
    {
        let place: u64 = (start as u64 + attempts as u64) % (len as u64);
        let juror_to_check = account_list_get(pool, place as usize);
        if !slice_contains(exclude, juror_to_check) && !list_contains(selected, juror_to_check) {
            let pushed = account_list_try_push(selected, juror_to_check);
            assert(pushed is Ok);
        }
        attempts += 1;
    }
    attempts
}

impl Pallet {
    /// Gives the pool of one tier its turn in a selection.
    fn select_from_tier(&mut self, selected: &mut AccountList, tier: JurorTier, exclude: &[AccountId], required: usize)
        requires
            required <= MAX_ACCOUNTS,
            tier != JurorTier::Ineligible,
        ensures
            account_list_items(*final(selected)) == old(self)@.chosen_after(
                tier,
                exclude@,
                required as nat,
                account_list_items(*old(selected)),
            ),
            final(self)@ == old(self)@.walked(
                tier,
                exclude@,
                required as nat,
                account_list_items(*old(selected)),
            ),
    {
        if account_list_len(selected) >= required {
            return ;
        }
        match tier {
            JurorTier::Gold => {
                let len = account_list_len(&self.gold_jurors);
                if len > 0 {
                    let tried = select_from_pool(
                        selected,
                        &self.gold_jurors,
                        exclude,
                        required,
                        self.next_gold_index,
                    );
                    self.next_gold_index = ((self.next_gold_index as u64 + tried as u64) % (
                    len as u64)) as u32;
                }
            },
            JurorTier::Silver => {
                let len = account_list_len(&self.silver_jurors);
                if len > 0 {
                    let tried = select_from_pool(
                        selected,
                        &self.silver_jurors,
                        exclude,
                        required,
                        self.next_silver_index,
                    );
                    self.next_silver_index = ((self.next_silver_index as u64 + tried as u64) % (
                    len as u64)) as u32;
                }
            },
            JurorTier::Bronze => {
                let len = account_list_len(&self.bronze_jurors);
                if len > 0 {
                    let tried = select_from_pool(
                        selected,
                        &self.bronze_jurors,
                        exclude,
                        required,
                        self.next_bronze_index,
                    );
                    self.next_bronze_index = ((self.next_bronze_index as u64 + tried as u64) % (
                    len as u64)) as u32;
                }
            },
            JurorTier::Ineligible => {},
        }
    }

    /// Selects up to `count` jurors of at least `min_tier`, none of them among
    /// `exclude` and none twice: from the Gold pool first, then from Silver, then from
    /// Bronze. Each pool is walked from where its last selection stopped, so that
    /// selections go round the pool. Returns fewer where the pools do not hold enough.
    pub(crate) fn internal_get_eligible_jurors(&mut self, min_tier: JurorTier, exclude: &[AccountId], count: u32) -> (selected:
        AccountList)
        ensures
            account_list_items(selected) == old(self)@.eligible_jurors(min_tier, exclude@, count),
            final(self)@ == old(self)@.after_selection(min_tier, exclude@, count),
    {
        let mut selected_jurors = account_list_new();
        let required_count: usize = if count > MAX_ACCOUNTS {
            MAX_ACCOUNTS as usize
        } else {
            count as usize
        };
        self.select_from_tier(&mut selected_jurors, JurorTier::Gold, exclude, required_count);
        if min_tier.rank() <= JurorTier::Silver.rank() {
            self.select_from_tier(&mut selected_jurors, JurorTier::Silver, exclude, required_count);
        }
        if min_tier.rank() <= JurorTier::Bronze.rank() {
            self.select_from_tier(&mut selected_jurors, JurorTier::Bronze, exclude, required_count);
        }
        selected_jurors
    }
}

} // verus!
