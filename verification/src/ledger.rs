//! The account ledger that the engine settles against: free and reserved value per
//! account, locks on free value, and a total that only minting and slashing change.

use vstd::prelude::*;
use crate::primitives::{AccountId, Balance, LedgerError};

verus! {

/// What one account holds.
#[derive(Clone, Copy, PartialEq, Eq, Debug, Structural)]
pub struct Funds {
    /// Value that the account can spend, as far as no lock freezes it.
    pub free: Balance,
    /// Value set aside, which only `unreserve` and `slash_reserved` move.
    pub reserved: Balance,
}

/// Names a lock, so that the one who set it can lift it again.
pub type LockId = [u8; 8];

/// Whether two names of locks are the same.
pub fn same_lock_id(a: &LockId, b: &LockId) -> (same: bool)
    ensures
        same == (*a == *b),
{
    let mut i: usize = 0;
    while i < 8
        invariant
            i <= 8,
            forall|k: int| 0 <= k < i ==> a[k] == b[k],
        decreases 8 - i,
    {
        if a[i] != b[i] {
            return false;
        }
        i += 1;
    }
    assert(*a =~= *b);
    true
}

/// The ledger as contracts see it.
pub struct LedgerView {
    /// The funds of every account; an account that was never touched holds nothing.
    pub funds: Map<AccountId, Funds>,
    /// The locks in force, by account and name.
    pub locks: Map<(AccountId, LockId), Balance>,
    /// The sum of all free and reserved value.
    pub total: int,
}

/// Whether `amount` is the largest of the locks of an account, or zero where it has
/// none.
pub open spec fn is_largest_lock(locks: Map<(AccountId, LockId), Balance>, who: AccountId, amount: Balance) -> bool {
    &&& forall|id: LockId| #[trigger] locks.contains_key((who, id)) ==> locks[(who, id)] <= amount
    &&& (amount == 0 || exists|id: LockId| #[trigger]
        locks.contains_key((who, id)) && locks[(who, id)] == amount)
}

/// The largest of the locks of an account, zero where it has none.
pub open spec fn largest_lock_of(locks: Map<(AccountId, LockId), Balance>, who: AccountId) -> Balance {
    choose|amount: Balance| is_largest_lock(locks, who, amount)
}

/// The smaller of two amounts.
pub open spec fn min_balance(a: Balance, b: Balance) -> Balance {
    if a <= b {
        a
    } else {
        b
    }
}

impl LedgerView {
    /// The free value of an account.
    pub open spec fn free(self, who: AccountId) -> Balance {
        self.funds[who].free
    }

    /// The reserved value of an account.
    pub open spec fn reserved(self, who: AccountId) -> Balance {
        self.funds[who].reserved
    }

    /// Whether `amount` is the largest lock of an account, or zero where it has none.
    pub open spec fn is_frozen(self, who: AccountId, amount: Balance) -> bool {
        is_largest_lock(self.locks, who, amount)
    }

    /// The part of an account's free value that locks freeze: its largest lock.
    pub open spec fn frozen(self, who: AccountId) -> Balance {
        largest_lock_of(self.locks, who)
    }

    /// Whether an account can give up `amount` of free value: it holds that much, and
    /// what stays free still covers its locks.
    pub open spec fn can_withdraw(self, who: AccountId, amount: Balance) -> bool {
        self.free(who) >= amount && self.free(who) - amount >= self.frozen(who)
    }

    /// The ledger after `amount` was minted into the free value of an account; nothing
    /// is minted where the total would no longer fit in a `Balance`.
    pub open spec fn deposit(self, who: AccountId, amount: Balance) -> LedgerView {
        if self.total + amount <= Balance::MAX {
            LedgerView {
                funds: self.funds.insert(
                    who,
                    Funds { free: (self.free(who) + amount) as Balance, reserved: self.reserved(who) },
                ),
                locks: self.locks,
                total: self.total + amount,
            }
        } else {
            self
        }
    }

    /// The ledger after an account that can give up `amount` set it aside.
    pub open spec fn reserve(self, who: AccountId, amount: Balance) -> LedgerView {
        LedgerView {
            funds: self.funds.insert(
                who,
                Funds {
                    free: (self.free(who) - amount) as Balance,
                    reserved: (self.reserved(who) + amount) as Balance,
                },
            ),
            locks: self.locks,
            total: self.total,
        }
    }

    /// The ledger after up to `amount` of an account's reserved value was freed.
    pub open spec fn unreserve(self, who: AccountId, amount: Balance) -> LedgerView {
        let moved = min_balance(amount, self.reserved(who));
        LedgerView {
            funds: self.funds.insert(
                who,
                Funds {
                    free: (self.free(who) + moved) as Balance,
                    reserved: (self.reserved(who) - moved) as Balance,
                },
            ),
            locks: self.locks,
            total: self.total,
        }
    }

    /// The ledger after up to `amount` of an account's reserved value was destroyed.
    pub open spec fn slash_reserved(self, who: AccountId, amount: Balance) -> LedgerView {
        let slashed = min_balance(amount, self.reserved(who));
        LedgerView {
            funds: self.funds.insert(
                who,
                Funds { free: self.free(who), reserved: (self.reserved(who) - slashed) as Balance },
            ),
            locks: self.locks,
            total: self.total - slashed,
        }
    }

    /// The ledger after a sender that can give up `amount` paid it to a receiver.
    pub open spec fn transfer(self, from: AccountId, to: AccountId, amount: Balance) -> LedgerView {
        if from == to {
            self
        } else {
            LedgerView {
                funds: self.funds.insert(
                    from,
                    Funds { free: (self.free(from) - amount) as Balance, reserved: self.reserved(from) },
                ).insert(
                    to,
                    Funds { free: (self.free(to) + amount) as Balance, reserved: self.reserved(to) },
                ),
                locks: self.locks,
                total: self.total,
            }
        }
    }

    /// The ledger after the lock `id` of an account was set to `amount`.
    pub open spec fn set_lock(self, id: LockId, who: AccountId, amount: Balance) -> LedgerView {
        LedgerView { funds: self.funds, locks: self.locks.insert((who, id), amount), total: self.total }
    }

    /// The ledger after the lock `id` of an account was lifted.
    pub open spec fn remove_lock(self, id: LockId, who: AccountId) -> LedgerView {
        LedgerView { funds: self.funds, locks: self.locks.remove((who, id)), total: self.total }
    }
}

#[derive(Clone, Copy)]
struct Entry {
    who: AccountId,
    free: Balance,
    reserved: Balance,
}

#[derive(Clone, Copy)]
struct Lock {
    id: LockId,
    who: AccountId,
    amount: Balance,
}

/// Free and reserved balances per account, with the locks on them.
pub struct Ledger {
    entries: Vec<Entry>,
    locks: Vec<Lock>,
}

spec fn zero_funds() -> Funds {
    Funds { free: 0, reserved: 0 }
}

spec fn funds_at(e: Entry) -> Funds {
    Funds { free: e.free, reserved: e.reserved }
}

spec fn distinct(s: Seq<Entry>) -> bool {
    forall|i: int, j: int| 0 <= i < j < s.len() ==> s[i].who != s[j].who
}

spec fn lookup(s: Seq<Entry>, who: AccountId) -> Funds
    decreases s.len(),
{
    if s.len() == 0 {
        zero_funds()
    } else if s.last().who == who {
        funds_at(s.last())
    } else {
        lookup(s.drop_last(), who)
    }
}

spec fn sum(s: Seq<Entry>) -> int
    decreases s.len(),
{
    if s.len() == 0 {
        0
    } else {
        sum(s.drop_last()) + s.last().free + s.last().reserved
    }
}

spec fn distinct_locks(s: Seq<Lock>) -> bool {
    forall|i: int, j: int|
        0 <= i < j < s.len() ==> !(s[i].who == s[j].who && s[i].id == s[j].id)
}

spec fn lock_map(s: Seq<Lock>) -> Map<(AccountId, LockId), Balance>
    decreases s.len(),
{
    if s.len() == 0 {
        Map::empty()
    } else {
        lock_map(s.drop_last()).insert((s.last().who, s.last().id), s.last().amount)
    }
}

spec fn largest_lock(s: Seq<Lock>, who: AccountId) -> Balance
    decreases s.len(),
{
    if s.len() == 0 {
        0
    } else {
        let rest = largest_lock(s.drop_last(), who);
        if s.last().who == who && s.last().amount > rest {
            s.last().amount
        } else {
            rest
        }
    }
}

proof fn lemma_lookup_absent(s: Seq<Entry>, who: AccountId)
    requires
        forall|i: int| 0 <= i < s.len() ==> s[i].who != who,
    ensures
        lookup(s, who) == zero_funds(),
    decreases s.len(),
{
    if s.len() > 0 {
        lemma_lookup_absent(s.drop_last(), who);
    }
}

proof fn lemma_lookup_at(s: Seq<Entry>, i: int)
    requires
        distinct(s),
        0 <= i < s.len(),
    ensures
        lookup(s, s[i].who) == funds_at(s[i]),
    decreases s.len(),
{
    if i < s.len() - 1 {
        lemma_lookup_at(s.drop_last(), i);
    }
}

proof fn lemma_sum_nonnegative(s: Seq<Entry>)
    ensures
        sum(s) >= 0,
    decreases s.len(),
{
    if s.len() > 0 {
        lemma_sum_nonnegative(s.drop_last());
    }
}

proof fn lemma_sum_bounds(s: Seq<Entry>, i: int)
    requires
        0 <= i < s.len(),
    ensures
        s[i].free + s[i].reserved <= sum(s),
    decreases s.len(),
{
    lemma_sum_nonnegative(s.drop_last());
    if i < s.len() - 1 {
        lemma_sum_bounds(s.drop_last(), i);
    }
}

proof fn lemma_sum_bounds_two(s: Seq<Entry>, i: int, j: int)
    requires
        0 <= i < s.len(),
        0 <= j < s.len(),
        i != j,
    ensures
        s[i].free + s[i].reserved + s[j].free + s[j].reserved <= sum(s),
    decreases s.len(),
{
    let last = s.len() - 1;
    if i == last {
        lemma_sum_bounds(s.drop_last(), j);
    } else if j == last {
        lemma_sum_bounds(s.drop_last(), i);
    } else {
        lemma_sum_bounds_two(s.drop_last(), i, j);
    }
}

proof fn lemma_sum_prefix(s: Seq<Entry>, n: int)
    requires
        0 <= n <= s.len(),
    ensures
        0 <= sum(s.take(n)) <= sum(s),
    decreases s.len() - n,
{
    lemma_sum_nonnegative(s.take(n));
    if n < s.len() {
        assert(s.take(n + 1).drop_last() =~= s.take(n));
        lemma_sum_prefix(s, n + 1);
    } else {
        assert(s.take(n) =~= s);
    }
}

proof fn lemma_update(s: Seq<Entry>, i: int, e: Entry)
    requires
        distinct(s),
        0 <= i < s.len(),
        e.who == s[i].who,
    ensures
        distinct(s.update(i, e)),
        sum(s.update(i, e)) == sum(s) - s[i].free - s[i].reserved + e.free + e.reserved,
        lookup(s.update(i, e), e.who) == funds_at(e),
        forall|a: AccountId| a != e.who ==> lookup(s.update(i, e), a) == lookup(s, a),
    decreases s.len(),
{
    let t = s.update(i, e);
    lemma_lookup_at(t, i);
    if i == s.len() - 1 {
        assert(t.drop_last() =~= s.drop_last());
        assert forall|a: AccountId| a != e.who implies lookup(t, a) == lookup(s, a) by {
            assert(lookup(t, a) == lookup(t.drop_last(), a));
            assert(lookup(s, a) == lookup(s.drop_last(), a));
        }
    } else {
        assert(t.drop_last() =~= s.drop_last().update(i, e));
        lemma_update(s.drop_last(), i, e);
        assert forall|a: AccountId| a != e.who implies lookup(t, a) == lookup(s, a) by {
            if s.last().who != a {
                assert(lookup(t, a) == lookup(t.drop_last(), a));
                assert(lookup(s, a) == lookup(s.drop_last(), a));
            }
        }
    }
}

proof fn lemma_push(s: Seq<Entry>, e: Entry)
    requires
        distinct(s),
        forall|i: int| 0 <= i < s.len() ==> s[i].who != e.who,
    ensures
        distinct(s.push(e)),
        sum(s.push(e)) == sum(s) + e.free + e.reserved,
        lookup(s.push(e), e.who) == funds_at(e),
        forall|a: AccountId| a != e.who ==> lookup(s.push(e), a) == lookup(s, a),
{
    assert(s.push(e).drop_last() =~= s);
}

proof fn lemma_lock_map(s: Seq<Lock>)
    requires
        distinct_locks(s),
    ensures
        forall|i: int|
            0 <= i < s.len() ==> #[trigger] lock_map(s).contains_key((s[i].who, s[i].id))
                && lock_map(s)[(s[i].who, s[i].id)] == s[i].amount,
        forall|k: (AccountId, LockId)| #[trigger]
            lock_map(s).contains_key(k) ==> exists|i: int|
                0 <= i < s.len() && s[i].who == k.0 && s[i].id == k.1,
    decreases s.len(),
{
    if s.len() > 0 {
        let r = s.drop_last();
        lemma_lock_map(r);
        assert forall|k: (AccountId, LockId)| #[trigger] lock_map(s).contains_key(k) implies exists|
            i: int,
        | 0 <= i < s.len() && s[i].who == k.0 && s[i].id == k.1 by {
            if k == (s.last().who, s.last().id) {
                assert(s[s.len() - 1].who == k.0);
            } else {
                assert(lock_map(r).contains_key(k));
                let i = choose|i: int| 0 <= i < r.len() && r[i].who == k.0 && r[i].id == k.1;
                assert(s[i].who == k.0);
            }
        }
        assert forall|i: int| 0 <= i < s.len() implies #[trigger] lock_map(s).contains_key(
            (s[i].who, s[i].id),
        ) && lock_map(s)[(s[i].who, s[i].id)] == s[i].amount by {
            if i < s.len() - 1 {
                assert(r[i] == s[i]);
                assert(lock_map(r).contains_key((r[i].who, r[i].id)));
            }
        }
    }
}

proof fn lemma_largest_lock(s: Seq<Lock>, who: AccountId)
    ensures
        forall|i: int| 0 <= i < s.len() && s[i].who == who ==> s[i].amount <= largest_lock(s, who),
        largest_lock(s, who) == 0 || exists|i: int|
            0 <= i < s.len() && s[i].who == who && s[i].amount == largest_lock(s, who),
    decreases s.len(),
{
    if s.len() > 0 {
        let r = s.drop_last();
        lemma_largest_lock(r, who);
        let b = largest_lock(s, who);
        if b != 0 {
            if s.last().who == who && s.last().amount > largest_lock(r, who) {
                assert(s[s.len() - 1].amount == b);
            } else {
                let i = choose|i: int| 0 <= i < r.len() && r[i].who == who && r[i].amount == b;
                assert(s[i].amount == b);
            }
        }
        assert forall|i: int| 0 <= i < s.len() && s[i].who == who implies s[i].amount <= b by {
            if i < s.len() - 1 {
                assert(r[i] == s[i]);
            }
        }
    }
}

impl View for Ledger {
    type V = LedgerView;

    closed spec fn view(&self) -> LedgerView {
        LedgerView {
            funds: Map::total(|who: AccountId| lookup(self.entries@, who)),
            locks: lock_map(self.locks@),
            total: sum(self.entries@),
        }
    }
}

impl Ledger {
    /// What every ledger satisfies: no account and no lock is entered twice, and all
    /// value together fits in one `Balance`.
    pub closed spec fn wf(&self) -> bool {
        &&& distinct(self.entries@)
        &&& distinct_locks(self.locks@)
        &&& sum(self.entries@) <= Balance::MAX
    }

    /// Every account is known to the view, no account holds more than there is, and the
    /// frozen part of an account is its largest lock.
    pub proof fn lemma_view(&self, who: AccountId)
        requires
            self.wf(),
        ensures
            self@.funds.dom().contains(who),
            0 <= self@.free(who) + self@.reserved(who) <= self@.total <= Balance::MAX,
            self@.is_frozen(who, self@.frozen(who)),
    {
        let s = self.entries@;
        lemma_sum_nonnegative(s);
        if exists|i: int| 0 <= i < s.len() && s[i].who == who {
            let i = choose|i: int| 0 <= i < s.len() && s[i].who == who;
            lemma_lookup_at(s, i);
            lemma_sum_bounds(s, i);
        } else {
            lemma_lookup_absent(s, who);
        }
        self.lemma_largest_is_frozen(who);
    }

    proof fn lemma_largest_is_frozen(&self, who: AccountId)
        requires
            self.wf(),
        ensures
            self@.is_frozen(who, largest_lock(self.locks@, who)),
            self@.is_frozen(who, self@.frozen(who)),
            self@.frozen(who) == largest_lock(self.locks@, who),
    {
        let s = self.locks@;
        let b = largest_lock(s, who);
        lemma_lock_map(s);
        lemma_largest_lock(s, who);
        assert forall|id: LockId| #[trigger] self@.locks.contains_key((who, id)) implies self@.locks[(
            who,
            id,
        )] <= b by {
            let i = choose|i: int| 0 <= i < s.len() && s[i].who == who && s[i].id == id;
            assert(lock_map(s).contains_key((s[i].who, s[i].id)));
        }
        if b != 0 {
            let i = choose|i: int| 0 <= i < s.len() && s[i].who == who && s[i].amount == b;
            assert(lock_map(s).contains_key((s[i].who, s[i].id)));
            assert(self@.locks.contains_key((who, s[i].id)) && self@.locks[(who, s[i].id)] == b);
        }
        assert(self@.is_frozen(who, b));
        lemma_frozen_unique(self@, who, b, self@.frozen(who));
    }

    /// Two accounts together hold no more than there is.
    pub proof fn lemma_two_within_total(&self, a: AccountId, b: AccountId)
        requires
            self.wf(),
            a != b,
        ensures
            self@.free(a) + self@.reserved(a) + self@.free(b) + self@.reserved(b) <= self@.total,
    {
        let s = self.entries@;
        lemma_sum_nonnegative(s);
        let has_a = exists|i: int| 0 <= i < s.len() && s[i].who == a;
        let has_b = exists|i: int| 0 <= i < s.len() && s[i].who == b;
        if has_a && has_b {
            let i = choose|i: int| 0 <= i < s.len() && s[i].who == a;
            let j = choose|j: int| 0 <= j < s.len() && s[j].who == b;
            lemma_lookup_at(s, i);
            lemma_lookup_at(s, j);
            lemma_sum_bounds_two(s, i, j);
        } else if has_a {
            let i = choose|i: int| 0 <= i < s.len() && s[i].who == a;
            lemma_lookup_at(s, i);
            lemma_sum_bounds(s, i);
            lemma_lookup_absent(s, b);
        } else if has_b {
            let j = choose|j: int| 0 <= j < s.len() && s[j].who == b;
            lemma_lookup_at(s, j);
            lemma_sum_bounds(s, j);
            lemma_lookup_absent(s, a);
        } else {
            lemma_lookup_absent(s, a);
            lemma_lookup_absent(s, b);
        }
    }

    /// A ledger on which nobody holds anything.
    pub fn new() -> (ledger: Ledger)
        ensures
            ledger.wf(),
            ledger@.total == 0,
            ledger@.locks == Map::<(AccountId, LockId), Balance>::empty(),
            forall|who: AccountId| ledger@.funds[who] == (Funds { free: 0, reserved: 0 }),
            forall|who: AccountId| #[trigger] largest_lock_of(ledger@.locks, who) == 0,
    {
        let ledger = Ledger { entries: Vec::new(), locks: Vec::new() };
        assert forall|who: AccountId| #[trigger] largest_lock_of(ledger@.locks, who) == 0 by {
            lemma_frozen_unique(ledger@, who, 0, 0);
        }
        ledger
    }

    fn find(&self, who: AccountId) -> (r: Option<usize>)
        ensures
            match r {
                Some(i) => i < self.entries@.len() && self.entries@[i as int].who == who,
                None => forall|i: int| 0 <= i < self.entries@.len() ==> self.entries@[i].who != who,
            },
    {
        let mut i: usize = 0;
        while i < self.entries.len()
            invariant
                i <= self.entries@.len(),
                forall|k: int| 0 <= k < i ==> self.entries@[k].who != who,
            decreases self.entries@.len() - i,
        {
            if self.entries[i].who == who {
                return Some(i);
            }
            i += 1;
        }
        None
    }

    fn put(&mut self, who: AccountId, funds: Funds)
        requires
            old(self).wf(),
            old(self)@.total - old(self)@.free(who) - old(self)@.reserved(who) + funds.free
                + funds.reserved <= Balance::MAX,
        ensures
            final(self).wf(),
            final(self)@.funds == old(self)@.funds.insert(who, funds),
            final(self)@.locks == old(self)@.locks,
            final(self)@.total == old(self)@.total - old(self)@.free(who) - old(self)@.reserved(who)
                + funds.free + funds.reserved,
    {
        let e = Entry { who, free: funds.free, reserved: funds.reserved };
        let ghost before = self.entries@;
        match self.find(who) {
            Some(i) => {
                proof {
                    lemma_lookup_at(before, i as int);
                    lemma_update(before, i as int, e);
                }
                self.entries.set(i, e);
            },
            None => {
                proof {
                    lemma_lookup_absent(before, who);
                    lemma_push(before, e);
                }
                self.entries.push(e);
            },
        }
        assert(self@.funds =~= old(self)@.funds.insert(who, funds));
    }

    /// The funds of an account.
    pub fn funds_of(&self, who: AccountId) -> (funds: Funds)
        requires
            self.wf(),
        ensures
            funds == self@.funds[who],
    {
        match self.find(who) {
            Some(i) => {
                proof {
                    lemma_lookup_at(self.entries@, i as int);
                }
                let e = self.entries[i];
                Funds { free: e.free, reserved: e.reserved }
            },
            None => {
                proof {
                    lemma_lookup_absent(self.entries@, who);
                }
                Funds { free: 0, reserved: 0 }
            },
        }
    }

    /// The free value of an account.
    pub fn free_balance(&self, who: AccountId) -> (amount: Balance)
        requires
            self.wf(),
        ensures
            amount == self@.free(who),
    {
        self.funds_of(who).free
    }

    /// The reserved value of an account.
    pub fn reserved_balance(&self, who: AccountId) -> (amount: Balance)
        requires
            self.wf(),
        ensures
            amount == self@.reserved(who),
    {
        self.funds_of(who).reserved
    }

    /// All value on the ledger.
    pub fn total_issuance(&self) -> (amount: Balance)
        requires
            self.wf(),
        ensures
            amount == self@.total,
    {
        let mut acc: Balance = 0;
        let mut i: usize = 0;
        while i < self.entries.len()
            invariant
                i <= self.entries@.len(),
                acc == sum(self.entries@.take(i as int)),
                sum(self.entries@) <= Balance::MAX,
            decreases self.entries@.len() - i,
        {
            proof {
                let s = self.entries@;
                assert(s.take(i as int + 1).drop_last() =~= s.take(i as int));
                lemma_sum_prefix(s, i as int + 1);
                lemma_sum_nonnegative(s.take(i as int));
            }
            let e = self.entries[i];
            acc = acc + e.free + e.reserved;
            i += 1;
        }
        proof {
            assert(self.entries@.take(i as int) =~= self.entries@);
        }
        acc
    }

    /// The part of an account's free value that its locks freeze.
    pub fn frozen_balance(&self, who: AccountId) -> (amount: Balance)
        requires
            self.wf(),
        ensures
            amount == self@.frozen(who),
    {
        let mut acc: Balance = 0;
        let mut i: usize = 0;
        while i < self.locks.len()
            invariant
                i <= self.locks@.len(),
                acc == largest_lock(self.locks@.take(i as int), who),
            decreases self.locks@.len() - i,
        {
            proof {
                assert(self.locks@.take(i as int + 1).drop_last() =~= self.locks@.take(i as int));
            }
            let l = self.locks[i];
            if l.who == who && l.amount > acc {
                acc = l.amount;
            }
            i += 1;
        }
        proof {
            assert(self.locks@.take(i as int) =~= self.locks@);
            self.lemma_largest_is_frozen(who);
        }
        acc
    }

    /// Whether an account can give up `amount` of free value.
    pub fn can_withdraw(&self, who: AccountId, amount: Balance) -> (ok: bool)
        requires
            self.wf(),
        ensures
            ok == self@.can_withdraw(who, amount),
    {
        let free = self.free_balance(who);
        let frozen = self.frozen_balance(who);
        free >= amount && free - amount >= frozen
    }

    /// Mints `amount` into the free value of an account and says how much was minted:
    /// all of it, or nothing where the total would no longer fit in a `Balance`.
    pub fn deposit_creating(&mut self, who: AccountId, amount: Balance) -> (minted: Balance)
        requires
            old(self).wf(),
        ensures
            final(self).wf(),
            minted == (if old(self)@.total + amount <= Balance::MAX {
                amount
            } else {
                0
            }),
            final(self)@ == old(self)@.deposit(who, amount),
    {
        proof {
            self.lemma_view(who);
        }
        let total = self.total_issuance();
        let funds = self.funds_of(who);
        if amount <= Balance::MAX - total {
            self.put(who, Funds { free: funds.free + amount, reserved: funds.reserved });
            amount
        } else {
            0
        }
    }

    /// Moves `amount` of an account's free value to its reserved value, or refuses and
    /// changes nothing where the account cannot give it up.
    pub fn reserve(&mut self, who: AccountId, amount: Balance) -> (r: Result<(), LedgerError>)
        requires
            old(self).wf(),
        ensures
            final(self).wf(),
            match r {
                Ok(_) => old(self)@.can_withdraw(who, amount) && final(self)@ == old(self)@.reserve(
                    who,
                    amount,
                ),
                Err(e) => !old(self)@.can_withdraw(who, amount) && e
                    == LedgerError::InsufficientBalance && final(self)@ == old(self)@,
            },
    {
        proof {
            self.lemma_view(who);
        }
        if !self.can_withdraw(who, amount) {
            return Err(LedgerError::InsufficientBalance);
        }
        let funds = self.funds_of(who);
        self.put(who, Funds { free: funds.free - amount, reserved: funds.reserved + amount });
        Ok(())
    }

    /// Moves up to `amount` of an account's reserved value back to its free value and
    /// says how much of `amount` could not be moved.
    pub fn unreserve(&mut self, who: AccountId, amount: Balance) -> (missing: Balance)
        requires
            old(self).wf(),
        ensures
            final(self).wf(),
            missing == amount - min_balance(amount, old(self)@.reserved(who)),
            final(self)@ == old(self)@.unreserve(who, amount),
    {
        proof {
            self.lemma_view(who);
        }
        let funds = self.funds_of(who);
        let moved = if amount <= funds.reserved {
            amount
        } else {
            funds.reserved
        };
        self.put(who, Funds { free: funds.free + moved, reserved: funds.reserved - moved });
        amount - moved
    }

    /// Destroys up to `amount` of an account's reserved value and says how much was
    /// destroyed.
    pub fn slash_reserved(&mut self, who: AccountId, amount: Balance) -> (slashed: Balance)
        requires
            old(self).wf(),
        ensures
            final(self).wf(),
            slashed == min_balance(amount, old(self)@.reserved(who)),
            final(self)@ == old(self)@.slash_reserved(who, amount),
    {
        proof {
            self.lemma_view(who);
        }
        let funds = self.funds_of(who);
        let slashed = if amount <= funds.reserved {
            amount
        } else {
            funds.reserved
        };
        self.put(who, Funds { free: funds.free, reserved: funds.reserved - slashed });
        slashed
    }

    /// Moves `amount` of free value from one account to another, or refuses and
    /// changes nothing where the sender cannot give it up.
    pub fn transfer(&mut self, from: AccountId, to: AccountId, amount: Balance) -> (r: Result<
        (),
        LedgerError,
    >)
        requires
            old(self).wf(),
        ensures
            final(self).wf(),
            match r {
                Ok(_) => old(self)@.can_withdraw(from, amount) && final(self)@ == old(self)@.transfer(from, to, amount),
                Err(e) => !old(self)@.can_withdraw(from, amount) && e
                    == LedgerError::InsufficientBalance && final(self)@ == old(self)@,
            },
    {
        proof {
            self.lemma_view(from);
            self.lemma_view(to);
        }
        if !self.can_withdraw(from, amount) {
            return Err(LedgerError::InsufficientBalance);
        }
        if from == to {
            return Ok(());
        }
        proof {
            self.lemma_two_within_total(from, to);
        }
        let source = self.funds_of(from);
        self.put(from, Funds { free: source.free - amount, reserved: source.reserved });
        let target = self.funds_of(to);
        self.put(to, Funds { free: target.free + amount, reserved: target.reserved });
        Ok(())
    }

    fn find_lock(&self, id: LockId, who: AccountId) -> (r: Option<usize>)
        ensures
            match r {
                Some(i) => i < self.locks@.len() && self.locks@[i as int].who == who
                    && self.locks@[i as int].id == id,
                None => forall|i: int|
                    0 <= i < self.locks@.len() ==> !(self.locks@[i].who == who && self.locks@[i].id
                        == id),
            },
    {
        let mut i: usize = 0;
        while i < self.locks.len()
            invariant
                i <= self.locks@.len(),
                forall|k: int|
                    0 <= k < i ==> !(self.locks@[k].who == who && self.locks@[k].id == id),
            decreases self.locks@.len() - i,
        {
            if self.locks[i].who == who && same_lock_id(&self.locks[i].id, &id) {
                return Some(i);
            }
            i += 1;
        }
        None
    }

    /// Sets the lock `id` of an account to `amount`, in place of what it was.
    pub fn set_lock(&mut self, id: LockId, who: AccountId, amount: Balance)
        requires
            old(self).wf(),
        ensures
            final(self).wf(),
            final(self)@ == old(self)@.set_lock(id, who, amount),
    {
        let l = Lock { id, who, amount };
        let ghost before = self.locks@;
        match self.find_lock(id, who) {
            Some(i) => {
                self.locks.set(i, l);
            },
            None => {
                self.locks.push(l);
            },
        }
        proof {
            let after = self.locks@;
            let at = if after.len() == before.len() {
                choose|i: int| 0 <= i < before.len() && before[i].who == who && before[i].id == id
            } else {
                before.len() as int
            };
            assert(after[at] == l);
            assert(forall|j: int| 0 <= j < before.len() && j != at ==> after[j] == before[j]);
            assert(distinct_locks(after));
            lemma_lock_map(before);
            lemma_lock_map(after);
            let target = lock_map(before).insert((who, id), amount);
            assert forall|k: (AccountId, LockId)| lock_map(after).contains_key(k) implies target.contains_key(
                k,
            ) by {
                let j = choose|j: int| 0 <= j < after.len() && after[j].who == k.0 && after[j].id == k.1;
                if j != at {
                    assert(lock_map(before).contains_key((before[j].who, before[j].id)));
                }
            }
            assert forall|k: (AccountId, LockId)| target.contains_key(k) implies lock_map(
                after,
            ).contains_key(k) && lock_map(after)[k] == target[k] by {
                if k.0 == who && k.1 == id {
                    assert(lock_map(after).contains_key((after[at].who, after[at].id)));
                } else {
                    let j = choose|j: int|
                        0 <= j < before.len() && before[j].who == k.0 && before[j].id == k.1;
                    assert(lock_map(before).contains_key((before[j].who, before[j].id)));
                    assert(after[j] == before[j]);
                    assert(lock_map(after).contains_key((after[j].who, after[j].id)));
                }
            }
            assert(lock_map(after) =~= target);
        }
    }

    /// Lifts the lock `id` of an account, if it is set.
    pub fn remove_lock(&mut self, id: LockId, who: AccountId)
        requires
            old(self).wf(),
        ensures
            final(self).wf(),
            final(self)@ == old(self)@.remove_lock(id, who),
    {
        let ghost before = self.locks@;
        proof {
            lemma_lock_map(before);
        }
        match self.find_lock(id, who) {
            Some(i) => {
                let last = self.locks.len() - 1;
                let moved = self.locks[last];
                self.locks.set(i, moved);
                self.locks.pop();
                proof {
                    let after = self.locks@;
                    lemma_lock_map(after);
                    assert forall|k: (AccountId, LockId)| lock_map(after).contains_key(k) implies lock_map(
                        before,
                    ).remove((who, id)).contains_key(k) && lock_map(after)[k] == lock_map(before)[k] by {
                        let j = choose|j: int|
                            0 <= j < after.len() && after[j].who == k.0 && after[j].id == k.1;
                        assert(lock_map(after).contains_key((after[j].who, after[j].id)));
                        if j == i {
                            assert(after[j] == before[last as int]);
                            assert(lock_map(before).contains_key(
                                (before[last as int].who, before[last as int].id),
                            ));
                        } else {
                            assert(after[j] == before[j]);
                            assert(lock_map(before).contains_key((before[j].who, before[j].id)));
                        }
                    }
                    assert forall|k: (AccountId, LockId)|
                        lock_map(before).remove((who, id)).contains_key(k) implies lock_map(
                        after,
                    ).contains_key(k) by {
                        let j = choose|j: int|
                            0 <= j < before.len() && before[j].who == k.0 && before[j].id == k.1;
                        if j == last {
                            assert(after[i as int] == before[j]);
                            assert(lock_map(after).contains_key(
                                (after[i as int].who, after[i as int].id),
                            ));
                        } else {
                            assert(after[j] == before[j]);
                            assert(lock_map(after).contains_key((after[j].who, after[j].id)));
                        }
                    }
                    assert(self@.locks =~= old(self)@.locks.remove((who, id)));
                }
            },
            None => {
                proof {
                    assert forall|k: (AccountId, LockId)|
                        lock_map(before).contains_key(k) implies k != (who, id) by {
                        let j = choose|j: int|
                            0 <= j < before.len() && before[j].who == k.0 && before[j].id == k.1;
                    }
                    assert(self@.locks =~= old(self)@.locks.remove((who, id)));
                }
            },
        }
    }

    /// A second ledger that holds what this one holds.
    pub fn snapshot(&self) -> (copy: Ledger)
        requires
            self.wf(),
        ensures
            copy.wf(),
            copy@ == self@,
    {
        let mut entries: Vec<Entry> = Vec::new();
        let mut i: usize = 0;
        while i < self.entries.len()
            invariant
                i <= self.entries@.len(),
                entries@ == self.entries@.take(i as int),
            decreases self.entries@.len() - i,
        {
            entries.push(self.entries[i]);
            proof {
                assert(entries@ =~= self.entries@.take(i as int + 1));
            }
            i += 1;
        }
        let mut locks: Vec<Lock> = Vec::new();
        let mut j: usize = 0;
        while j < self.locks.len()
            invariant
                j <= self.locks@.len(),
                locks@ == self.locks@.take(j as int),
            decreases self.locks@.len() - j,
        {
            locks.push(self.locks[j]);
            proof {
                assert(locks@ =~= self.locks@.take(j as int + 1));
            }
            j += 1;
        }
        proof {
            assert(entries@ =~= self.entries@);
            assert(locks@ =~= self.locks@);
        }
        let copy = Ledger { entries, locks };
        assert(copy@.funds =~= self@.funds);
        copy
    }
}

/// An account has one frozen amount: two amounts that are both its largest lock are
/// the same.
pub proof fn lemma_frozen_unique(v: LedgerView, who: AccountId, a: Balance, b: Balance)
    requires
        v.is_frozen(who, a),
    ensures
        v.is_frozen(who, b) ==> a == b,
        v.frozen(who) == a,
{
    if v.is_frozen(who, b) {
        if a != 0 {
            let id = choose|id: LockId| #[trigger]
                v.locks.contains_key((who, id)) && v.locks[(who, id)] == a;
            assert(v.locks.contains_key((who, id)));
        }
        if b != 0 {
            let id = choose|id: LockId| #[trigger]
                v.locks.contains_key((who, id)) && v.locks[(who, id)] == b;
            assert(v.locks.contains_key((who, id)));
        }
    }
    let c = v.frozen(who);
    assert(v.is_frozen(who, c));
    if a != 0 {
        let id = choose|id: LockId| #[trigger]
            v.locks.contains_key((who, id)) && v.locks[(who, id)] == a;
        assert(v.locks.contains_key((who, id)));
    }
    if c != 0 {
        let id = choose|id: LockId| #[trigger]
            v.locks.contains_key((who, id)) && v.locks[(who, id)] == c;
        assert(v.locks.contains_key((who, id)));
    }
}

} // verus!
