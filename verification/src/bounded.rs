//! The bounded collections of `frame_support` that the stored records hold, each with a
//! name for what it contains and one wrapper for every method that the engine calls.
//!
//! Nothing in this file is proved: each contract restates what the source of the
//! collection shows, over the name of its contents.

use vstd::prelude::*;
use frame_support::traits::ConstU32;
use frame_support::{BoundedBTreeMap, BoundedVec};
use crate::arbitration::Vote;
use crate::primitives::AccountId;

verus! {

/// The most jurors that one round can seat, and the most accounts that one pool or one
/// list of applicants can hold.
pub const MAX_ACCOUNTS: u32 = 100;

/// The most bytes of an address of evidence, of a project or of a piece of work.
pub const MAX_URI_BYTES: u32 = 256;

/// `frame_support::BoundedVec`, a vector that its type `S` keeps within a bound.
/// Nothing is known of a value of it but what the wrappers below say.
#[verifier::external_type_specification]
#[verifier::external_body]
#[verifier::reject_recursive_types(T)]
#[verifier::reject_recursive_types(S)]
pub struct ExBoundedVec<T, S>(BoundedVec<T, S>);

/// `frame_support::BoundedBTreeMap`, an ordered map that its type `S` keeps within a
/// bound. Nothing is known of a value of it but what the wrappers below say.
#[verifier::external_type_specification]
#[verifier::external_body]
#[verifier::reject_recursive_types(K)]
#[verifier::reject_recursive_types(V)]
#[verifier::reject_recursive_types(S)]
pub struct ExBoundedBTreeMap<K, V, S>(BoundedBTreeMap<K, V, S>);

/// `frame_support::traits::ConstU32`, the type that stands for the bound `N`.
#[verifier::external_type_specification]
#[verifier::external_body]
pub struct ExConstU32<const N: u32>(ConstU32<N>);

/// A list of at most a hundred accounts, in the order in which they were added.
pub type AccountList = BoundedVec<AccountId, ConstU32<100>>;

/// The jurors of one round in the order of their selection, each with the flag that
/// says whether the juror has voted.
pub type Jury = BoundedVec<(AccountId, bool), ConstU32<100>>;

/// At most 256 bytes: the address of a document.
pub type Uri = BoundedVec<u8, ConstU32<256>>;

/// The votes of one round by juror, at most a hundred of them.
pub type Ballots = BoundedBTreeMap<AccountId, Vote, ConstU32<100>>;

/// The accounts that an [`AccountList`] holds, first added first.
pub uninterp spec fn account_list_items(list: AccountList) -> Seq<AccountId>;

/// The seats that a [`Jury`] holds, first selected first.
pub uninterp spec fn jury_seats(jury: Jury) -> Seq<(AccountId, bool)>;

/// The bytes that a [`Uri`] holds.
pub uninterp spec fn uri_bytes(uri: Uri) -> Seq<u8>;

/// The votes that [`Ballots`] hold, each with its juror, in the ascending order of the
/// jurors: the order in which the map holds and walks them.
pub uninterp spec fn ballots_cast(ballots: Ballots) -> Seq<(AccountId, Vote)>;

/// `BoundedVec::new`: a list that holds nothing.
#[verifier::external_body]
pub(crate) fn account_list_new() -> (list: AccountList)
    ensures
        account_list_items(list) == Seq::<AccountId>::empty(),
{
    BoundedVec::new()
}

/// `Vec::len` through the list's `Deref`: the number of accounts held, which the type
/// keeps within its bound.
#[verifier::external_body]
pub(crate) fn account_list_len(list: &AccountList) -> (n: usize)
    ensures
        n == account_list_items(*list).len(),
        n <= MAX_ACCOUNTS,
{
    list.len()
}

/// `Index::index` of the list: the account at a position within the length.
#[verifier::external_body]
pub(crate) fn account_list_get(list: &AccountList, i: usize) -> (who: AccountId)
    requires
        i < account_list_items(*list).len(),
    ensures
        who == account_list_items(*list)[i as int],
{
    list[i]
}

/// `BoundedVec::try_push`: appends while fewer than the bound are held, and otherwise
/// hands the account back and leaves the list as it was.
#[verifier::external_body]
pub(crate) fn account_list_try_push(list: &mut AccountList, who: AccountId) -> (r: Result<(), AccountId>)
    ensures
        match r {
            Ok(_) => account_list_items(*old(list)).len() < MAX_ACCOUNTS
                && account_list_items(*final(list)) == account_list_items(*old(list)).push(who),
            Err(back) => account_list_items(*old(list)).len() >= MAX_ACCOUNTS && back == who
                && account_list_items(*final(list)) == account_list_items(*old(list)),
        },
{
    list.try_push(who)
}

/// `BoundedVec::swap_remove`: takes out the account at a position within the length and
/// puts the last account in its place.
#[verifier::external_body]
pub(crate) fn account_list_swap_remove(list: &mut AccountList, i: usize) -> (who: AccountId)
    requires
        i < account_list_items(*old(list)).len(),
    ensures
        who == account_list_items(*old(list))[i as int],
        account_list_items(*final(list)) == account_list_items(*old(list)).update(
            i as int, account_list_items(*old(list)).last()).drop_last(),
{
    list.swap_remove(i)
}

/// `BoundedVec::new`: a jury without seats.
#[verifier::external_body]
pub(crate) fn jury_new() -> (jury: Jury)
    ensures
        jury_seats(jury) == Seq::<(AccountId, bool)>::empty(),
{
    BoundedVec::new()
}

/// `Vec::len` through the jury's `Deref`: the number of seats, which the type keeps
/// within its bound.
#[verifier::external_body]
pub(crate) fn jury_len(jury: &Jury) -> (n: usize)
    ensures
        n == jury_seats(*jury).len(),
        n <= MAX_ACCOUNTS,
{
    jury.len()
}

/// `Index::index` of the jury: the seat at a position within the length.
#[verifier::external_body]
pub(crate) fn jury_get(jury: &Jury, i: usize) -> (seat: (AccountId, bool))
    requires
        i < jury_seats(*jury).len(),
    ensures
        seat == jury_seats(*jury)[i as int],
{
    jury[i]
}

/// `BoundedVec::try_push`: appends a seat while fewer than the bound are held, and
/// otherwise hands the seat back and leaves the jury as it was.
#[verifier::external_body]
pub(crate) fn jury_try_push(jury: &mut Jury, seat: (AccountId, bool)) -> (r: Result<(), (AccountId, bool)>)
    ensures
        match r {
            Ok(_) => jury_seats(*old(jury)).len() < MAX_ACCOUNTS
                && jury_seats(*final(jury)) == jury_seats(*old(jury)).push(seat),
            Err(back) => jury_seats(*old(jury)).len() >= MAX_ACCOUNTS && back == seat
                && jury_seats(*final(jury)) == jury_seats(*old(jury)),
        },
{
    jury.try_push(seat)
}

/// `IndexMut::index_mut` of the jury: overwrites the seat at a position within the
/// length.
#[verifier::external_body]
pub(crate) fn jury_set(jury: &mut Jury, i: usize, seat: (AccountId, bool))
    requires
        i < jury_seats(*old(jury)).len(),
    ensures
        jury_seats(*final(jury)) == jury_seats(*old(jury)).update(i as int, seat),
{
    jury[i] = seat;
}

/// `Vec::len` through the `Deref` of a [`Uri`]: the number of bytes held, which the
/// type keeps within its bound.
#[verifier::external_body]
pub(crate) fn uri_len(uri: &Uri) -> (n: usize)
    ensures
        n == uri_bytes(*uri).len(),
        n <= MAX_URI_BYTES,
{
    uri.len()
}

/// `TryFrom<Vec<u8>>` of a [`Uri`]: takes the bytes where they are within the bound, and
/// hands them back where they are more.
#[verifier::external_body]
pub(crate) fn uri_try_from(bytes: Vec<u8>) -> (r: Result<Uri, Vec<u8>>)
    ensures
        match r {
            Ok(uri) => bytes@.len() <= MAX_URI_BYTES && uri_bytes(uri) == bytes@,
            Err(back) => bytes@.len() > MAX_URI_BYTES && back@ == bytes@,
        },
{
    BoundedVec::try_from(bytes)
}

/// `Clone::clone` of a [`Uri`]: a second value with the same bytes.
#[verifier::external_body]
pub(crate) fn uri_clone(uri: &Uri) -> (copy: Uri)
    ensures
        uri_bytes(copy) == uri_bytes(*uri),
{
    uri.clone()
}

/// Whether votes stand in the strictly ascending order of their jurors.
pub open spec fn ascending(cast: Seq<(AccountId, Vote)>) -> bool {
    forall|i: int, j: int| 0 <= i < j < cast.len() ==> cast[i].0 < cast[j].0
}

/// Whether a juror has a vote among the votes.
pub open spec fn has_voted(cast: Seq<(AccountId, Vote)>, who: AccountId) -> bool {
    exists|i: int| 0 <= i < cast.len() && cast[i].0 == who
}

/// The place of the vote of a juror that has one.
pub open spec fn place_of(cast: Seq<(AccountId, Vote)>, who: AccountId) -> int {
    choose|i: int| 0 <= i < cast.len() && cast[i].0 == who
}

/// The vote that a juror has among the votes, if it has one.
pub open spec fn vote_of(cast: Seq<(AccountId, Vote)>, who: AccountId) -> Option<Vote> {
    if has_voted(cast, who) {
        Some(cast[place_of(cast, who)].1)
    } else {
        None
    }
}

/// The number of votes, at the head of ascending votes, whose juror is below `who`.
pub open spec fn lower_bound(cast: Seq<(AccountId, Vote)>, who: AccountId) -> int
    decreases cast.len(),
{
    if cast.len() == 0 {
        0
    } else if cast.last().0 < who {
        cast.len() as int
    } else {
        lower_bound(cast.drop_last(), who)
    }
}

/// Ascending votes after the vote of a juror was set: in place of the vote that the
/// juror had, or at the place that keeps the order.
pub open spec fn with_vote(cast: Seq<(AccountId, Vote)>, who: AccountId, vote: Vote) -> Seq<
    (AccountId, Vote),
> {
    if has_voted(cast, who) {
        cast.update(place_of(cast, who), (who, vote))
    } else {
        cast.insert(lower_bound(cast, who), (who, vote))
    }
}

/// Whether ballots take the vote of a juror: fewer than the bound are held, or the
/// juror has a vote among them already.
pub open spec fn ballots_take(cast: Seq<(AccountId, Vote)>, who: AccountId) -> bool {
    cast.len() < MAX_ACCOUNTS || has_voted(cast, who)
}

/// `BoundedBTreeMap::new`: ballots without a vote.
#[verifier::external_body]
pub(crate) fn ballots_new() -> (ballots: Ballots)
    ensures
        ballots_cast(ballots) == Seq::<(AccountId, Vote)>::empty(),
{
    BoundedBTreeMap::new()
}

/// `BoundedBTreeMap::clear`: drops every vote.
#[verifier::external_body]
pub(crate) fn ballots_clear(ballots: &mut Ballots)
    ensures
        ballots_cast(*final(ballots)) == Seq::<(AccountId, Vote)>::empty(),
{
    ballots.clear()
}

/// `BoundedBTreeMap::try_insert`: where fewer votes than the bound are held, or the
/// juror has one already, sets the juror's vote and hands out the one it had; else
/// hands the pair back and leaves the ballots as they were.
#[verifier::external_body]
pub(crate) fn ballots_try_insert(ballots: &mut Ballots, who: AccountId, vote: Vote) -> (r: Result<
    Option<Vote>,
    (AccountId, Vote),
>)
    ensures
        match r {
            Ok(had) => ballots_take(ballots_cast(*old(ballots)), who)
                && ballots_cast(*final(ballots)) == with_vote(ballots_cast(*old(ballots)), who, vote)
                && had == vote_of(ballots_cast(*old(ballots)), who),
            Err(back) => !ballots_take(ballots_cast(*old(ballots)), who) && back.0 == who
                && back.1 == vote && ballots_cast(*final(ballots)) == ballots_cast(*old(ballots)),
        },
{
    ballots.try_insert(who, vote)
}

/// `BTreeMap::iter` through the `Deref` of the ballots: every vote held with its
/// juror, in the ascending order of the jurors.
#[verifier::external_body]
pub(crate) fn ballots_entries(ballots: &Ballots) -> (entries: Vec<(AccountId, Vote)>)
    ensures
        entries@ == ballots_cast(*ballots),
        ascending(entries@),
{
    ballots.iter().map(|(who, vote)| (*who, *vote)).collect()
}

} // verus!
