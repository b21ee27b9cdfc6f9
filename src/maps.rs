//! The hash maps that hold sessions and command-line pairing requests.
//! They are ahash maps keyed by `String`; what each holds is named below,
//! keyed by the key's characters, and every operation that the library
//! performs on them is a wrapper stated over that name.

use std::collections::HashMap;

use ahash::RandomState;
use vstd::prelude::*;

use crate::cli_access::{CompletedRequest, NewCLIRequest};
use crate::session::Session;

verus! {

#[verifier::external_type_specification]
#[verifier::external_body]
pub struct ExRandomState(ahash::RandomState);

/// Sessions by identifier.
pub type SessionMap = HashMap<String, Session, RandomState>;

/// Pairing requests that wait for approval, by claim key.
pub type PendingMap = HashMap<String, NewCLIRequest, RandomState>;

/// Approved pairing requests that wait for collection, by claim key.
pub type UnclaimedMap = HashMap<String, CompletedRequest, RandomState>;

/// What a session map holds.
pub uninterp spec fn session_contents(m: SessionMap) -> Map<Seq<char>, Session>;

/// What a map of pending pairing requests holds.
pub uninterp spec fn pending_contents(m: PendingMap) -> Map<Seq<char>, NewCLIRequest>;

/// What a map of completed, unclaimed pairing requests holds.
pub uninterp spec fn unclaimed_contents(m: UnclaimedMap) -> Map<Seq<char>, CompletedRequest>;

/// Relies on `HashMap::with_capacity_and_hasher` with ahash's
/// `RandomState::new`: a map that holds nothing.
#[verifier::external_body]
pub(crate) fn sessions_with_capacity(capacity: usize) -> (r: SessionMap)
    ensures
        (session_contents(r) == Map::<Seq<char>, Session>::empty()),
{
    HashMap::with_capacity_and_hasher(capacity, RandomState::new())
}

/// Relies on `HashMap::contains_key`: whether a key with these characters
/// is held.
#[verifier::external_body]
pub(crate) fn sessions_contains(m: &SessionMap, k: &str) -> (r: bool)
    ensures
        r == session_contents(*m).contains_key(k@),
{
    m.contains_key(k)
}

/// Relies on `HashMap::get`: the value held under the key, if any.
#[verifier::external_body]
pub(crate) fn sessions_get<'a>(m: &'a SessionMap, k: &str) -> (r: Option<&'a Session>)
    ensures
        match r {
            Some(v) => session_contents(*m).contains_key(k@) && *v == session_contents(*m)[k@],
            None => !session_contents(*m).contains_key(k@),
        },
{
    m.get(k)
}

/// Relies on `HashMap::insert`: the key now maps to the value, and no other
/// key changes.
#[verifier::external_body]
pub(crate) fn sessions_insert(m: &mut SessionMap, k: String, v: Session)
    ensures
        session_contents(*final(m)) == session_contents(*old(m)).insert(k@, v),
{
    m.insert(k, v);
}

/// Relies on `HashMap::remove`: the key is no longer held, and no other key
/// changes.
#[verifier::external_body]
pub(crate) fn sessions_remove(m: &mut SessionMap, k: &str)
    ensures
        session_contents(*final(m)) == session_contents(*old(m)).remove(k@),
{
    m.remove(k);
}

/// Relies on `HashMap::retain`: exactly the entries whose session has not
/// expired at `now` are kept.
#[verifier::external_body]
pub(crate) fn sessions_retain_unexpired(m: &mut SessionMap, now: i64)
    ensures
        session_contents(*final(m)) == session_contents(*old(m)).restrict(
            session_contents(*old(m)).dom().filter(|k: Seq<char>| !session_contents(*old(m))[k].expired_at(now as int)),
        ),
{
    m.retain(|_, s| s.is_live(now));
}

/// Relies on `HashMap::retain`: exactly the entries whose session belongs
/// to another user than `user_id` are kept.
#[verifier::external_body]
pub(crate) fn sessions_retain_other_users(m: &mut SessionMap, user_id: i64)
    ensures
        session_contents(*final(m)) == session_contents(*old(m)).restrict(
            session_contents(*old(m)).dom().filter(|k: Seq<char>| session_contents(*old(m))[k].user_id != user_id),
        ),
{
    m.retain(|_, s| s.belongs_to_other(user_id));
}

/// Relies on `HashMap::keys`: each held key once, in an order that the
/// map chooses.
#[verifier::external_body]
pub(crate) fn sessions_keys(m: &SessionMap) -> (r: Vec<String>)
    ensures
        r@.len() == session_contents(*m).len(),
        forall|i: int| 0 <= i < r@.len() ==> session_contents(*m).contains_key(#[trigger] r@[i]@),
        forall|i: int, j: int| 0 <= i < j < r@.len() ==> r@[i]@ != r@[j]@,
{
    m.keys().cloned().collect()
}

/// Relies on `HashMap::default` with ahash's `RandomState`: a map that
/// holds nothing.
#[verifier::external_body]
pub(crate) fn pending_new() -> (r: PendingMap)
    ensures
        (pending_contents(r) == Map::<Seq<char>, NewCLIRequest>::empty()),
{
    HashMap::default()
}

/// Relies on `HashMap::contains_key`: whether a key with these characters
/// is held.
#[verifier::external_body]
pub(crate) fn pending_contains(m: &PendingMap, k: &str) -> (r: bool)
    ensures
        r == pending_contents(*m).contains_key(k@),
{
    m.contains_key(k)
}

/// Relies on `HashMap::get`: the value held under the key, if any.
#[verifier::external_body]
pub(crate) fn pending_get<'a>(m: &'a PendingMap, k: &str) -> (r: Option<&'a NewCLIRequest>)
    ensures
        match r {
            Some(v) => pending_contents(*m).contains_key(k@) && *v == pending_contents(*m)[k@],
            None => !pending_contents(*m).contains_key(k@),
        },
{
    m.get(k)
}

/// Relies on `HashMap::insert`: the key now maps to the value, and no other
/// key changes.
#[verifier::external_body]
pub(crate) fn pending_insert(m: &mut PendingMap, k: String, v: NewCLIRequest)
    ensures
        pending_contents(*final(m)) == pending_contents(*old(m)).insert(k@, v),
{
    m.insert(k, v);
}

/// Relies on `HashMap::remove`: the value that was held under the key, if
/// any; the key is no longer held, and no other key changes.
#[verifier::external_body]
pub(crate) fn pending_remove(m: &mut PendingMap, k: &str) -> (r: Option<NewCLIRequest>)
    ensures
        pending_contents(*final(m)) == pending_contents(*old(m)).remove(k@),
        match r {
            Some(v) => pending_contents(*old(m)).contains_key(k@) && v == pending_contents(*old(m))[k@],
            None => !pending_contents(*old(m)).contains_key(k@),
        },
{
    m.remove(k)
}

/// Relies on `HashMap::default` with ahash's `RandomState`: a map that
/// holds nothing.
#[verifier::external_body]
pub(crate) fn unclaimed_new() -> (r: UnclaimedMap)
    ensures
        (unclaimed_contents(r) == Map::<Seq<char>, CompletedRequest>::empty()),
{
    HashMap::default()
}

/// Relies on `HashMap::insert`: the key now maps to the value, and no other
/// key changes.
#[verifier::external_body]
pub(crate) fn unclaimed_insert(m: &mut UnclaimedMap, k: String, v: CompletedRequest)
    ensures
        unclaimed_contents(*final(m)) == unclaimed_contents(*old(m)).insert(k@, v),
{
    m.insert(k, v);
}

/// Relies on `HashMap::remove`: the value that was held under the key, if
/// any; the key is no longer held, and no other key changes.
#[verifier::external_body]
pub(crate) fn unclaimed_remove(m: &mut UnclaimedMap, k: &str) -> (r: Option<CompletedRequest>)
    ensures
        unclaimed_contents(*final(m)) == unclaimed_contents(*old(m)).remove(k@),
        match r {
            Some(v) => unclaimed_contents(*old(m)).contains_key(k@) && v == unclaimed_contents(*old(m))[k@],
            None => !unclaimed_contents(*old(m)).contains_key(k@),
        },
{
    m.remove(k)
}

} // verus!
