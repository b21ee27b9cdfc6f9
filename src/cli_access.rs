//! The store behind the command-line pairing exchange: requests that wait
//! for a person's approval, and approved requests that wait for the client
//! to collect their token.

use std::collections::HashMap;

use ahash::RandomState;
use vstd::prelude::*;

use crate::api_token::{APIToken, FromCLI};
use crate::clock::now_millis;
use crate::keys::{is_alphanumeric_of_len, random_alphanumeric, CLAIM_KEY_LENGTH};
use crate::maps::{
    pending_contains, pending_contents, pending_get, pending_insert, pending_new,
    pending_remove, unclaimed_contents, unclaimed_insert, unclaimed_new, unclaimed_remove,
};
use crate::session::{StorageError, MAX_KEY_ATTEMPTS};

verus! {

/// A pairing request that waits for a person's approval. Times are
/// milliseconds since the Unix epoch.
#[derive(Debug, PartialEq, Eq)]
pub struct NewCLIRequest {
    pub from_cli: FromCLI,
    pub username: Option<String>,
    pub ip_address: String,
    pub created_at: i64,
}

impl Clone for NewCLIRequest {
    fn clone(&self) -> (r: Self)
        ensures
            r == *self,
    {
        let username = match &self.username {
            Some(u) => Some(u.clone()),
            None => None,
        };
        NewCLIRequest {
            from_cli: self.from_cli.clone(),
            username,
            ip_address: self.ip_address.clone(),
            created_at: self.created_at,
        }
    }
}

/// An approved pairing request whose token the client has not collected.
#[derive(Debug, PartialEq, Eq)]
pub struct CompletedRequest {
    pub from_cli: FromCLI,
    pub username: Option<String>,
    /// The stored record of the token that was issued.
    pub api_token: APIToken,
    /// The token's secret, handed to the client once.
    pub token: String,
    pub ip_address: String,
    pub created_at: i64,
    pub completed_at: i64,
}

/// `after` is `before` with a new request from `from_cli`, `username` and
/// `ip_address` under a fresh claim key that was not pending; or, when no
/// free key was found, `before` unchanged.
pub open spec fn pending_created(
    before: Map<Seq<char>, NewCLIRequest>,
    after: Map<Seq<char>, NewCLIRequest>,
    from_cli: FromCLI,
    username: Option<String>,
    ip_address: String,
    r: Result<String, StorageError>,
) -> bool {
    match r {
        Ok(key) => {
            &&& is_alphanumeric_of_len(key@, CLAIM_KEY_LENGTH as nat)
            &&& !before.contains_key(key@)
            &&& after == before.insert(key@, after[key@])
            &&& after[key@].from_cli == from_cli
            &&& after[key@].username == username
            &&& after[key@].ip_address == ip_address
        },
        Err(e) => after == before && e == StorageError::KeyCollision,
    }
}

/// Two pairing requests started one after the other never get the same
/// claim key.
pub proof fn lemma_claim_keys_distinct(
    p0: Map<Seq<char>, NewCLIRequest>,
    p1: Map<Seq<char>, NewCLIRequest>,
    p2: Map<Seq<char>, NewCLIRequest>,
    from_cli1: FromCLI,
    username1: Option<String>,
    ip_address1: String,
    from_cli2: FromCLI,
    username2: Option<String>,
    ip_address2: String,
    key1: String,
    key2: String,
)
    requires
        pending_created(p0, p1, from_cli1, username1, ip_address1, Ok(key1)),
        pending_created(p1, p2, from_cli2, username2, ip_address2, Ok(key2)),
    ensures
        key1@ != key2@,
{
    assert(p1.contains_key(key1@));
}

/// What a pairing request's approval leaves: the pending request under
/// `key` is gone and an unclaimed one with the same client details, the
/// issued token and its secret stands in its place. Without a pending
/// request under `key`, nothing changes.
pub open spec fn access_completed(
    pending_before: Map<Seq<char>, NewCLIRequest>,
    pending_after: Map<Seq<char>, NewCLIRequest>,
    unclaimed_before: Map<Seq<char>, CompletedRequest>,
    unclaimed_after: Map<Seq<char>, CompletedRequest>,
    key: Seq<char>,
    api_token: APIToken,
    token: String,
    r: bool,
) -> bool {
    if pending_before.contains_key(key) {
        let p = pending_before[key];
        let c = unclaimed_after[key];
        &&& r
        &&& pending_after == pending_before.remove(key)
        &&& unclaimed_after == unclaimed_before.insert(key, c)
        &&& c.from_cli == p.from_cli
        &&& c.username == p.username
        &&& c.ip_address == p.ip_address
        &&& c.created_at == p.created_at
        &&& c.api_token == api_token
        &&& c.token == token
    } else {
        &&& !r
        &&& pending_after == pending_before
        &&& unclaimed_after == unclaimed_before
    }
}

/// The pairing requests of the process: pending ones by claim key, and
/// approved ones whose token waits to be collected.
pub struct CLIAccess {
    pending_accesses: crate::maps::PendingMap,
    unclaimed_accesses: crate::maps::UnclaimedMap,
}

impl CLIAccess {
    /// Pending requests by claim key.
    pub closed spec fn pending(&self) -> Map<Seq<char>, NewCLIRequest> {
        pending_contents(self.pending_accesses)
    }

    /// Approved requests that wait for collection, by claim key.
    pub closed spec fn unclaimed(&self) -> Map<Seq<char>, CompletedRequest> {
        unclaimed_contents(self.unclaimed_accesses)
    }

    pub fn new() -> (r: Self)
        ensures
            (r.pending() == Map::<Seq<char>, NewCLIRequest>::empty()),
            (r.unclaimed() == Map::<Seq<char>, CompletedRequest>::empty()),
    {
        CLIAccess { pending_accesses: pending_new(), unclaimed_accesses: unclaimed_new() }
    }

    /// Registers `request` under `key` when no pending request uses `key`,
    /// and tells whether it did; when it did not, nothing changes.
    pub fn register_if_free(&mut self, key: String, request: NewCLIRequest) -> (r: bool)
        ensures
            r == !old(self).pending().contains_key(key@),
            r ==> final(self).pending() == old(self).pending().insert(key@, request),
            !r ==> final(self).pending() == old(self).pending(),
            final(self).unclaimed() == old(self).unclaimed(),
    {
        if pending_contains(&self.pending_accesses, key.as_str()) {
            return false;
        }
        pending_insert(&mut self.pending_accesses, key, request);
        true
    }

    /// Registers a pending request under a fresh claim key of
    /// `CLAIM_KEY_LENGTH` letters and digits that no pending request uses,
    /// and returns the key. Draws at most `MAX_KEY_ATTEMPTS` keys, and fails
    /// with `KeyCollision` when all of them were taken, which cannot happen
    /// while nothing is pending.
    pub fn create_new_pending_access(
        &mut self,
        from_cli: FromCLI,
        username: Option<String>,
        ip_address: String,
    ) -> (r: Result<String, StorageError>)
        ensures
            pending_created(old(self).pending(), final(self).pending(), from_cli, username, ip_address, r),
            final(self).unclaimed() == old(self).unclaimed(),
            old(self).pending().dom() =~= Set::<Seq<char>>::empty() ==> r is Ok,
    {
        let request = NewCLIRequest { from_cli, username, ip_address, created_at: now_millis() };
        let mut attempt: usize = 0;
        while attempt < MAX_KEY_ATTEMPTS
            invariant
                attempt <= MAX_KEY_ATTEMPTS,
                self.pending() == old(self).pending(),
                self.unclaimed() == old(self).unclaimed(),
                request.from_cli == from_cli,
                request.username == username,
                request.ip_address == ip_address,
                attempt > 0 ==> !(old(self).pending().dom() =~= Set::<Seq<char>>::empty()),
            decreases MAX_KEY_ATTEMPTS - attempt,
        {
            let key = random_alphanumeric(CLAIM_KEY_LENGTH);
            if self.register_if_free(key.clone(), request.clone()) {
                return Ok(key);
            }
            assert(old(self).pending().dom().contains(key@));
            attempt += 1;
        }
        Err(StorageError::KeyCollision)
    }

    /// The pending request under `key`, if any.
    pub fn get_pending_access(&self, key: &str) -> (r: Option<NewCLIRequest>)
        ensures
            r == (if self.pending().contains_key(key@) {
                Some(self.pending()[key@])
            } else {
                None
            }),
    {
        match pending_get(&self.pending_accesses, key) {
            Some(request) => Some(request.clone()),
            None => None,
        }
    }

    /// Takes the pending request under `key` out, if any.
    pub fn remove_pending_access(&mut self, key: &str) -> (r: Option<NewCLIRequest>)
        ensures
            final(self).pending() == old(self).pending().remove(key@),
            final(self).unclaimed() == old(self).unclaimed(),
            r == (if old(self).pending().contains_key(key@) {
                Some(old(self).pending()[key@])
            } else {
                None
            }),
    {
        pending_remove(&mut self.pending_accesses, key)
    }

    /// Records the approval of the pending request under `key`: the request
    /// becomes an unclaimed one that holds the issued token and its secret.
    /// Returns false, and changes nothing, when no request is pending under
    /// `key`.
    pub fn complete_access(&mut self, key: &str, api_token: APIToken, token: String) -> (r: bool)
        ensures
            access_completed(
                old(self).pending(),
                final(self).pending(),
                old(self).unclaimed(),
                final(self).unclaimed(),
                key@,
                api_token,
                token,
                r,
            ),
    {
        match pending_remove(&mut self.pending_accesses, key) {
            None => {
                assert(self.pending() =~= old(self).pending());
                false
            },
            Some(request) => {
                let completed = CompletedRequest {
                    from_cli: request.from_cli,
                    username: request.username,
                    api_token,
                    token,
                    ip_address: request.ip_address,
                    created_at: request.created_at,
                    completed_at: now_millis(),
                };
                let owned_key = key.to_owned();
                unclaimed_insert(&mut self.unclaimed_accesses, owned_key, completed);
                true
            },
        }
    }

    /// Takes the approved request under `key` out, if any: it can be taken
    /// once.
    pub fn get_unclaimed_access(&mut self, key: &str) -> (r: Option<CompletedRequest>)
        ensures
            final(self).unclaimed() == old(self).unclaimed().remove(key@),
            final(self).pending() == old(self).pending(),
            r == (if old(self).unclaimed().contains_key(key@) {
                Some(old(self).unclaimed()[key@])
            } else {
                None
            }),
    {
        unclaimed_remove(&mut self.unclaimed_accesses, key)
    }
}

} // verus!
