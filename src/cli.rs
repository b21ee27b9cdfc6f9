//! The command-line pairing exchange, as its three endpoints see it.
//!
//! A client starts a request and gets a claim key; a person who is logged
//! in approves the request in a browser, which issues an API token; the
//! client polls with its key and collects the token once, from the address
//! it started from.

use vstd::prelude::*;

use crate::api_token::{APIToken, FromCLI};
use crate::cli_access::{pending_created, CLIAccess, CompletedRequest};
use crate::keys::{is_alphanumeric_of_len, CLAIM_KEY_LENGTH};
use crate::session::StorageError;

verus! {

/// The body of a request to start pairing.
#[derive(Debug, Clone, PartialEq, Eq)]
pub struct NewCLIRequest {
    /// The account that the client expects to be approved by, if it knows.
    pub username: Option<String>,
    pub from_cli: FromCLI,
}

/// The answer to a started pairing: the claim key, and the page where a
/// person approves the request when the server knows its own address.
#[derive(Debug, Clone, PartialEq, Eq)]
pub struct InitSessionResponse {
    pub token: String,
    pub absolute_url: Option<String>,
}

/// The path, below the server's home address, of the approval page.
pub open spec fn approval_path() -> Seq<char> {
    "/login-cli/"@
}

/// The approval page of `key` below `home`.
pub open spec fn approval_url(home: Seq<char>, key: Seq<char>) -> Seq<char> {
    home + approval_path() + key
}

/// Starts a pairing request from `ip_address` and answers with its claim
/// key, and with the approval page's address when `home_url` is set.
pub fn init_session(
    cli_access: &mut CLIAccess,
    body: NewCLIRequest,
    ip_address: String,
    home_url: &Option<String>,
) -> (r: Result<InitSessionResponse, StorageError>)
    ensures
        final(cli_access).unclaimed() == old(cli_access).unclaimed(),
        old(cli_access).pending().dom() =~= Set::<Seq<char>>::empty() ==> r is Ok,
        pending_created(
            old(cli_access).pending(),
            final(cli_access).pending(),
            body.from_cli,
            body.username,
            ip_address,
            match r {
                Ok(resp) => Ok(resp.token),
                Err(e) => Err(e),
            },
        ),
        match r {
            Ok(resp) => match *home_url {
                Some(home) => resp.absolute_url matches Some(u) && u@ == approval_url(home@, resp.token@),
                None => resp.absolute_url is None,
            },
            Err(_) => true,
        },
{
    let key = cli_access.create_new_pending_access(body.from_cli, body.username, ip_address)?;
    let absolute_url = match home_url {
        Some(home) => {
            let url = home.clone().concat("/login-cli/").concat(key.as_str());
            Some(url)
        },
        None => None,
    };
    Ok(InitSessionResponse { token: key, absolute_url })
}

/// What a client that polls for its token is told.
#[derive(Debug, Clone, PartialEq, Eq)]
pub enum RetrieveResult {
    /// Nothing has been approved under the key, or its token was already
    /// collected.
    StillPending,
    /// The key was approved for another address; the approval is dropped.
    Unauthorized,
    /// The issued token and its secret.
    Ready { api_token: APIToken, token: String },
}

impl RetrieveResult {
    /// The HTTP status that answers the result.
    pub open spec fn spec_status_code(self) -> u16 {
        match self {
            RetrieveResult::StillPending => 102,
            RetrieveResult::Unauthorized => 401,
            RetrieveResult::Ready { .. } => 200,
        }
    }

    pub fn status_code(&self) -> (r: u16)
        ensures
            r == self.spec_status_code(),
    {
        match self {
            RetrieveResult::StillPending => 102,
            RetrieveResult::Unauthorized => 401,
            RetrieveResult::Ready { .. } => 200,
        }
    }
}

/// What polling `key` from `ip_address` answers when `unclaimed` holds the
/// approved requests.
pub open spec fn retrieval(unclaimed: Map<Seq<char>, CompletedRequest>, key: Seq<char>, ip_address: Seq<char>) -> RetrieveResult {
    if !unclaimed.contains_key(key) {
        RetrieveResult::StillPending
    } else if unclaimed[key].ip_address@ != ip_address {
        RetrieveResult::Unauthorized
    } else {
        RetrieveResult::Ready { api_token: unclaimed[key].api_token, token: unclaimed[key].token }
    }
}

/// A poll that took the approved request under `key`, if any, out of
/// `before` and answered `r`.
pub open spec fn retrieved(
    before: Map<Seq<char>, CompletedRequest>,
    after: Map<Seq<char>, CompletedRequest>,
    key: Seq<char>,
    ip_address: Seq<char>,
    r: RetrieveResult,
) -> bool {
    &&& after == before.remove(key)
    &&& r == retrieval(before, key, ip_address)
}

/// An approved request is handed out once: of any number of polls for
/// its key, one after the other, only the first can get its token (it
/// does when it comes from the request's address), and every later one is
/// told that nothing is ready.
pub proof fn lemma_token_collected_once(
    states: Seq<Map<Seq<char>, CompletedRequest>>,
    addresses: Seq<Seq<char>>,
    results: Seq<RetrieveResult>,
    key: Seq<char>,
)
    requires
        states.len() == results.len() + 1,
        addresses.len() == results.len(),
        forall|i: int| 0 <= i < results.len() ==> retrieved(#[trigger] states[i], states[i + 1], key, addresses[i], results[i]),
    ensures
        forall|i: int| 1 <= i < results.len() ==> #[trigger] results[i] == RetrieveResult::StillPending,
        results.len() > 0 && states[0].contains_key(key) && states[0][key].ip_address@ == addresses[0]
            ==> results[0] == (RetrieveResult::Ready { api_token: states[0][key].api_token, token: states[0][key].token }),
{
    assert forall|i: int| 1 <= i < results.len() implies #[trigger] results[i] == RetrieveResult::StillPending by {
        assert(retrieved(states[i - 1], states[i], key, addresses[i - 1], results[i - 1]));
        assert(retrieved(states[i], states[i + 1], key, addresses[i], results[i]));
        assert(!states[i].contains_key(key));
    }
    if results.len() > 0 {
        assert(retrieved(states[0], states[1], key, addresses[0], results[0]));
    }
}

/// A poll from another address than the approved request's never gets its
/// token, and drops the request: a later poll, from any address, is told
/// that nothing is ready.
pub proof fn lemma_mismatched_address_discards(
    u0: Map<Seq<char>, CompletedRequest>,
    u1: Map<Seq<char>, CompletedRequest>,
    u2: Map<Seq<char>, CompletedRequest>,
    key: Seq<char>,
    ip1: Seq<char>,
    ip2: Seq<char>,
    r1: RetrieveResult,
    r2: RetrieveResult,
)
    requires
        u0.contains_key(key),
        u0[key].ip_address@ != ip1,
        retrieved(u0, u1, key, ip1, r1),
        retrieved(u1, u2, key, ip2, r2),
    ensures
        r1 == RetrieveResult::Unauthorized,
        r2 == RetrieveResult::StillPending,
{
}

/// Answers a client polling with `key` from `ip_address`. An approved
/// request is taken out whatever the answer: its token is handed out once,
/// and an address mismatch drops it rather than leaving it for another try.
pub fn retrieve_result(cli_access: &mut CLIAccess, key: &str, ip_address: &str) -> (r: RetrieveResult)
    ensures
        retrieved(old(cli_access).unclaimed(), final(cli_access).unclaimed(), key@, ip_address@, r),
        final(cli_access).pending() == old(cli_access).pending(),
{
    match cli_access.get_unclaimed_access(key) {
        None => RetrieveResult::StillPending,
        Some(completed) => {
            let requester = ip_address.to_owned();
            if !(completed.ip_address == requester) {
                RetrieveResult::Unauthorized
            } else {
                RetrieveResult::Ready { api_token: completed.api_token, token: completed.token }
            }
        },
    }
}

} // verus!
