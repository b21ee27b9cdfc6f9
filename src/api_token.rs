//! API tokens: long-lived credentials that editor plugins and the
//! command-line client present instead of a session.

use vstd::prelude::*;

verus! {

/// Permissions, or scopes, of an API token.
#[derive(Debug, Clone, Copy, PartialEq, Eq, Hash, Structural)]
pub enum APITokenPermissions {
    /// Push heartbeats; the editor plugins need it.
    WriteHeartbeat,
    /// Pull heartbeats; the editor plugins need it.
    ReadHeartbeat,
    /// Read usage; the editor plugins need it.
    ReadUsage,
}

/// Permissions, or scopes, of an API key as the key table stores them.
#[derive(Debug, Clone, Copy, PartialEq, Eq, Hash, Structural)]
pub enum APIKeyPermissions {
    WriteHeartbeat,
    ReadHeartbeat,
    ReadUsage,
}

/// What a command-line client says of itself when it asks for a token.
#[derive(Debug, Default, PartialEq, Eq)]
pub struct FromCLI {
    pub machine_hostname: String,
    pub cli_version: String,
    pub cli_platform: String,
    pub cli_commit: String,
}

impl Clone for FromCLI {
    fn clone(&self) -> (r: Self)
        ensures
            r == *self,
    {
        FromCLI {
            machine_hostname: self.machine_hostname.clone(),
            cli_version: self.cli_version.clone(),
            cli_platform: self.cli_platform.clone(),
            cli_commit: self.cli_commit.clone(),
        }
    }
}

/// A stored API token, without its secret. Times are milliseconds since
/// the Unix epoch.
#[derive(Debug, Clone, PartialEq, Eq)]
pub struct APIToken {
    pub id: i64,
    /// The owning user's id.
    pub user_id: i64,
    pub permissions: Vec<APITokenPermissions>,
    pub from_cli: Option<FromCLI>,
    /// When the token was revoked. A revoked token is kept for a while for
    /// warnings and logging, and is never accepted.
    pub revoked: Option<i64>,
    pub expires_at: Option<i64>,
    pub created: i64,
}

impl APIToken {
    /// The token may be used at `now`: it is not revoked, and it has no
    /// expiry or its expiry is not before `now`.
    pub open spec fn active_at(&self, now: int) -> bool {
        &&& self.revoked is None
        &&& match self.expires_at {
            Some(e) => e >= now,
            None => true,
        }
    }

    pub fn is_active(&self, now: i64) -> (r: bool)
        ensures
            r == self.active_at(now as int),
    {
        if self.revoked.is_some() {
            return false;
        }
        match self.expires_at {
            Some(e) => e >= now,
            None => true,
        }
    }
}

} // verus!
