//! Accounts of other applications that a user has connected.

use vstd::prelude::*;

verus! {

/// An application that a user can connect.
#[derive(Debug, Clone, Copy, PartialEq, Eq, Hash, Structural)]
pub enum Application {
    Github,
    WakaTime,
}

/// A connection as other users may see it. `other_data` is the JSON text
/// that the application provided, such as a username. Times are
/// milliseconds since the Unix epoch.
#[derive(Debug, Clone, PartialEq, Eq)]
pub struct PubConnection {
    pub id: i64,
    pub user_id: i64,
    pub other_data: Option<String>,
    pub application: Application,
    pub created: i64,
}

/// The part of a stored connection that is never shown to other users.
#[derive(Debug, Clone, PartialEq, Eq)]
pub struct RestOfConnection {
    pub other_data_private: Option<String>,
    /// For applications other than WakaTime, the refresh token.
    pub token: String,
    pub expires_at: Option<i64>,
}

/// A stored connection, whole.
#[derive(Debug, Clone, PartialEq, Eq)]
pub struct Connection {
    pub id: i64,
    pub user_id: i64,
    pub other_data: Option<String>,
    pub other_data_private: Option<String>,
    pub application: Application,
    pub token: String,
    pub expires_at: Option<i64>,
    pub created: i64,
}

impl PubConnection {
    /// The whole connection, given its private part as the connection table
    /// holds it; `None` when the table no longer holds the connection.
    pub fn into_full(self, rest: Option<RestOfConnection>) -> (r: Option<Connection>)
        ensures
            match rest {
                None => r is None,
                Some(p) => r == Some(Connection {
                    id: self.id,
                    user_id: self.user_id,
                    other_data: self.other_data,
                    other_data_private: p.other_data_private,
                    application: self.application,
                    token: p.token,
                    expires_at: p.expires_at,
                    created: self.created,
                }),
            },
    {
        let PubConnection { id, user_id, other_data, application, created } = self;
        match rest {
            None => None,
            Some(RestOfConnection { other_data_private, token, expires_at }) => Some(Connection {
                id,
                user_id,
                other_data,
                other_data_private,
                application,
                token,
                expires_at,
                created,
            }),
        }
    }
}

/// The connections of one user.
#[derive(Debug, Clone, PartialEq, Eq, Default)]
pub struct UserConnections(pub Vec<PubConnection>);

/// No two of `c` are connections of the same application.
pub open spec fn one_per_application(c: Seq<PubConnection>) -> bool {
    forall|i: int, j: int| 0 <= i < j < c.len() ==> c[i].application != c[j].application
}

impl UserConnections {
    /// The first connection of `application`, if any.
    pub fn get_by_type(&self, application: Application) -> (r: Option<&PubConnection>)
        ensures
            match r {
                Some(c) => exists|i: int| 0 <= i < self.0@.len() && #[trigger] self.0@[i] == *c
                    && c.application == application
                    && forall|j: int| 0 <= j < i ==> self.0@[j].application != application,
                None => forall|j: int| 0 <= j < self.0@.len() ==> self.0@[j].application != application,
            },
    {
        let mut i: usize = 0;
        while i < self.0.len()
            invariant
                0 <= i <= self.0@.len(),
                forall|j: int| 0 <= j < i ==> self.0@[j].application != application,
            decreases self.0@.len() - i,
        {
            if self.0[i].application == application {
                return Some(&self.0[i]);
            }
            i += 1;
        }
        None
    }

    /// Whether there is at most one connection per application.
    pub fn is_valid(&self) -> (r: bool)
        ensures
            r == one_per_application(self.0@),
    {
        let mut i: usize = 0;
        while i < self.0.len()
            invariant
                0 <= i <= self.0@.len(),
                forall|a: int, b: int| 0 <= a < b < i ==> self.0@[a].application != self.0@[b].application,
            decreases self.0@.len() - i,
        {
            let mut j: usize = 0;
            while j < i
                invariant
                    0 <= j <= i < self.0@.len(),
                    forall|a: int| 0 <= a < j ==> self.0@[a].application != self.0@[i as int].application,
                decreases i - j,
            {
                if self.0[j].application == self.0[i].application {
                    return false;
                }
                j += 1;
            }
            i += 1;
        }
        true
    }
}

} // verus!
