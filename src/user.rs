//! Users as the rest of the library sees them. Times are milliseconds
//! since the Unix epoch; a birthday is a day number counted from
//! 1970-01-01.

use vstd::prelude::*;

verus! {

/// A user's group, which decides what the user may do.
#[derive(Debug, Clone, Copy, PartialEq, Eq, Default, Structural)]
pub enum Group {
    Admin,
    Moderator,
    /// May view blog drafts and see more details.
    #[default]
    User,
}

/// How often a user receives a usage report.
#[derive(Debug, Clone, Copy, PartialEq, Eq, Hash, Structural)]
pub enum ReportIntervals {
    Daily,
    Weekly,
    Monthly,
    Quarterly,
    /// Processed on the first of January.
    Yearly,
}

/// What a user shares publicly.
#[derive(Debug, Clone, Copy, PartialEq, Eq, PartialOrd, Ord, Hash, Structural)]
pub struct Preferences {
    pub share_editors: bool,
    pub share_operating_systems: bool,
    pub share_languages: bool,
    pub share_labels: bool,
    pub share_projects: bool,
}

impl Default for Preferences {
    /// Everything is shared.
    fn default() -> (r: Self)
        ensures
            r.share_editors && r.share_operating_systems && r.share_languages
                && r.share_labels && r.share_projects,
    {
        Preferences {
            share_editors: true,
            share_operating_systems: true,
            share_languages: true,
            share_labels: true,
            share_projects: true,
        }
    }
}

#[derive(Debug, Clone, PartialEq, Eq, Hash)]
pub enum Pronouns {
    HeHim,
    SheHer,
    TheyThem,
    Other(String),
}

/// The free-form profile of a user.
#[derive(Debug, Clone, PartialEq, Eq, Hash, Default)]
pub struct Bio {
    pub pronouns: Option<Pronouns>,
    pub location: Option<String>,
    pub bio: Option<String>,
    /// Days since 1970-01-01.
    pub birthday: Option<i32>,
    pub website: Option<String>,
    pub discord: Option<String>,
    pub github: Option<String>,
}

/// A user account, without its password.
#[derive(Debug, Clone, PartialEq, Eq)]
pub struct User {
    pub id: i64,
    pub name: String,
    pub username: String,
    pub bio: Bio,
    pub email: String,
    pub email_verified_at: Option<i64>,
    pub group: Group,
    pub receive_email_notifications: bool,
    pub require_password_change: bool,
    pub password_changed_at: i64,
    pub location: String,
    pub show_on_leader_board: bool,
    pub report_interval: Vec<ReportIntervals>,
    pub preferences: Preferences,
    pub banned: bool,
    pub last_logged_in: i64,
    pub created: i64,
}

/// The few details of a user that lists show.
#[derive(Debug, Clone, PartialEq, Eq)]
pub struct TinyUser {
    pub id: i64,
    pub name: String,
    pub username: String,
    pub group: Group,
    pub show_on_leader_board: bool,
    pub preferences: Preferences,
    pub banned: bool,
}

/// A user row as the user table stores it, password hash included.
#[derive(Debug, Clone, PartialEq, Eq)]
pub struct UserModel {
    pub id: i64,
    pub name: String,
    pub username: String,
    pub bio: Bio,
    pub email: String,
    pub email_verified_at: Option<i64>,
    pub group: Group,
    pub receive_email_notifications: bool,
    /// The password's hash; never sent out.
    pub password: String,
    pub require_password_change: bool,
    pub password_changed_at: i64,
    pub location: String,
    pub show_on_leader_board: bool,
    pub report_interval: Vec<ReportIntervals>,
    pub preferences: Preferences,
    pub banned: bool,
    pub last_logged_in: i64,
    pub created: i64,
}

/// The user of a row: every field but the password hash.
pub open spec fn user_of(m: UserModel) -> User {
    User {
        id: m.id,
        name: m.name,
        username: m.username,
        bio: m.bio,
        email: m.email,
        email_verified_at: m.email_verified_at,
        group: m.group,
        receive_email_notifications: m.receive_email_notifications,
        require_password_change: m.require_password_change,
        password_changed_at: m.password_changed_at,
        location: m.location,
        show_on_leader_board: m.show_on_leader_board,
        report_interval: m.report_interval,
        preferences: m.preferences,
        banned: m.banned,
        last_logged_in: m.last_logged_in,
        created: m.created,
    }
}

impl UserModel {
    /// Whether the holder of this account may log in once the password has
    /// been checked: the password must match, and the email must be
    /// verified unless the user is an admin.
    pub open spec fn spec_may_log_in(&self, password_matches: bool) -> bool {
        password_matches && (self.email_verified_at is Some || self.group == Group::Admin)
    }

    pub fn may_log_in(&self, password_matches: bool) -> (r: bool)
        ensures
            r == self.spec_may_log_in(password_matches),
    {
        password_matches && (self.email_verified_at.is_some() || self.group == Group::Admin)
    }
}

impl User {
    /// The user of a row, without its password hash.
    pub fn from(model: UserModel) -> (r: User)
        ensures
            r == user_of(model),
    {
        User {
            id: model.id,
            name: model.name,
            username: model.username,
            bio: model.bio,
            email: model.email,
            email_verified_at: model.email_verified_at,
            group: model.group,
            receive_email_notifications: model.receive_email_notifications,
            require_password_change: model.require_password_change,
            password_changed_at: model.password_changed_at,
            location: model.location,
            show_on_leader_board: model.show_on_leader_board,
            report_interval: model.report_interval,
            preferences: model.preferences,
            banned: model.banned,
            last_logged_in: model.last_logged_in,
            created: model.created,
        }
    }

    pub fn id(&self) -> (r: i64)
        ensures
            r == self.id,
    {
        self.id
    }
}

/// The details of a user that the account page shows.
#[derive(Debug, Clone, PartialEq, Eq)]
pub struct FullUser {
    pub id: i64,
    pub name: String,
    pub username: String,
    pub email: String,
    /// The password's hash; never sent out.
    pub password: String,
    pub group: Group,
    pub require_password_change: bool,
    pub banned: bool,
    pub created: i64,
}

} // verus!
