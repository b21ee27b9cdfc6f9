//! Changes that a user makes to an account: the request bodies of the
//! account endpoints, and how each one applies.

use vstd::prelude::*;

use crate::user::{Bio, Group, Preferences, Pronouns, User};

verus! {

/// `update` when it is given, else `current`.
pub open spec fn updated<T>(update: Option<T>, current: T) -> T {
    match update {
        Some(v) => v,
        None => current,
    }
}

/// New account details; a field that is not given is not changed.
#[derive(Debug, Clone, PartialEq, Eq, Default)]
pub struct UpdateCore {
    pub username: Option<String>,
    pub email: Option<String>,
    pub name: Option<String>,
    pub receive_email_notifications: Option<bool>,
    pub show_on_leader_board: Option<bool>,
    /// `Some(None)` removes the location.
    pub location: Option<Option<String>>,
}

impl UpdateCore {
    /// Whether none of the username, email, name and the two flags is
    /// given, so that there is nothing to update.
    pub fn is_empty(&self) -> (r: bool)
        ensures
            r == (self.username is None && self.email is None && self.name is None
                && self.receive_email_notifications is None && self.show_on_leader_board is None),
    {
        self.username.is_none() && self.email.is_none() && self.name.is_none()
            && self.receive_email_notifications.is_none() && self.show_on_leader_board.is_none()
    }
}

/// The location that a user without one has: the user table's default.
pub open spec fn default_location() -> Seq<char> {
    "Etc/UTC"@
}

/// `u` with the account details that `c` gives replaced. A new email is
/// not verified yet; removing the location sets the default one.
pub open spec fn core_updated(c: UpdateCore, u: User) -> User {
    User {
        username: updated(c.username, u.username),
        email: updated(c.email, u.email),
        email_verified_at: if c.email is Some {
            None
        } else {
            u.email_verified_at
        },
        name: updated(c.name, u.name),
        receive_email_notifications: updated(c.receive_email_notifications, u.receive_email_notifications),
        show_on_leader_board: updated(c.show_on_leader_board, u.show_on_leader_board),
        ..u
    }
}

/// `update` when it is given, else `current`.
pub fn or_current<T>(update: Option<T>, current: T) -> (r: T)
    ensures
        r == updated(update, current),
{
    match update {
        Some(v) => v,
        None => current,
    }
}

impl UpdateCore {
    /// `user` with the account details that this update gives replaced; see
    /// [`core_updated`] for all but the location, which becomes the given
    /// one, or the default one when the update removes it.
    pub fn apply_to_user(self, user: User) -> (r: User)
        ensures
            (User { location: user.location, ..r }) == core_updated(self, user),
            r.location@ == match self.location {
                Some(Some(l)) => l@,
                Some(None) => default_location(),
                None => user.location@,
            },
    {
        let email_verified_at = if self.email.is_some() {
            None
        } else {
            user.email_verified_at
        };
        let location = match self.location {
            Some(Some(l)) => l,
            Some(None) => "Etc/UTC".to_owned(),
            None => user.location,
        };
        User {
            id: user.id,
            name: or_current(self.name, user.name),
            username: or_current(self.username, user.username),
            bio: user.bio,
            email: or_current(self.email, user.email),
            email_verified_at,
            group: user.group,
            receive_email_notifications: or_current(self.receive_email_notifications, user.receive_email_notifications),
            require_password_change: user.require_password_change,
            password_changed_at: user.password_changed_at,
            location,
            show_on_leader_board: or_current(self.show_on_leader_board, user.show_on_leader_board),
            report_interval: user.report_interval,
            preferences: user.preferences,
            banned: user.banned,
            last_logged_in: user.last_logged_in,
            created: user.created,
        }
    }
}

/// The answer to a password change.
#[derive(Debug, Clone, Copy, PartialEq, Eq, Default, Structural)]
pub struct UpdatePasswordResponse {
    pub removed_sessions: bool,
    pub removed_api_keys: u64,
}

/// A password change.
#[derive(Debug, Clone, PartialEq, Eq)]
pub struct UpdatePassword {
    pub password: String,
    pub old_password: String,
    /// End every session of the user.
    pub force_logout: bool,
    /// Revoke every API token of the user.
    pub remove_api_keys: bool,
}

/// New profile details; `None` leaves a field, `Some(None)` clears it.
#[derive(Debug, Clone, PartialEq, Eq, Default)]
pub struct UpdateBio {
    pub pronouns: Option<Option<Pronouns>>,
    pub location: Option<Option<String>>,
    pub bio: Option<Option<String>>,
    /// Days since 1970-01-01.
    pub birthday: Option<Option<i32>>,
    pub website: Option<Option<String>>,
    pub discord: Option<Option<String>>,
    pub github: Option<Option<String>>,
}

/// `bio` with the fields that `u` gives replaced.
pub open spec fn bio_updated(u: UpdateBio, bio: Bio) -> Bio {
    Bio {
        pronouns: updated(u.pronouns, bio.pronouns),
        location: updated(u.location, bio.location),
        bio: updated(u.bio, bio.bio),
        birthday: updated(u.birthday, bio.birthday),
        website: updated(u.website, bio.website),
        discord: updated(u.discord, bio.discord),
        github: updated(u.github, bio.github),
    }
}

impl UpdateBio {
    /// Replaces the fields of `bio_to_update` that this update gives.
    pub fn apply_to_bio(self, bio_to_update: &mut Bio)
        ensures
            *final(bio_to_update) == bio_updated(self, *old(bio_to_update)),
    {
        if let Some(pronouns) = self.pronouns {
            bio_to_update.pronouns = pronouns;
        }
        if let Some(location) = self.location {
            bio_to_update.location = location;
        }
        if let Some(bio) = self.bio {
            bio_to_update.bio = bio;
        }
        if let Some(birthday) = self.birthday {
            bio_to_update.birthday = birthday;
        }
        if let Some(website) = self.website {
            bio_to_update.website = website;
        }
        if let Some(discord) = self.discord {
            bio_to_update.discord = discord;
        }
        if let Some(github) = self.github {
            bio_to_update.github = github;
        }
    }

    /// Whether the update gives no field.
    pub fn is_empty(&self) -> (r: bool)
        ensures
            r == (self.pronouns is None && self.location is None && self.bio is None
                && self.birthday is None && self.website is None && self.discord is None
                && self.github is None),
    {
        self.pronouns.is_none() && self.location.is_none() && self.bio.is_none()
            && self.birthday.is_none() && self.website.is_none() && self.discord.is_none()
            && self.github.is_none()
    }
}

/// New sharing preferences; a field that is not given is not changed.
#[derive(Debug, Clone, Copy, PartialEq, Eq, Default, Structural)]
pub struct UpdatePreferences {
    pub share_editors: Option<bool>,
    pub share_operating_systems: Option<bool>,
    pub share_languages: Option<bool>,
    pub share_labels: Option<bool>,
    pub share_projects: Option<bool>,
}

/// `p` with the fields that `u` gives replaced.
pub open spec fn preferences_updated(u: UpdatePreferences, p: Preferences) -> Preferences {
    Preferences {
        share_editors: updated(u.share_editors, p.share_editors),
        share_operating_systems: updated(u.share_operating_systems, p.share_operating_systems),
        share_languages: updated(u.share_languages, p.share_languages),
        share_labels: updated(u.share_labels, p.share_labels),
        share_projects: updated(u.share_projects, p.share_projects),
    }
}

impl UpdatePreferences {
    /// Replaces the fields of `preferences_to_update` that this update
    /// gives, and tells whether any of them changed.
    pub fn update_preferences(self, preferences_to_update: &mut Preferences) -> (r: bool)
        ensures
            *final(preferences_to_update) == preferences_updated(self, *old(preferences_to_update)),
            r == (*final(preferences_to_update) != *old(preferences_to_update)),
    {
        let mut update_occurred = false;
        if let Some(share_editors) = self.share_editors {
            if preferences_to_update.share_editors != share_editors {
                update_occurred = true;
            }
            preferences_to_update.share_editors = share_editors;
        }
        if let Some(share_operating_systems) = self.share_operating_systems {
            if preferences_to_update.share_operating_systems != share_operating_systems {
                update_occurred = true;
            }
            preferences_to_update.share_operating_systems = share_operating_systems;
        }
        if let Some(share_languages) = self.share_languages {
            if preferences_to_update.share_languages != share_languages {
                update_occurred = true;
            }
            preferences_to_update.share_languages = share_languages;
        }
        if let Some(share_labels) = self.share_labels {
            if preferences_to_update.share_labels != share_labels {
                update_occurred = true;
            }
            preferences_to_update.share_labels = share_labels;
        }
        if let Some(share_projects) = self.share_projects {
            if preferences_to_update.share_projects != share_projects {
                update_occurred = true;
            }
            preferences_to_update.share_projects = share_projects;
        }
        update_occurred
    }
}

/// A login request.
#[derive(Debug, Clone, PartialEq, Eq)]
pub struct Login {
    pub username_or_email: String,
    pub password: String,
    /// The recaptcha response, where the server asks for one.
    pub recaptcha: Option<String>,
}

/// A registration request.
#[derive(Debug, Clone, PartialEq, Eq)]
pub struct RegisterRequest {
    pub name: String,
    pub username: String,
    pub email: String,
    pub password: String,
    pub location: Option<String>,
    /// The recaptcha response, where the server asks for one.
    pub recaptcha: Option<String>,
}

/// A user row to insert for a registration.
#[derive(Debug, Clone, PartialEq, Eq)]
pub struct NewUser {
    pub name: String,
    pub username: String,
    pub email: String,
    /// The password's hash.
    pub password: String,
    pub location: String,
    pub group: Group,
}

impl RegisterRequest {
    /// The row of the new user, given the hash of the requested password.
    /// No location means the default one; the group is `User`.
    pub fn new_user(self, password_hash: String) -> (r: NewUser)
        ensures
            r.name == self.name,
            r.username == self.username,
            r.email == self.email,
            r.password == password_hash,
            r.location@ == (match self.location {
                Some(l) => l@,
                None => default_location(),
            }),
            r.group == Group::User,
    {
        let location = match self.location {
            Some(l) => l,
            None => "Etc/UTC".to_owned(),
        };
        NewUser {
            name: self.name,
            username: self.username,
            email: self.email,
            password: password_hash,
            location,
            group: Group::User,
        }
    }
}

/// What a registration gets before the database is asked whether its
/// email or username is taken.
#[derive(Debug, Clone, Copy, PartialEq, Eq, Structural)]
pub enum RegistrationGate {
    /// No user exists yet: the account is created as an admin, with no
    /// further check.
    CreateAdmin,
    /// Registration is closed to the public.
    Forbidden,
    /// A recaptcha response is asked for and missing.
    RecaptchaMissing,
    /// The request may go on to the checks for a taken email or username.
    CheckConflicts,
}

impl RegistrationGate {
    /// The HTTP status that ends the request at this gate, if it does.
    pub open spec fn spec_refusal_status(self) -> Option<u16> {
        match self {
            RegistrationGate::Forbidden => Some(403),
            RegistrationGate::RecaptchaMissing => Some(400),
            _ => None,
        }
    }

    pub fn refusal_status(&self) -> (r: Option<u16>)
        ensures
            r == self.spec_refusal_status(),
    {
        match self {
            RegistrationGate::Forbidden => Some(403),
            RegistrationGate::RecaptchaMissing => Some(400),
            _ => None,
        }
    }
}

/// Where a registration stands: the first user is always let in, as an
/// admin; otherwise registration must be public, and a recaptcha response
/// must come where one is required.
pub open spec fn spec_registration_gate(
    is_first_user: bool,
    public_registration: bool,
    recaptcha_required: bool,
    recaptcha_given: bool,
) -> RegistrationGate {
    if is_first_user {
        RegistrationGate::CreateAdmin
    } else if !public_registration {
        RegistrationGate::Forbidden
    } else if recaptcha_required && !recaptcha_given {
        RegistrationGate::RecaptchaMissing
    } else {
        RegistrationGate::CheckConflicts
    }
}

impl RegisterRequest {
    /// Where this request stands before the database is asked; see
    /// [`spec_registration_gate`].
    pub fn gate(&self, is_first_user: bool, public_registration: bool, recaptcha_required: bool) -> (r: RegistrationGate)
        ensures
            r == spec_registration_gate(is_first_user, public_registration, recaptcha_required, self.recaptcha is Some),
    {
        if is_first_user {
            RegistrationGate::CreateAdmin
        } else if !public_registration {
            RegistrationGate::Forbidden
        } else if recaptcha_required && self.recaptcha.is_none() {
            RegistrationGate::RecaptchaMissing
        } else {
            RegistrationGate::CheckConflicts
        }
    }

    /// The row of the first user, who is an admin.
    pub fn new_admin(self, password_hash: String) -> (r: NewUser)
        ensures
            r.name == self.name,
            r.username == self.username,
            r.email == self.email,
            r.password == password_hash,
            r.group == Group::Admin,
    {
        let mut row = self.new_user(password_hash);
        row.group = Group::Admin;
        row
    }
}

} // verus!
