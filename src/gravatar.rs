//! Profiles fetched from Gravatar, and the avatar of a user.

use vstd::prelude::*;

verus! {

/// A Gravatar profile lookup: the matching entries.
#[derive(Debug, Clone, PartialEq, Eq)]
pub struct GravatarData {
    pub entry: Vec<Entry>,
}

#[derive(Debug, Clone, PartialEq, Eq)]
pub struct Entry {
    pub hash: String,
    pub request_hash: String,
    pub profile_url: String,
    pub preferred_username: String,
    pub thumbnail_url: String,
    pub photos: Vec<Photo>,
    pub last_profile_edit: String,
    pub hidden_avatar: bool,
    pub name: Name,
    pub display_name: String,
    pub pronouns: String,
    pub urls: Vec<Url>,
    pub share_flags: ShareFlags,
}

#[derive(Debug, Clone, PartialEq, Eq)]
pub struct Name {
    pub given_name: String,
    pub family_name: String,
    pub formatted: String,
}

#[derive(Debug, Clone, PartialEq, Eq)]
pub struct Photo {
    pub value: String,
    pub photo_type: String,
}

#[derive(Debug, Clone, Copy, PartialEq, Eq, Structural)]
pub struct ShareFlags {
    pub search_engines: bool,
    pub large_language_models: bool,
}

#[derive(Debug, Clone, PartialEq, Eq)]
pub struct Url {
    pub value: String,
    pub title: String,
}

impl GravatarData {
    /// The thumbnail of the first entry, if there is one.
    pub fn get_avatar_url(&self) -> (r: Option<String>)
        ensures
            match r {
                Some(u) => self.entry@.len() > 0 && u@ == self.entry@[0].thumbnail_url@,
                None => self.entry@.len() == 0,
            },
    {
        if self.entry.len() > 0 {
            Some(self.entry[0].thumbnail_url.clone())
        } else {
            None
        }
    }
}

/// Where a user's avatar comes from.
#[derive(Debug, Clone, PartialEq, Eq)]
pub enum Source {
    /// A file uploaded to the server.
    Local { file: String },
    /// A Gravatar profile.
    Gravatar { entry: Entry },
}

impl Source {
    /// The avatar of the first entry of a Gravatar lookup; `None` when the
    /// lookup found no entry.
    pub fn from_gravatar(value: GravatarData) -> (r: Option<Source>)
        ensures
            match r {
                Some(s) => value.entry@.len() > 0 && s == (Source::Gravatar { entry: value.entry@[0] }),
                None => value.entry@.len() == 0,
            },
    {
        let mut entries = value.entry;
        if entries.len() > 0 {
            let entry = entries.remove(0);
            Some(Source::Gravatar { entry })
        } else {
            None
        }
    }
}

} // verus!
