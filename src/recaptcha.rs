//! Recaptcha settings: whether registration and login ask for a recaptcha
//! response. The verification itself is a call to Google's service, made
//! by the server around the library.

use vstd::prelude::*;

verus! {

/// The part of the recaptcha settings that clients may see.
#[derive(Debug, PartialEq, Eq)]
pub struct PublicRecaptcha {
    pub site_key: String,
    pub require_on_registration: bool,
    pub require_on_login: bool,
    pub require_on_password_reset: bool,
}

impl Clone for PublicRecaptcha {
    fn clone(&self) -> (r: Self)
        ensures
            r == *self,
    {
        PublicRecaptcha {
            site_key: self.site_key.clone(),
            require_on_registration: self.require_on_registration,
            require_on_login: self.require_on_login,
            require_on_password_reset: self.require_on_password_reset,
        }
    }
}

impl Default for PublicRecaptcha {
    /// No site key; asked for everywhere.
    fn default() -> (r: Self)
        ensures
            r.site_key@.len() == 0,
            r.require_on_registration,
            r.require_on_login,
            r.require_on_password_reset,
    {
        PublicRecaptcha {
            site_key: String::new(),
            require_on_registration: true,
            require_on_login: true,
            require_on_password_reset: true,
        }
    }
}

/// The recaptcha settings of the server.
#[derive(Debug, Clone, PartialEq, Eq)]
pub struct GoogleRecaptcha {
    pub secret_key: String,
    pub public_config: PublicRecaptcha,
}

impl Default for GoogleRecaptcha {
    fn default() -> (r: Self)
        ensures
            r.secret_key@.len() == 0,
            r.public_config.site_key@.len() == 0,
            r.public_config.require_on_registration,
            r.public_config.require_on_login,
            r.public_config.require_on_password_reset,
    {
        GoogleRecaptcha { secret_key: String::new(), public_config: PublicRecaptcha::default() }
    }
}

/// The recaptcha settings in force: none when recaptcha is off.
#[derive(Debug, Clone, PartialEq, Eq)]
pub struct RecaptchaAccess {
    pub settings: Option<GoogleRecaptcha>,
}

/// The settings in force for configured `settings`: recaptcha is off when
/// either key is empty.
pub open spec fn settings_in_force(settings: Option<GoogleRecaptcha>) -> Option<GoogleRecaptcha> {
    match settings {
        Some(s) => if s.secret_key@.len() == 0 || s.public_config.site_key@.len() == 0 {
            None
        } else {
            Some(s)
        },
        None => None,
    }
}

impl RecaptchaAccess {
    pub fn new(settings: Option<GoogleRecaptcha>) -> (r: Self)
        ensures
            r.settings == settings_in_force(settings),
    {
        match settings {
            Some(s) => {
                if s.secret_key.unicode_len() == 0 || s.public_config.site_key.unicode_len() == 0 {
                    RecaptchaAccess { settings: None }
                } else {
                    RecaptchaAccess { settings: Some(s) }
                }
            },
            None => RecaptchaAccess { settings: None },
        }
    }

    /// What clients are told of the settings.
    pub fn state_value(&self) -> (r: Option<PublicRecaptcha>)
        ensures
            r == match self.settings {
                Some(s) => Some(s.public_config),
                None => None,
            },
    {
        match &self.settings {
            Some(s) => Some(s.public_config.clone()),
            None => None,
        }
    }

    /// Whether registration asks for a recaptcha response.
    pub fn require_on_registration(&self) -> (r: bool)
        ensures
            r == (self.settings matches Some(s) && s.public_config.require_on_registration),
    {
        match &self.settings {
            Some(s) => s.public_config.require_on_registration,
            None => false,
        }
    }

    /// Whether login asks for a recaptcha response.
    pub fn require_on_login(&self) -> (r: bool)
        ensures
            r == (self.settings matches Some(s) && s.public_config.require_on_login),
    {
        match &self.settings {
            Some(s) => s.public_config.require_on_login,
            None => false,
        }
    }
}

} // verus!
