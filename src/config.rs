//! The server's configuration.

use vstd::prelude::*;

use crate::recaptcha::GoogleRecaptcha;
use crate::session::SessionConfigFull;

verus! {

/// The certificate and key of a server that speaks TLS: paths of PEM files.
#[derive(Debug, Clone, PartialEq, Eq)]
pub struct TlsConfig {
    pub private_key: String,
    pub certificate_chain: String,
}

/// How to reach the database.
#[derive(Debug, Clone, PartialEq, Eq)]
pub struct Database {
    pub user: String,
    pub password: String,
    pub host: String,
    pub database: String,
}

/// The connection URL of `d`.
pub open spec fn connection_url_of(d: Database) -> Seq<char> {
    "postgres://"@ + d.user@ + ":"@ + d.password@ + "@"@ + d.host@ + "/"@ + d.database@
}

impl Default for Database {
    /// A database named `codi-time` on the local host, without
    /// credentials.
    fn default() -> (r: Self)
        ensures
            r.user@.len() == 0,
            r.password@.len() == 0,
            r.host@ == "localhost:5432"@,
            r.database@ == "codi-time"@,
    {
        Database {
            user: String::new(),
            password: String::new(),
            host: "localhost:5432".to_owned(),
            database: "codi-time".to_owned(),
        }
    }
}

impl Database {
    /// The PostgreSQL connection URL.
    pub fn connection_url(&self) -> (r: String)
        ensures
            r@ == connection_url_of(*self),
    {
        "postgres://".to_owned()
            .concat(self.user.as_str())
            .concat(":")
            .concat(self.password.as_str())
            .concat("@")
            .concat(self.host.as_str())
            .concat("/")
            .concat(self.database.as_str())
    }
}

/// The whole configuration of the server.
#[derive(Debug, Clone, PartialEq, Eq)]
pub struct ServerConfig {
    pub bind_address: String,
    /// The address of the web pages, for links handed to clients.
    pub home_url: Option<String>,
    pub workers: Option<usize>,
    pub tls: Option<TlsConfig>,
    pub database: Database,
    pub session: SessionConfigFull,
    pub public_registration: bool,
    pub recaptcha: Option<GoogleRecaptcha>,
}

impl Default for ServerConfig {
    /// Port 5312 on every interface, without TLS, open registration and
    /// no recaptcha.
    fn default() -> (r: Self)
        ensures
            r.bind_address@ == "0.0.0.0:5312"@,
            r.home_url is None,
            r.workers is None,
            r.tls is None,
            r.public_registration,
            r.recaptcha is None,
    {
        ServerConfig {
            bind_address: "0.0.0.0:5312".to_owned(),
            home_url: None,
            workers: None,
            tls: None,
            database: Database::default(),
            session: SessionConfigFull::default(),
            public_registration: true,
            recaptcha: None,
        }
    }
}

} // verus!
