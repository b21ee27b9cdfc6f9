//! Session and credential core of a time-tracking server: the session
//! store ([`session`]), the resolution of a request's credential into an
//! authenticated principal ([`auth`]), and the pairing exchange that hands
//! an API token to a command-line client after a person approves it in a
//! browser ([`cli_access`], [`cli`]).
//!
//! Around that core stands the server's data model (users, tokens,
//! projects, heartbeats, languages, connections) with the rules that apply
//! to it: account changes, registration, configuration defaults.

pub mod api_token;
pub mod auth;
pub mod cli;
pub mod cli_access;
mod clock;
pub mod config;
pub mod connections;
pub mod gravatar;
pub mod heartbeat;
pub mod keys;
pub mod language;
mod maps;
pub mod project;
pub mod recaptcha;
pub mod session;
pub mod updates;
pub mod user;
pub mod version_control;
