use codi_time::api_token::{APIToken, APITokenPermissions};
use codi_time::auth::{
    begin, extract_credential, Authentication, AuthenticationError, AuthenticationRaw, CredentialLookup,
    NoAuthenticationAllowed, SessionAuthentication,
};
use codi_time::keys::hash_token;
use codi_time::session::{MemorySessionManager, SessionManager};
use codi_time::user::{Bio, Group, Preferences, User};

fn user(id: i64) -> User {
    User {
        id,
        name: "Ana".to_string(),
        username: "ana".to_string(),
        bio: Bio::default(),
        email: "ana@example.com".to_string(),
        email_verified_at: Some(1),
        group: Group::User,
        receive_email_notifications: false,
        require_password_change: false,
        password_changed_at: 0,
        location: "Etc/UTC".to_string(),
        show_on_leader_board: true,
        report_interval: vec![],
        preferences: Preferences::default(),
        banned: false,
        last_logged_in: 0,
        created: 0,
    }
}

fn token(user_id: i64, revoked: Option<i64>, expires_at: Option<i64>) -> APIToken {
    APIToken {
        id: 1,
        user_id,
        permissions: vec![APITokenPermissions::ReadHeartbeat],
        from_cli: None,
        revoked,
        expires_at,
        created: 0,
    }
}

#[test]
fn no_credential_is_rejected() {
    let store = MemorySessionManager::new(1, 1000);
    assert_eq!(begin(None, &store, 0), Err(AuthenticationError::NoAuthenticationProvided));
    assert_eq!(AuthenticationError::NoAuthenticationProvided.status_code(), 401);
    assert_eq!(SessionAuthentication::begin(None, &store, 0), Err(AuthenticationError::NoAuthenticationProvided));
}

#[test]
fn unknown_session_is_invalid() {
    let store = MemorySessionManager::new(1, 1000);
    let raw = Some(AuthenticationRaw::Session("nope".to_string()));
    assert_eq!(begin(raw, &store, 0), Err(AuthenticationError::InvalidSession));
}

#[test]
fn session_of_deleted_user_is_invalid() {
    let mut store = MemorySessionManager::new(1, 1000);
    let s = store.create_session(5).unwrap();
    let raw = Some(AuthenticationRaw::Session(s.session_id.clone()));
    let session = match begin(raw, &store, s.created) {
        Ok(CredentialLookup::SessionUser(found)) => found,
        other => panic!("unexpected {:?}", other),
    };
    assert_eq!(session, s);
    assert_eq!(Authentication::from_session(session.clone(), None), Err(AuthenticationError::InvalidSession));
    assert_eq!(SessionAuthentication::new(session, None), Err(AuthenticationError::InvalidSession));
}

#[test]
fn session_with_its_user_resolves() {
    let mut store = MemorySessionManager::new(1, 1000);
    let s = store.create_session(5).unwrap();
    let auth = Authentication::from_session(s.clone(), Some(user(5))).unwrap();
    assert!(auth.is_session());
    assert_eq!(auth.id(), 5);
    assert_eq!(auth.as_user(), &user(5));
    assert_eq!(auth.into_user(), user(5));
    assert_eq!(Authentication::from_session(s.clone(), Some(user(6))), Err(AuthenticationError::InvalidSession));
    let strict = SessionAuthentication::new(s.clone(), Some(user(5))).unwrap();
    assert_eq!(strict.session, s);
}

#[test]
fn token_is_looked_up_by_its_digest() {
    let store = MemorySessionManager::new(1, 1000);
    let raw = Some(AuthenticationRaw::APIToken("abc".to_string()));
    assert_eq!(
        begin(raw, &store, 0),
        Ok(CredentialLookup::Token("ba7816bf8f01cfea414140de5dae2223b00361a396177a9cb410ff61f20015ad".to_string()))
    );
    assert_eq!(hash_token("abc").len(), 64);
    assert_ne!(hash_token("abc"), "abc");
}

#[test]
fn revoked_and_expired_tokens_are_invalid() {
    let revoked = Authentication::from_token(Some((token(2, Some(10), None), user(2))), 100);
    assert_eq!(revoked, Err(AuthenticationError::InvalidAPIToken));
    let expired = Authentication::from_token(Some((token(2, None, Some(99)), user(2))), 100);
    assert_eq!(expired, Err(AuthenticationError::InvalidAPIToken));
    let missing = Authentication::from_token(None, 100);
    assert_eq!(missing, Err(AuthenticationError::InvalidAPIToken));
    let other_user = Authentication::from_token(Some((token(3, None, None), user(2))), 100);
    assert_eq!(other_user, Err(AuthenticationError::InvalidAPIToken));
}

#[test]
fn active_token_resolves() {
    let at_expiry = Authentication::from_token(Some((token(2, None, Some(100)), user(2))), 100).unwrap();
    assert!(!at_expiry.is_session());
    assert_eq!(at_expiry.id(), 2);
    let forever = Authentication::from_token(Some((token(2, None, None), user(2))), i64::MAX);
    assert!(forever.is_ok());
}

#[test]
fn token_cannot_reach_session_only_endpoints() {
    let store = MemorySessionManager::new(1, 1000);
    let raw = Some(AuthenticationRaw::APIToken("abc".to_string()));
    let r = SessionAuthentication::begin(raw, &store, 0);
    assert_eq!(r, Err(AuthenticationError::MustBeSession));
    assert_eq!(AuthenticationError::MustBeSession.status_code(), 403);
    assert_eq!(AuthenticationError::InvalidAPIToken.status_code(), 401);
    assert_eq!(AuthenticationError::InvalidSession.status_code(), 401);
}

#[test]
fn no_authentication_allowed_only_without_credential() {
    assert_eq!(NoAuthenticationAllowed::from_request(&None), Some(NoAuthenticationAllowed));
    let raw = Some(AuthenticationRaw::Session("x".to_string()));
    assert!(raw.as_ref().unwrap().is_session());
    assert_eq!(NoAuthenticationAllowed::from_request(&raw), None);
}

#[test]
fn expired_session_is_invalid() {
    let mut store = MemorySessionManager::new(1, 1000);
    let s = store.create_session(5).unwrap();
    let raw = || Some(AuthenticationRaw::Session(s.session_id.clone()));
    assert!(begin(raw(), &store, s.expires - 1).is_ok());
    assert_eq!(begin(raw(), &store, s.expires), Err(AuthenticationError::InvalidSession));
    assert_eq!(SessionAuthentication::begin(raw(), &store, s.expires), Err(AuthenticationError::InvalidSession));
    assert_eq!(SessionAuthentication::begin(raw(), &store, s.created), Ok(s.clone()));
}

#[test]
fn credentials_from_cookie_and_header() {
    let cookie = extract_credential(Some("sid".to_string()), Some("Bearer tok".to_string()), false);
    assert_eq!(cookie, Some(AuthenticationRaw::Session("sid".to_string())));
    let bearer = extract_credential(None, Some("Bearer tok".to_string()), false);
    assert_eq!(bearer, Some(AuthenticationRaw::APIToken("tok".to_string())));
    let header_session = extract_credential(None, Some("Session sid".to_string()), true);
    assert_eq!(header_session, Some(AuthenticationRaw::Session("sid".to_string())));
    assert_eq!(extract_credential(None, Some("Session sid".to_string()), false), None);
    assert_eq!(extract_credential(None, Some("Basic abc".to_string()), true), None);
    assert_eq!(extract_credential(None, Some("Bearer".to_string()), true), None);
    assert_eq!(extract_credential(None, None, true), None);
}
