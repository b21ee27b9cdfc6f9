use codi_time::auth::get_user_and_token;
use codi_time::keys::hex_encode;
use codi_time::api_token::APIToken;
use codi_time::config::{Database, ServerConfig};
use codi_time::connections::{Application, PubConnection, RestOfConnection, UserConnections};
use codi_time::gravatar::{Entry, GravatarData, Name, ShareFlags, Source};
use codi_time::heartbeat::HeartbeatType;
use codi_time::language::{LanguageDef, LanguageError};
use codi_time::project::{
    matches_ignoring_ascii_case, IdOrName, PartialProjectQuery, ProjectQuery, QueryOrdering,
    UserOrTeam, InvalidOrdering,
};
use codi_time::recaptcha::{GoogleRecaptcha, PublicRecaptcha, RecaptchaAccess};
use codi_time::updates::{RegisterRequest, RegistrationGate, UpdateBio, UpdateCore, UpdatePreferences};
use codi_time::project::{ProjectSortBy, ProjectSortColumn};
use codi_time::user::{Bio, Group, Preferences, Pronouns, User, UserModel};

fn model(verified: bool, group: Group) -> UserModel {
    UserModel {
        id: 3,
        name: "Bo".to_string(),
        username: "bo".to_string(),
        bio: Bio::default(),
        email: "bo@example.com".to_string(),
        email_verified_at: if verified { Some(5) } else { None },
        group,
        receive_email_notifications: true,
        password: "hash".to_string(),
        require_password_change: false,
        password_changed_at: 1,
        location: "Europe/Paris".to_string(),
        show_on_leader_board: false,
        report_interval: vec![],
        preferences: Preferences::default(),
        banned: false,
        last_logged_in: 2,
        created: 3,
    }
}

#[test]
fn update_preferences_reports_real_changes() {
    let mut p = Preferences::default();
    let none = UpdatePreferences::default();
    assert!(!none.update_preferences(&mut p));
    assert_eq!(p, Preferences::default());
    let same = UpdatePreferences { share_editors: Some(true), ..Default::default() };
    assert!(!same.update_preferences(&mut p));
    let change = UpdatePreferences { share_labels: Some(false), share_projects: Some(true), ..Default::default() };
    assert!(change.update_preferences(&mut p));
    assert!(!p.share_labels);
    assert!(p.share_projects && p.share_editors && p.share_languages && p.share_operating_systems);
}

#[test]
fn update_bio_replaces_given_fields() {
    let mut bio = Bio { location: Some("Oslo".to_string()), github: Some("old".to_string()), ..Bio::default() };
    let u = UpdateBio {
        pronouns: Some(Some(Pronouns::TheyThem)),
        github: Some(None),
        birthday: Some(Some(10_000)),
        ..Default::default()
    };
    assert!(!u.is_empty());
    u.apply_to_bio(&mut bio);
    assert_eq!(bio.pronouns, Some(Pronouns::TheyThem));
    assert_eq!(bio.location, Some("Oslo".to_string()));
    assert_eq!(bio.github, None);
    assert_eq!(bio.birthday, Some(10_000));
    assert!(UpdateBio::default().is_empty());
}

#[test]
fn update_core_emptiness_ignores_location() {
    assert!(UpdateCore::default().is_empty());
    assert!(UpdateCore { location: Some(None), ..Default::default() }.is_empty());
    assert!(!UpdateCore { name: Some("x".to_string()), ..Default::default() }.is_empty());
    assert!(!UpdateCore { show_on_leader_board: Some(false), ..Default::default() }.is_empty());
}

#[test]
fn new_user_uses_the_hash() {
    let req = RegisterRequest {
        name: "Cy".to_string(),
        username: "cy".to_string(),
        email: "cy@example.com".to_string(),
        password: "plain".to_string(),
        location: None,
        recaptcha: None,
    };
    let row = req.new_user("HASH".to_string());
    assert_eq!(row.password, "HASH");
    assert_eq!(row.location, "Etc/UTC");
    assert_eq!(row.group, Group::User);
    assert_eq!(row.username, "cy");
}

#[test]
fn login_needs_password_and_verified_email_unless_admin() {
    assert!(model(true, Group::User).may_log_in(true));
    assert!(!model(true, Group::User).may_log_in(false));
    assert!(!model(false, Group::User).may_log_in(true));
    assert!(model(false, Group::Admin).may_log_in(true));
    assert!(!model(false, Group::Admin).may_log_in(false));
}

#[test]
fn user_drops_the_password() {
    let u = User::from(model(true, Group::Moderator));
    assert_eq!(u.id(), 3);
    assert_eq!(u.group, Group::Moderator);
    assert_eq!(u.location, "Europe/Paris");
}

#[test]
fn token_rows_without_user_or_inactive_are_dropped() {
    let t = |revoked: Option<i64>, expires_at: Option<i64>| APIToken {
        id: 1, user_id: 3, permissions: vec![], from_cli: None, revoked, expires_at, created: 0,
    };
    let u = User::from(model(true, Group::User));
    assert_eq!(get_user_and_token(None, 0), None);
    assert_eq!(get_user_and_token(Some((t(None, None), None)), 0), None);
    assert_eq!(get_user_and_token(Some((t(Some(1), None), Some(u.clone()))), 0), None);
    assert_eq!(get_user_and_token(Some((t(None, Some(5)), Some(u.clone()))), 6), None);
    assert_eq!(get_user_and_token(Some((t(None, Some(5)), Some(u.clone()))), 5), Some((t(None, Some(5)), u.clone())));
    let banned = User { banned: true, ..u };
    assert_eq!(get_user_and_token(Some((t(None, None), Some(banned))), 0), None);
}

fn connection(id: i64, application: Application) -> PubConnection {
    PubConnection { id, user_id: 1, other_data: None, application, created: 0 }
}

#[test]
fn connections_by_type_and_validity() {
    let c = UserConnections(vec![connection(1, Application::WakaTime), connection(2, Application::Github)]);
    assert_eq!(c.get_by_type(Application::Github).map(|x| x.id), Some(2));
    assert!(c.is_valid());
    let dup = UserConnections(vec![
        connection(1, Application::Github),
        connection(2, Application::WakaTime),
        connection(3, Application::Github),
    ]);
    assert_eq!(dup.get_by_type(Application::Github).map(|x| x.id), Some(1));
    assert!(!dup.is_valid());
    let empty = UserConnections::default();
    assert!(empty.is_valid());
    assert!(empty.get_by_type(Application::WakaTime).is_none());
}

#[test]
fn connection_into_full() {
    let rest = RestOfConnection { other_data_private: Some("{}".to_string()), token: "refresh".to_string(), expires_at: Some(9) };
    let full = connection(4, Application::Github).into_full(Some(rest)).unwrap();
    assert_eq!(full.id, 4);
    assert_eq!(full.token, "refresh");
    assert_eq!(full.expires_at, Some(9));
    assert!(connection(4, Application::Github).into_full(None).is_none());
}

fn entry(thumb: &str) -> Entry {
    Entry {
        hash: "h".to_string(),
        request_hash: "r".to_string(),
        profile_url: "p".to_string(),
        preferred_username: "u".to_string(),
        thumbnail_url: thumb.to_string(),
        photos: vec![],
        last_profile_edit: "e".to_string(),
        hidden_avatar: false,
        name: Name { given_name: "g".to_string(), family_name: "f".to_string(), formatted: "g f".to_string() },
        display_name: "d".to_string(),
        pronouns: "".to_string(),
        urls: vec![],
        share_flags: ShareFlags { search_engines: true, large_language_models: false },
    }
}

#[test]
fn avatar_from_first_gravatar_entry() {
    let data = GravatarData { entry: vec![entry("https://a/1.png"), entry("https://a/2.png")] };
    assert_eq!(data.get_avatar_url(), Some("https://a/1.png".to_string()));
    assert_eq!(Source::from_gravatar(data), Some(Source::Gravatar { entry: entry("https://a/1.png") }));
    let none = GravatarData { entry: vec![] };
    assert_eq!(none.get_avatar_url(), None);
    assert_eq!(Source::from_gravatar(none), None);
}

#[test]
fn orderings_by_name_letter_and_number() {
    assert_eq!(QueryOrdering::from_name("ASC"), Ok(QueryOrdering::Ascending));
    assert_eq!(QueryOrdering::from_name("Descending"), Ok(QueryOrdering::Descending));
    assert_eq!(QueryOrdering::from_name("d"), Ok(QueryOrdering::Descending));
    assert_eq!(QueryOrdering::from_name("up"), Err(InvalidOrdering));
    assert_eq!(QueryOrdering::from_name(""), Err(InvalidOrdering));
    assert_eq!(QueryOrdering::from_char('A'), Ok(QueryOrdering::Ascending));
    assert_eq!(QueryOrdering::from_char('x'), Err(InvalidOrdering));
    assert_eq!(QueryOrdering::from_number(0), Ok(QueryOrdering::Descending));
    assert_eq!(QueryOrdering::from_number(1), Ok(QueryOrdering::Ascending));
    assert_eq!(QueryOrdering::from_number(2), Err(InvalidOrdering));
    assert!(matches_ignoring_ascii_case("HeLLo", "hello"));
    assert!(!matches_ignoring_ascii_case("hello", "hell"));
    assert_eq!(QueryOrdering::default(), QueryOrdering::Ascending);
}

#[test]
fn project_queries() {
    let q = ProjectQuery::from_user(12, PartialProjectQuery::default());
    assert_eq!(q.owned_by, UserOrTeam::User { id_or_name: IdOrName::Id(12), check_teams: true });
    let d = ProjectQuery::default();
    assert_eq!(d.owned_by, UserOrTeam::User { id_or_name: IdOrName::Id(0), check_teams: true });
    assert_eq!(d.query_params, PartialProjectQuery::default());
}

fn language(name: &str, extensions: &[&str], file_names: &[&str]) -> LanguageDef {
    LanguageDef {
        name: name.to_string(),
        default_color: None,
        categories: vec![],
        aliases: vec![],
        extensions: extensions.iter().map(|s| s.to_string()).collect(),
        file_names: file_names.iter().map(|s| s.to_string()).collect(),
    }
}

#[test]
fn language_definitions_are_checked() {
    assert_eq!(language("Rust", &["rs"], &[]).is_valid(), Ok(()));
    assert_eq!(language("Make", &[], &["Makefile"]).is_valid(), Ok(()));
    assert_eq!(language("", &["rs"], &[]).is_valid(), Err(LanguageError::InvalidName));
    assert_eq!(language("Nothing", &[], &[]).is_valid(), Err(LanguageError::InvalidFileNames));
    let defs = vec![language("A", &["a"], &[]), language("", &[], &[]), language("C", &[], &[])];
    assert_eq!(LanguageDef::validate_all(&defs), Err(LanguageError::InvalidName));
}

#[test]
fn language_files_load_in_order() {
    assert_eq!(LanguageDef::load_languages(vec![]), Err(LanguageError::MissingFile("languages.json".to_string())));
    let first = vec![language("Rust", &["rs"], &[])];
    let second = vec![language("Go", &["go"], &[]), language("Zig", &["zig"], &[])];
    let all = LanguageDef::load_languages(vec![first.clone(), second.clone()]).unwrap();
    assert_eq!(all.iter().map(|d| d.name.as_str()).collect::<Vec<_>>(), vec!["Rust", "Go", "Zig"]);
    let bad = vec![language("Bad", &[], &[])];
    assert_eq!(LanguageDef::load_languages(vec![first.clone(), bad]), Err(LanguageError::InvalidFileNames));
    let unchecked_first = vec![language("", &[], &[])];
    assert_eq!(LanguageDef::load_languages(vec![unchecked_first, second]).unwrap().len(), 3);
}

#[test]
fn recaptcha_is_off_without_both_keys() {
    let full = GoogleRecaptcha {
        secret_key: "s".to_string(),
        public_config: PublicRecaptcha { site_key: "k".to_string(), require_on_login: false, ..PublicRecaptcha::default() },
    };
    let on = RecaptchaAccess::new(Some(full.clone()));
    assert!(on.require_on_registration());
    assert!(!on.require_on_login());
    assert_eq!(on.state_value().map(|p| p.site_key), Some("k".to_string()));
    let no_secret = GoogleRecaptcha { secret_key: String::new(), ..full.clone() };
    assert_eq!(RecaptchaAccess::new(Some(no_secret)).settings, None);
    let no_site = GoogleRecaptcha { public_config: PublicRecaptcha::default(), ..full };
    assert_eq!(RecaptchaAccess::new(Some(no_site)).settings, None);
    let off = RecaptchaAccess::new(None);
    assert!(!off.require_on_login());
    assert!(!off.require_on_registration());
    assert_eq!(off.state_value(), None);
}

#[test]
fn database_url_and_defaults() {
    let db = Database { user: "u".to_string(), password: "p".to_string(), host: "h:1".to_string(), database: "d".to_string() };
    assert_eq!(db.connection_url(), "postgres://u:p@h:1/d");
    assert_eq!(Database::default().connection_url(), "postgres://:@localhost:5432/codi-time");
    let c = ServerConfig::default();
    assert_eq!(c.bind_address, "0.0.0.0:5312");
    assert!(c.public_registration);
    assert!(c.tls.is_none());
}

#[test]
fn heartbeat_type_names() {
    for t in [HeartbeatType::File, HeartbeatType::App, HeartbeatType::Domain] {
        assert_eq!(HeartbeatType::from_name(t.as_str()), Some(t));
    }
    assert_eq!(HeartbeatType::App.as_str(), "app");
    assert_eq!(HeartbeatType::from_name("File"), None);
}

#[test]
fn project_sort_order_defaults() {
    assert_eq!(ProjectSortBy::sort_order(None), (ProjectSortColumn::Name, QueryOrdering::Ascending));
    assert_eq!(
        ProjectSortBy::sort_order(Some(ProjectSortBy::LastUpdate(None))),
        (ProjectSortColumn::LastUpdate, QueryOrdering::Ascending)
    );
    assert_eq!(
        ProjectSortBy::sort_order(Some(ProjectSortBy::LastHeartbeat(Some(QueryOrdering::Descending)))),
        (ProjectSortColumn::LastHeartbeat, QueryOrdering::Descending)
    );
    assert_eq!(
        ProjectSortBy::sort_order(Some(ProjectSortBy::Name(Some(QueryOrdering::Descending)))),
        (ProjectSortColumn::Name, QueryOrdering::Descending)
    );
}

#[test]
fn registration_gate_order() {
    let req = |recaptcha: Option<&str>| RegisterRequest {
        name: String::new(),
        username: "dee".to_string(),
        email: "dee@example.com".to_string(),
        password: "pw".to_string(),
        location: Some("Etc/UTC".to_string()),
        recaptcha: recaptcha.map(str::to_string),
    };
    assert_eq!(req(None).gate(true, false, true), RegistrationGate::CreateAdmin);
    assert_eq!(req(None).gate(false, false, false), RegistrationGate::Forbidden);
    assert_eq!(RegistrationGate::Forbidden.refusal_status(), Some(403));
    assert_eq!(req(None).gate(false, true, true), RegistrationGate::RecaptchaMissing);
    assert_eq!(RegistrationGate::RecaptchaMissing.refusal_status(), Some(400));
    assert_eq!(req(Some("resp")).gate(false, true, true), RegistrationGate::CheckConflicts);
    assert_eq!(req(None).gate(false, true, false), RegistrationGate::CheckConflicts);
    assert_eq!(RegistrationGate::CheckConflicts.refusal_status(), None);
    let admin = req(None).new_admin("H".to_string());
    assert_eq!(admin.group, Group::Admin);
    assert_eq!(admin.location, "Etc/UTC");
}

#[test]
fn load_languages() {
    let defaults = vec![language("Rust", &["rs"], &[]), language("Makefile", &[], &["Makefile"])];
    let extra = vec![language("TOML", &["toml"], &["Cargo.lock"])];
    LanguageDef::load_languages(vec![defaults, extra]).expect("Failed to load languages");
}

#[test]
fn update_core_applies_given_fields() {
    let user = User::from(model(true, Group::User));
    let u = UpdateCore { email: Some("new@example.com".to_string()), location: Some(None), ..Default::default() };
    let changed = u.apply_to_user(user.clone());
    assert_eq!(changed.email, "new@example.com");
    assert_eq!(changed.email_verified_at, None);
    assert_eq!(changed.location, "Etc/UTC");
    assert_eq!(changed.username, user.username);
    let renamed = UpdateCore { name: Some("Bob".to_string()), location: Some(Some("Asia/Tokyo".to_string())), ..Default::default() }
        .apply_to_user(user.clone());
    assert_eq!(renamed.name, "Bob");
    assert_eq!(renamed.location, "Asia/Tokyo");
    assert_eq!(renamed.email_verified_at, Some(5));
    assert_eq!(UpdateCore::default().apply_to_user(user.clone()), user);
}

#[test]
fn hex_encoding_is_lowercase_high_half_first() {
    assert_eq!(hex_encode(&[0x00, 0xab, 0x10, 0xff]), "00ab10ff");
    assert_eq!(hex_encode(&[]), "");
}
