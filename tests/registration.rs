use lemmy_migrate::endpoints::{
    generate_inbox_url, generate_local_person_endpoint, generate_shared_inbox_url, Settings,
};
use lemmy_migrate::migrate::{
    ListingType, LocalSite, Migrate, MigrateError, MigrateResponse, Migration, RegistrationMode,
    SiteView,
};
use lemmy_migrate::validation::{is_valid_actor_name, password_length_check, sanitize_html};

const SECRET: &str = "correct horse battery";

fn site(site_setup: bool, registration_mode: RegistrationMode) -> SiteView {
    SiteView {
        local_site: LocalSite {
            site_setup,
            registration_mode,
            actor_name_max_length: 20,
            default_post_listing_type: ListingType::Local,
        },
        instance_id: 3,
    }
}

fn settings() -> Settings {
    Settings { hostname: "example.com".to_string(), tls_enabled: true }
}

fn request(username: &str, password: &str, email: Option<&str>, operate_password: &str) -> Migrate {
    Migrate {
        username: username.to_string(),
        password: password.to_string(),
        email: email.map(|e| e.to_string()),
        show_nsfw: true,
        operate_password: operate_password.to_string(),
    }
}

fn secret() -> String {
    SECRET.to_string()
}

fn begin(site: Option<SiteView>, data: &Migrate) -> Result<Migration, MigrateError> {
    Migration::begin(site, &settings(), data, &secret())
}

#[test]
fn fresh_instance_first_registration_becomes_admin() {
    let data = request("alice", "password123", Some("alice@example.com"), SECRET);
    let m = begin(Some(site(false, RegistrationMode::Open)), &data).unwrap();
    let person = m.prepare_person(false).unwrap();
    assert!(person.admin);
    assert_eq!(person.instance_id, 3);
    let user = m.after_person(Some(11)).unwrap();
    assert!(user.accepted_application);
    assert_eq!(user.person_id, 11);
    let response = m.finish(Some(12)).unwrap();
    assert_eq!(response, MigrateResponse { ok: false, user_id: Some(12) });
}

#[test]
fn configured_instance_requiring_applications() {
    let data = request("bob_2", "password123", None, SECRET);
    let m = begin(Some(site(true, RegistrationMode::RequireApplication)), &data).unwrap();
    let person = m.prepare_person(false).unwrap();
    assert!(!person.admin);
    let user = m.after_person(Some(5)).unwrap();
    assert!(!user.accepted_application);
    assert_eq!(user.email, None);
    assert_eq!(user.default_listing_type, ListingType::Local);
    assert!(user.show_nsfw);
    assert_eq!(user.password_encrypted, "password123");
    let response = m.finish(Some(6)).unwrap();
    assert_eq!(response, MigrateResponse { ok: true, user_id: Some(6) });
}

#[test]
fn configured_instance_taken_email_is_rejected() {
    let data = request("carol", "password123", Some("carol@example.com"), SECRET);
    let m = begin(Some(site(true, RegistrationMode::Open)), &data).unwrap();
    assert_eq!(m.prepare_person(true).err(), Some(MigrateError::DuplicateEmail));
}

#[test]
fn taken_flag_without_email_is_ignored() {
    let data = request("carol", "password123", None, SECRET);
    let m = begin(Some(site(true, RegistrationMode::Open)), &data).unwrap();
    assert!(m.prepare_person(true).is_ok());
}

#[test]
fn open_mode_accepts_at_once() {
    let data = request("dave", "password123", None, SECRET);
    let m = begin(Some(site(true, RegistrationMode::Open)), &data).unwrap();
    assert!(m.after_person(Some(1)).unwrap().accepted_application);
}

#[test]
fn closed_mode_accepts_at_once() {
    let data = request("dave", "password123", None, SECRET);
    let m = begin(Some(site(true, RegistrationMode::Closed)), &data).unwrap();
    assert!(m.after_person(Some(1)).unwrap().accepted_application);
}

#[test]
fn wrong_secret_rejected_on_fresh_site() {
    let data = request("erin", "password123", Some("erin@example.com"), "guess");
    assert_eq!(
        begin(Some(site(false, RegistrationMode::Open)), &data).err(),
        Some(MigrateError::AuthorizationError)
    );
}

#[test]
fn wrong_secret_checked_before_password() {
    let data = request("x", "short", None, "guess");
    assert_eq!(
        begin(Some(site(true, RegistrationMode::Open)), &data).err(),
        Some(MigrateError::AuthorizationError)
    );
}

#[test]
fn unreadable_site_is_rejected() {
    let data = request("erin", "password123", None, SECRET);
    assert_eq!(begin(None, &data).err(), Some(MigrateError::SiteNotSetup));
}

#[test]
fn password_length_limits() {
    let s = Some(site(true, RegistrationMode::Open));
    let short = request("frank", "123456789", None, SECRET);
    assert_eq!(begin(s, &short).err(), Some(MigrateError::PasswordPolicyError));
    let long = request("frank", &"a".repeat(61), None, SECRET);
    assert_eq!(begin(s, &long).err(), Some(MigrateError::PasswordPolicyError));
    assert!(begin(s, &request("frank", "1234567890", None, SECRET)).is_ok());
    assert!(begin(s, &request("frank", &"a".repeat(60), None, SECRET)).is_ok());
}

#[test]
fn password_length_counts_characters() {
    assert!(password_length_check("éééééééééé"));
    assert!(!password_length_check("ééééé"));
}

#[test]
fn invalid_names_are_rejected() {
    let s = Some(site(true, RegistrationMode::Open));
    for name in ["ab", "has space", "a<b>c", "name-with-dash", "abcdefghijklmnopqrstu"] {
        let data = request(name, "password123", None, SECRET);
        assert_eq!(begin(s, &data).err(), Some(MigrateError::InvalidName), "{}", name);
    }
    let ok = request("abcdefghijklmnopqrst", "password123", None, SECRET);
    assert!(begin(s, &ok).is_ok());
}

#[test]
fn actor_name_grammar() {
    assert!(is_valid_actor_name("Ab_9", 10));
    assert!(!is_valid_actor_name("Ab_9", 3));
    assert!(!is_valid_actor_name("a\nb", 10));
    assert!(!is_valid_actor_name("", 10));
}

#[test]
fn markup_is_escaped() {
    assert_eq!(sanitize_html("a<b>c"), "a&lt;b&gt;c");
    assert_eq!(sanitize_html("plain"), "plain");
    assert_eq!(sanitize_html(""), "");
}

#[test]
fn actor_addresses_are_derived_from_host_and_name() {
    let data = request("alice", "password123", None, SECRET);
    let m = begin(Some(site(true, RegistrationMode::Open)), &data).unwrap();
    assert_eq!(m.actor_id, "https://example.com/u/alice");
    assert_eq!(m.inbox_url, "https://example.com/u/alice/inbox");
    assert_eq!(m.shared_inbox_url, "https://example.com/inbox");
    let person = m.prepare_person(false).unwrap();
    assert_eq!(person.name, "alice");
    assert_eq!(person.actor_id, "https://example.com/u/alice");
    assert_eq!(person.inbox_url, "https://example.com/u/alice/inbox");
    assert_eq!(person.shared_inbox_url, "https://example.com/inbox");
    assert!(person.private_key.as_deref().unwrap_or("").contains("PRIVATE KEY"));
    assert!(person.public_key.contains("PUBLIC KEY"));
}

#[test]
fn actor_addresses_are_deterministic() {
    let a = request("alice", "password123", Some("a@example.com"), SECRET);
    let b = request("alice", "otherpassword", None, SECRET);
    let m1 = begin(Some(site(false, RegistrationMode::Open)), &a).unwrap();
    let m2 = begin(Some(site(true, RegistrationMode::Closed)), &b).unwrap();
    assert_eq!(m1.actor_id, m2.actor_id);
    assert_eq!(m1.inbox_url, m2.inbox_url);
    assert_eq!(m1.shared_inbox_url, m2.shared_inbox_url);
}

#[test]
fn plain_http_addresses() {
    let s = Settings { hostname: "localhost:8536".to_string(), tls_enabled: false };
    let base = s.get_protocol_and_hostname();
    assert_eq!(base, "http://localhost:8536");
    let actor = generate_local_person_endpoint("bob", &base);
    assert_eq!(actor, "http://localhost:8536/u/bob");
    assert_eq!(generate_inbox_url(&actor), "http://localhost:8536/u/bob/inbox");
    assert_eq!(generate_shared_inbox_url(&base), "http://localhost:8536/inbox");
}

#[test]
fn email_is_lower_cased() {
    let data = request("gina", "password123", Some("Gina@Example.COM"), SECRET);
    let m = begin(Some(site(true, RegistrationMode::Open)), &data).unwrap();
    assert_eq!(m.email.as_deref(), Some("gina@example.com"));
    let user = m.after_person(Some(2)).unwrap();
    assert_eq!(user.email.as_deref(), Some("gina@example.com"));
}

#[test]
fn person_conflict_gives_no_account() {
    let data = request("henry", "password123", None, SECRET);
    let m = begin(Some(site(true, RegistrationMode::Open)), &data).unwrap();
    assert_eq!(m.after_person(None).err(), Some(MigrateError::DuplicateIdentity));
}

#[test]
fn account_write_failure_is_reported() {
    let data = request("iris", "password123", None, SECRET);
    let m = begin(Some(site(true, RegistrationMode::Open)), &data).unwrap();
    assert_eq!(m.finish(None), Err(MigrateError::AccountWriteError));
}

#[test]
fn fresh_keypairs_differ() {
    let data = request("jack", "password123", None, SECRET);
    let m = begin(Some(site(true, RegistrationMode::Open)), &data).unwrap();
    let a = m.prepare_person(false).unwrap();
    let b = m.prepare_person(false).unwrap();
    assert_ne!(a.private_key, b.private_key);
}

#[test]
fn error_codes() {
    assert_eq!(MigrateError::SiteNotSetup.code(), "site_not_setup");
    assert_eq!(MigrateError::AuthorizationError.code(), "migrate_operate_password_error");
    assert_eq!(MigrateError::PasswordPolicyError.code(), "invalid_password");
    assert_eq!(MigrateError::InvalidName.code(), "invalid_name");
    assert_eq!(MigrateError::DuplicateEmail.code(), "email_already_exists");
    assert_eq!(MigrateError::DuplicateIdentity.code(), "user_already_exists");
    assert_eq!(MigrateError::AccountWriteError.code(), "account_write_error");
    assert_eq!(MigrateError::KeypairError.code(), "keypair_error");
}
