use base64::Engine;
use vxs::auth::{authenticate, authenticate_decoded, split_credentials, AuthError};
use vxs::config::{Config, ConfigTrait, Permission, User};
use vxs::util::has_permission;

fn encode(payload: &str) -> String {
    base64::engine::general_purpose::STANDARD.encode(payload)
}

#[test]
fn default_user_credentials() {
    let u = User::default();
    assert_eq!(u.username, "stormi");
    assert_eq!(u.password, "stormi-admin");
    assert_eq!(u.permissions, vec![Permission::Read, Permission::Write]);
}

#[test]
fn default_config_holds_default_user() {
    let c = Config::default();
    assert_eq!(c.get_users_size(), 1);
    assert!(c.is_default_config);
    assert!(c.port.is_none());
    assert!(c.addr.is_none());
    assert!(c.users[0].username == "stormi");
}

#[test]
fn verify_user_finds_exact_credentials() {
    let c = Config::default();
    let u = c.verify_user("stormi", "stormi-admin").expect("default user verifies");
    assert_eq!(u.username, "stormi");
    assert!(c.verify_user("stormi", "wrong").is_none());
    assert!(c.verify_user("nobody", "stormi-admin").is_none());
    assert!(c.verify_user("", "").is_none());
}

#[test]
fn verify_user_returns_first_match() {
    let mut first = User::default();
    first.username = String::from("alice");
    first.password = String::from("secret");
    first.permissions = vec![Permission::Read];
    let mut second = User::default();
    second.username = String::from("alice");
    second.password = String::from("secret");
    second.permissions = vec![Permission::Write];
    let c = Config {
        users: vec![first, second],
        port: None,
        addr: None,
        is_default_config: false,
    };
    let u = c.verify_user("alice", "secret").expect("alice verifies");
    assert_eq!(u.permissions, vec![Permission::Read]);
}

#[test]
fn config_trait_answers_like_the_methods() {
    let c = Config::default();
    let t: &dyn ConfigTrait = &c;
    assert_eq!(t.get_users_size(), 1);
    assert!(t.verify_user("stormi", "stormi-admin").is_some());
    assert!(t.verify_user("stormi", "nope").is_none());
}

#[test]
fn permissions_are_checked_individually() {
    let u = User::default();
    assert!(has_permission(&u, Permission::Read));
    assert!(has_permission(&u, Permission::Write));
    let mut reader = User::default();
    reader.permissions = vec![Permission::Read];
    assert!(has_permission(&reader, Permission::Read));
    assert!(!has_permission(&reader, Permission::Write));
    let mut none = User::default();
    none.permissions = vec![];
    assert!(!has_permission(&none, Permission::Read));
}

#[test]
fn split_credentials_reads_first_two_segments() {
    assert_eq!(split_credentials("user:pass"), Some(("user", "pass")));
    assert_eq!(split_credentials("user:pass:extra"), Some(("user", "pass")));
    assert_eq!(split_credentials("user:"), Some(("user", "")));
    assert_eq!(split_credentials(":pass"), Some(("", "pass")));
    assert_eq!(split_credentials("nocolon"), None);
    assert_eq!(split_credentials(""), None);
}

#[test]
fn authenticate_accepts_the_configured_user() {
    let c = Config::default();
    let header = encode("stormi:stormi-admin");
    let user = authenticate(&c, Some(&header)).expect("default credentials pass");
    assert_eq!(user.username, "stormi");
}

#[test]
fn authenticate_requires_the_header() {
    let c = Config::default();
    assert_eq!(authenticate(&c, None).unwrap_err(), AuthError::MissingAuthorizationHeader);
}

#[test]
fn authenticate_rejects_undecodable_headers() {
    let c = Config::default();
    assert_eq!(authenticate(&c, Some("!!!not-base64!!!")).unwrap_err(), AuthError::BadCredentials);
}

#[test]
fn authenticate_rejects_missing_password() {
    let c = Config::default();
    let header = encode("stormi");
    assert_eq!(authenticate(&c, Some(&header)).unwrap_err(), AuthError::BadCredentials);
}

#[test]
fn authenticate_rejects_unknown_users() {
    let c = Config::default();
    let header = encode("stormi:wrong-password");
    assert_eq!(authenticate(&c, Some(&header)).unwrap_err(), AuthError::UserNotFound);
    let header = encode("intruder:stormi-admin");
    assert_eq!(authenticate(&c, Some(&header)).unwrap_err(), AuthError::UserNotFound);
}

#[test]
fn authenticate_decoded_skips_the_decoding() {
    let c = Config::default();
    assert!(authenticate_decoded(&c, "stormi:stormi-admin").is_ok());
    assert_eq!(
        authenticate_decoded(&c, "no-colon-here").unwrap_err(),
        AuthError::BadCredentials
    );
    assert_eq!(
        authenticate_decoded(&c, "stormi:bad").unwrap_err(),
        AuthError::UserNotFound
    );
}
