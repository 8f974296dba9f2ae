use rsl_tunnel::api::LoginBody;
use rsl_tunnel::config::{Config, CoreConfig, HttpConfig};
use rsl_tunnel::error::ErrorKind;
use rsl_tunnel::session::RSLUser;

fn config_with(auth_method: &str, tokens: &[(&str, &str)]) -> Config {
    Config {
        core: CoreConfig {
            auth_method: auth_method.to_string(),
            bind_addr: "127.0.0.1:7000".to_string(),
            allow_ports: "9000-9002".to_string(),
        },
        http: HttpConfig {
            bind_addr: "127.0.0.1:8080".to_string(),
            default_domain: "example.com".to_string(),
        },
        tokens: tokens.iter().map(|(u, t)| (u.to_string(), t.to_string())).collect(),
    }
}

#[test]
fn login_happy_path() {
    let mut user = RSLUser::new(config_with("token", &[("alice", "T1")]));
    let reply = user.login(&LoginBody { token: "T1".to_string() }).unwrap();
    assert_eq!(reply.username, "alice");
    assert_eq!(reply.session_id.chars().count(), 128);
    assert!(reply.session_id.chars().all(|c| c.is_ascii_alphanumeric()));
    assert!(user.call(Some(reply.session_id.as_str())).is_ok());
    let refused = user.call(Some("X")).unwrap_err();
    assert_eq!(refused.kind, ErrorKind::Unauthenticated);
    assert_eq!(refused.message, "invalid session");
}

#[test]
fn request_without_authorization_is_refused() {
    let user = RSLUser::new(config_with("token", &[("alice", "T1")]));
    let refused = user.call(None).unwrap_err();
    assert_eq!(refused.kind, ErrorKind::Unauthenticated);
    assert_eq!(refused.message, "No valid auth token");
    assert_eq!(refused.to_string(), "No valid auth token");
}

#[test]
fn no_session_is_valid_before_a_login() {
    let user = RSLUser::new(config_with("token", &[("alice", "T1")]));
    assert!(!user.validate("T1"));
    assert!(!user.validate(""));
    assert!(user.call(Some("T1")).is_err());
    assert!(user.call(Some("")).is_err());
}

#[test]
fn unknown_token_is_refused() {
    let mut user = RSLUser::new(config_with("token", &[("alice", "T1")]));
    let refused = user.login(&LoginBody { token: "T2".to_string() }).unwrap_err();
    assert_eq!(refused.kind, ErrorKind::InvalidArgument);
    assert_eq!(refused.message, "invalid token");
    let refused = user.login(&LoginBody { token: "alice".to_string() }).unwrap_err();
    assert_eq!(refused.message, "invalid token");
    let refused = user.login(&LoginBody { token: String::new() }).unwrap_err();
    assert_eq!(refused.message, "invalid token");
}

#[test]
fn failed_login_issues_no_session() {
    let mut user = RSLUser::new(config_with("token", &[("alice", "T1")]));
    let token = "nope".to_string();
    assert!(user.login_with_session(&token, "SID-1".to_string()).is_err());
    assert!(!user.validate("SID-1"));
    assert!(user.call(Some("SID-1")).is_err());
}

#[test]
fn oidc_is_not_available() {
    let mut user = RSLUser::new(config_with("oidc", &[("alice", "T1")]));
    let refused = user.login(&LoginBody { token: "T1".to_string() }).unwrap_err();
    assert_eq!(refused.kind, ErrorKind::InvalidArgument);
    assert_eq!(refused.message, "oidc not implement");
    let token = "T1".to_string();
    let refused = user.token2username(&token).unwrap_err();
    assert_eq!(refused.message, "oidc not implement");
}

#[test]
fn token_names_its_user() {
    let user = RSLUser::new(config_with("token", &[("alice", "T1"), ("bob", "T2"), ("carol", "T3")]));
    assert_eq!(user.token2username(&"T1".to_string()).unwrap(), "alice");
    assert_eq!(user.token2username(&"T2".to_string()).unwrap(), "bob");
    assert_eq!(user.token2username(&"T3".to_string()).unwrap(), "carol");
    assert!(user.token2username(&"t1".to_string()).is_err());
}

#[test]
fn shared_token_names_the_first_user() {
    let user = RSLUser::new(config_with("token", &[("alice", "T"), ("bob", "T")]));
    assert_eq!(user.token2username(&"T".to_string()).unwrap(), "alice");
}

#[test]
fn any_other_auth_method_checks_tokens() {
    let user = RSLUser::new(config_with("something", &[("alice", "T1")]));
    assert_eq!(user.token2username(&"T1".to_string()).unwrap(), "alice");
}

#[test]
fn login_with_session_registers_exactly_that_session() {
    let mut user = RSLUser::new(config_with("token", &[("alice", "T1"), ("bob", "T2")]));
    let reply = user.login_with_session(&"T2".to_string(), "SESSION-B".to_string()).unwrap();
    assert_eq!(reply.session_id, "SESSION-B");
    assert_eq!(reply.username, "bob");
    assert!(user.validate("SESSION-B"));
    assert!(!user.validate("SESSION-A"));
    assert!(!user.validate("session-b"));
    let reply = user.login_with_session(&"T1".to_string(), "SESSION-A".to_string()).unwrap();
    assert_eq!(reply.username, "alice");
    assert!(user.validate("SESSION-A"));
    assert!(user.validate("SESSION-B"));
}

#[test]
fn two_logins_get_two_sessions() {
    let mut user = RSLUser::new(config_with("token", &[("alice", "T1")]));
    let first = user.login(&LoginBody { token: "T1".to_string() }).unwrap();
    let second = user.login(&LoginBody { token: "T1".to_string() }).unwrap();
    assert_ne!(first.session_id, second.session_id);
    assert!(user.validate(&first.session_id));
    assert!(user.validate(&second.session_id));
}
