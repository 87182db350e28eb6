use socks5_proxy::auth::{auth_reply, authenticate, parse_auth_message, AuthRequest};
use socks5_proxy::error::ProtocolError;
use socks5_proxy::methods::AuthMethods;
use socks5_proxy::proxy::Proxy;

fn store_with_alice() -> Proxy {
    let mut proxy = Proxy::new(vec![AuthMethods::UsernamePassword]);
    proxy.add_user(String::from("alice"), String::from("secret"));
    proxy
}

fn attempt(user: &str, pass: &str) -> AuthRequest {
    AuthRequest { username: user.as_bytes().to_vec(), password: pass.as_bytes().to_vec() }
}

#[test]
fn right_credentials_succeed() {
    let proxy = store_with_alice();
    let (ok, reply) = authenticate(&proxy, attempt("alice", "secret")).unwrap();
    assert!(ok);
    assert_eq!(reply, vec![1u8, 0u8]);
}

#[test]
fn wrong_password_fails() {
    let proxy = store_with_alice();
    let (ok, reply) = authenticate(&proxy, attempt("alice", "wrong")).unwrap();
    assert!(!ok);
    assert_eq!(reply, vec![1u8, 1u8]);
}

#[test]
fn unknown_user_fails() {
    let proxy = store_with_alice();
    let (ok, reply) = authenticate(&proxy, attempt("bob", "anything")).unwrap();
    assert!(!ok);
    assert_eq!(reply, vec![1u8, 1u8]);
}

#[test]
fn credentials_that_are_not_text_are_an_error() {
    let proxy = store_with_alice();
    let request = AuthRequest { username: vec![0xffu8, 0xfeu8], password: vec![] };
    assert!(matches!(authenticate(&proxy, request), Err(ProtocolError::InvalidText)));
}

#[test]
fn get_user_finds_only_stored_names() {
    let proxy = store_with_alice();
    assert_eq!(proxy.get_user(String::from("alice")), Some(String::from("secret")));
    assert_eq!(proxy.get_user(String::from("bob")), None);
}

#[test]
fn add_user_overwrites_and_remove_user_deletes() {
    let mut proxy = store_with_alice();
    proxy.add_user(String::from("alice"), String::from("newer"));
    assert_eq!(proxy.get_user(String::from("alice")), Some(String::from("newer")));
    proxy.remove_user(String::from("alice"));
    assert_eq!(proxy.get_user(String::from("alice")), None);
    proxy.remove_user(String::from("alice"));
    assert_eq!(proxy.get_user(String::from("alice")), None);
}

#[test]
fn enabled_methods_are_the_configured_ones() {
    let proxy = Proxy::new(vec![AuthMethods::UsernamePassword, AuthMethods::NoAuth]);
    assert!(proxy.check_valid_auth_method(&AuthMethods::UsernamePassword));
    assert!(proxy.check_valid_auth_method(&AuthMethods::NoAuth));
    assert!(!proxy.check_valid_auth_method(&AuthMethods::GsSAPI));
}

#[test]
fn auth_message_decodes_username_and_password() {
    let mut msg = vec![1u8, 5u8];
    msg.extend_from_slice(b"alice");
    msg.push(6u8);
    msg.extend_from_slice(b"secret");
    let request = parse_auth_message(&msg).unwrap();
    assert_eq!(request.username, b"alice".to_vec());
    assert_eq!(request.password, b"secret".to_vec());
}

#[test]
fn auth_message_framing_errors() {
    let empty: Vec<u8> = vec![];
    assert!(matches!(parse_auth_message(&empty), Err(ProtocolError::Truncated)));

    let bad_version = vec![2u8, 1u8, 97u8, 1u8, 98u8];
    assert!(matches!(parse_auth_message(&bad_version), Err(ProtocolError::BadVersion)));

    // Declares a five-byte username but sends three bytes of it.
    let short_user = vec![1u8, 5u8, 97u8, 98u8, 99u8];
    assert!(matches!(parse_auth_message(&short_user), Err(ProtocolError::Truncated)));

    // Declares a three-byte password but sends one byte of it.
    let short_pass = vec![1u8, 1u8, 97u8, 3u8, 98u8];
    assert!(matches!(parse_auth_message(&short_pass), Err(ProtocolError::Truncated)));
}

#[test]
fn auth_reply_is_version_then_status() {
    assert_eq!(auth_reply(true), vec![1u8, 0u8]);
    assert_eq!(auth_reply(false), vec![1u8, 1u8]);
}
