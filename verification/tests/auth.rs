use memehook::auth::{authorize, token_authorization};
use memehook::error::Error;

fn tokens(list: &[&str]) -> Vec<String> {
    list.iter().map(|t| t.to_string()).collect()
}

#[test]
fn token_header_yields_its_credential() {
    assert_eq!(token_authorization(b"Token abc123"), Ok("abc123".to_string()));
}

#[test]
fn accepted_credential_is_authorized() {
    let credential = token_authorization(b"Token abc123").unwrap();
    assert!(authorize(&credential, &tokens(&["abc123"])));
}

#[test]
fn bearer_scheme_is_malformed() {
    assert_eq!(token_authorization(b"Bearer abc123"), Err(Error::MalformedHeader));
}

#[test]
fn scheme_without_separator_is_malformed() {
    assert_eq!(token_authorization(b"Token"), Err(Error::MalformedHeader));
    assert_eq!(token_authorization(b"Tokenabc123"), Err(Error::MalformedHeader));
    assert_eq!(token_authorization(b"Token\tabc123"), Err(Error::MalformedHeader));
}

#[test]
fn empty_header_is_malformed() {
    assert_eq!(token_authorization(b""), Err(Error::MalformedHeader));
}

#[test]
fn scheme_is_case_sensitive() {
    assert_eq!(token_authorization(b"token abc123"), Err(Error::MalformedHeader));
    assert_eq!(token_authorization(b"TOKEN abc123"), Err(Error::MalformedHeader));
}

#[test]
fn leading_space_is_malformed() {
    assert_eq!(token_authorization(b" Token abc123"), Err(Error::MalformedHeader));
}

#[test]
fn credential_may_be_empty() {
    assert_eq!(token_authorization(b"Token "), Ok(String::new()));
}

#[test]
fn credential_keeps_further_spaces() {
    assert_eq!(token_authorization(b"Token  a b "), Ok(" a b ".to_string()));
}

#[test]
fn credential_may_be_any_text() {
    let header = "Token p\u{e4}ss\u{20ac}\u{1f600}".as_bytes();
    assert_eq!(token_authorization(header), Ok("p\u{e4}ss\u{20ac}\u{1f600}".to_string()));
}

#[test]
fn credential_that_is_not_text_is_malformed() {
    assert_eq!(token_authorization(b"Token \xff\xfe"), Err(Error::MalformedHeader));
    assert_eq!(token_authorization(b"Token abc\xc3"), Err(Error::MalformedHeader));
    assert_eq!(token_authorization(b"Token \xed\xa0\x80"), Err(Error::MalformedHeader));
}

#[test]
fn authorization_is_exact() {
    let accepted = tokens(&["abc123", "other"]);
    assert!(authorize(&"abc123".to_string(), &accepted));
    assert!(authorize(&"other".to_string(), &accepted));
    assert!(!authorize(&"ABC123".to_string(), &accepted));
    assert!(!authorize(&"abc123 ".to_string(), &accepted));
    assert!(!authorize(&" abc123".to_string(), &accepted));
    assert!(!authorize(&"abc12".to_string(), &accepted));
    assert!(!authorize(&"abc1234".to_string(), &accepted));
    assert!(!authorize(&String::new(), &accepted));
}

#[test]
fn nothing_is_authorized_without_tokens() {
    assert!(!authorize(&"abc123".to_string(), &Vec::new()));
    assert!(!authorize(&String::new(), &Vec::new()));
}

#[test]
fn empty_token_is_a_token() {
    assert!(authorize(&String::new(), &tokens(&["abc", ""])));
}
