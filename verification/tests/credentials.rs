use nyat::auth::Credentials;
use nyat::auth::CredentialsVerifyError;

fn parse(username: &str, password: &str) -> Result<Credentials, CredentialsVerifyError> {
    Credentials::parse(username.to_string(), password.to_string())
}

#[test]
fn parse_keeps_both_fields_as_they_came() {
    let credentials = parse("alice", "longenoughpw").expect("both rules are met");
    assert_eq!(credentials.username, "alice");
    assert_eq!(credentials.password, "longenoughpw");
}

#[test]
fn parse_accepts_a_password_of_eight() {
    assert!(parse("alice", "12345678").is_ok());
}

#[test]
fn parse_refuses_a_password_of_seven() {
    assert_eq!(parse("alice", "1234567"), Err(CredentialsVerifyError::BadPasswordLength));
}

#[test]
fn parse_accepts_a_password_of_256() {
    let password = "p".repeat(256);
    let credentials = parse("alice", &password).expect("256 is the longest accepted");
    assert_eq!(credentials.password.len(), 256);
}

#[test]
fn parse_refuses_a_password_of_257() {
    let password = "p".repeat(257);
    assert_eq!(parse("alice", &password), Err(CredentialsVerifyError::BadPasswordLength));
}

#[test]
fn parse_refuses_an_empty_password() {
    assert_eq!(parse("alice", ""), Err(CredentialsVerifyError::BadPasswordLength));
}

#[test]
fn parse_refuses_every_length_outside_the_range() {
    for length in (0..8).chain(257..300) {
        let password = "x".repeat(length);
        assert_eq!(
            parse("bob", &password),
            Err(CredentialsVerifyError::BadPasswordLength),
            "length {}",
            length
        );
    }
}

#[test]
fn parse_accepts_every_length_inside_the_range() {
    for length in 8..=256 {
        let password = "x".repeat(length);
        assert!(parse("bob", &password).is_ok(), "length {}", length);
    }
}

#[test]
fn parse_refuses_a_username_outside_ascii() {
    assert_eq!(
        parse("不是ascii", "strong_password"),
        Err(CredentialsVerifyError::InvalidCharacter)
    );
}

#[test]
fn parse_refuses_a_password_outside_ascii() {
    assert_eq!(
        parse("ascii", "不是ascii-1111111"),
        Err(CredentialsVerifyError::InvalidCharacter)
    );
}

#[test]
fn parse_reports_the_character_before_the_length() {
    assert_eq!(parse("alice", "né"), Err(CredentialsVerifyError::InvalidCharacter));
    assert_eq!(parse("zoë", "short"), Err(CredentialsVerifyError::InvalidCharacter));
    let long = "é".repeat(300);
    assert_eq!(parse("alice", &long), Err(CredentialsVerifyError::InvalidCharacter));
}

#[test]
fn parse_asks_nothing_more_of_the_username() {
    assert!(parse("", "12345678").is_ok());
    assert!(parse("a b\tc%_", "12345678").is_ok());
    let long = "u".repeat(1000);
    assert!(parse(&long, "12345678").is_ok());
}

#[test]
fn parse_accepts_the_last_ascii_character_and_refuses_the_next() {
    assert!(parse("del\u{7f}", "1234567\u{7f}").is_ok());
    assert_eq!(parse("pad\u{80}", "12345678"), Err(CredentialsVerifyError::InvalidCharacter));
}

#[test]
fn credentials_errors_say_which_rule_was_broken() {
    assert_eq!(
        CredentialsVerifyError::BadPasswordLength.to_string(),
        "Password length not match the requirement: only length in the range 8-256 is acceptable"
    );
    assert_eq!(CredentialsVerifyError::InvalidCharacter.to_string(), "Invalid character");
}
