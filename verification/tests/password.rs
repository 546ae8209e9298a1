use nyat::auth::hash_password;
use nyat::auth::verify_password;
use nyat::auth::DigestError;

const KNOWN_DIGEST: &str =
    "$argon2id$v=19$m=256,t=2,p=1$c29tZXNhbHQ$nf65EOgLrQMR/uIPnA4rEsF5h7TKyQwu9U1bMCHGi/4";

#[test]
fn verify_accepts_the_password_of_a_known_digest() {
    assert_eq!(verify_password("password", KNOWN_DIGEST), Ok(true));
}

#[test]
fn verify_says_false_for_another_password() {
    assert_eq!(verify_password("sassword", KNOWN_DIGEST), Ok(false));
    assert_eq!(verify_password("", KNOWN_DIGEST), Ok(false));
    assert_eq!(verify_password(KNOWN_DIGEST, KNOWN_DIGEST), Ok(false));
}

#[test]
fn verify_reports_a_digest_that_is_no_phc_string() {
    assert_eq!(verify_password("password", ""), Err(DigestError::Malformed));
    assert_eq!(verify_password("password", "password"), Err(DigestError::Malformed));
    assert_eq!(verify_password("password", "$argon2id$v=19$m=256$"), Err(DigestError::Malformed));
    assert_eq!(verify_password("password", "$argon2id$v=x$m=256"), Err(DigestError::Malformed));
}

#[test]
fn verify_says_false_for_a_digest_without_salt_and_output() {
    assert_eq!(verify_password("password", "$argon2id$v=19$m=256,t=2,p=1"), Ok(false));
}

#[test]
fn verify_says_false_for_a_digest_of_an_algorithm_it_does_not_know() {
    let other = "$scrypt$ln=16,r=8,p=1$c29tZXNhbHQ$nf65EOgLrQMR/uIPnA4rEsF5h7TKyQwu9U1bMCHGi/4";
    assert_eq!(verify_password("password", other), Ok(false));
}

#[test]
fn a_digest_verifies_against_its_own_password() {
    let digest = hash_password("longenoughpw").expect("hashing a short ASCII password");
    assert_eq!(verify_password("longenoughpw", &digest), Ok(true));
}

#[test]
fn a_digest_does_not_verify_against_another_password() {
    let digest = hash_password("longenoughpw").expect("hashing a short ASCII password");
    assert_eq!(verify_password("longenoughpW", &digest), Ok(false));
}

#[test]
fn a_digest_names_its_algorithm_and_parameters_and_is_not_the_password() {
    let digest = hash_password("strong_password").expect("hashing a short ASCII password");
    assert!(digest.starts_with("$argon2id$v=19$m=19456,t=2,p=1$"), "{}", digest);
    assert_ne!(digest, "strong_password");
    assert!(!digest.contains("strong_password"));
}

#[test]
fn two_digests_of_one_password_differ_by_their_salt() {
    let first = hash_password("strong_password").expect("hashing a short ASCII password");
    let second = hash_password("strong_password").expect("hashing a short ASCII password");
    assert_ne!(first, second);
}
