use auth_core::generate_random_password;
use auth_core::hash_pw;
use auth_core::hash_then_verify;
use auth_core::verify_pw;
use auth_core::AuthError;

#[test]
fn verify_accepts_the_hashed_password() {
    assert_eq!(hash_then_verify("Abcdef12").unwrap(), true);
}

#[test]
fn verify_rejects_a_different_password() {
    let hash = hash_pw("Abcdef12").unwrap();
    assert_eq!(verify_pw("Abcdef13", &hash).unwrap(), false);
}

#[test]
fn hash_is_not_the_password_itself() {
    let hash = hash_pw("Abcdef12").unwrap();
    assert_ne!(hash, "Abcdef12");
    assert!(hash.starts_with("$argon2"));
}

#[test]
fn two_hashes_of_one_password_differ_by_salt() {
    let first = hash_pw("Abcdef12").unwrap();
    let second = hash_pw("Abcdef12").unwrap();
    assert_ne!(first, second);
    assert_eq!(verify_pw("Abcdef12", &first).unwrap(), true);
    assert_eq!(verify_pw("Abcdef12", &second).unwrap(), true);
}

#[test]
fn malformed_stored_hash_is_an_error_not_a_mismatch() {
    let r = verify_pw("Abcdef12", "not a phc hash at all");
    assert!(matches!(r, Err(AuthError::VerificationFailure)));
}

#[test]
fn generated_password_has_sixteen_charset_characters() {
    let charset = "ABCDEFGHIJKLMNOPQRSTUVWXYZabcdefghijklmnopqrstuvwxyz0123456789!@#$%^&*()_+-=[]{}|;:',.<>/?";
    let pw = generate_random_password();
    assert_eq!(pw.chars().count(), 16);
    for c in pw.chars() {
        assert!(charset.contains(c));
    }
}

#[test]
fn generated_passwords_differ() {
    assert_ne!(generate_random_password(), generate_random_password());
}
