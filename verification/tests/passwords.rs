use ai_gateway::models::User;
use ai_gateway::utils::{
    check_login, generate_random_password, hash_password, verify_password, PasswordError,
};

#[test]
fn hash_then_verify_round_trip() {
    let hash = hash_password("hunter2-example").unwrap();
    assert_eq!(verify_password(&hash, "hunter2-example"), Ok(true));
    assert_eq!(verify_password(&hash, "not-the-password"), Ok(false));
}

#[test]
fn unusable_stored_hash_is_an_error_not_a_verdict() {
    assert_eq!(
        verify_password("not a phc string", "whatever"),
        Err(PasswordError::UnusableHash)
    );
}

#[test]
fn login_decision() {
    let hash = hash_password("correct-horse").unwrap();
    let user = User { id: 1, username: "admin".to_string(), password_hash: hash };
    assert!(check_login(Some(&user), "correct-horse"));
    assert!(!check_login(Some(&user), "battery-staple"));
    assert!(!check_login(None, "correct-horse"));

    let broken = User {
        id: 2,
        username: "admin".to_string(),
        password_hash: "garbage".to_string(),
    };
    assert!(!check_login(Some(&broken), "correct-horse"));
}

#[test]
fn random_passwords_have_the_asked_length_and_charset() {
    for len in [0usize, 1, 12, 40] {
        let pw = generate_random_password(len);
        assert_eq!(pw.chars().count(), len);
        assert!(pw.chars().all(|c| c.is_ascii_alphanumeric()));
    }
    // Two fresh 32-character passwords colliding would be astonishing.
    assert_ne!(generate_random_password(32), generate_random_password(32));
}
