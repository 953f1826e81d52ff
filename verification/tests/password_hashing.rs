use todo_service::password::{hash_password, verify_password, HASH_COST};
use todo_service::status::INTERNAL_SERVER_ERROR;

#[test]
fn hash_has_bcrypt_shape() {
    let h = hash_password(&"rahasia".to_string()).unwrap();
    assert_eq!(h.len(), 60);
    assert!(h.starts_with("$2b$12$"));
    assert_eq!(HASH_COST, 12);
    assert_ne!(h, "rahasia");
}

#[test]
fn hashed_password_verifies() {
    let pw = "kata sandi 123".to_string();
    let h = hash_password(&pw).unwrap();
    assert_eq!(verify_password(&pw, &h), Ok(true));
}

#[test]
fn wrong_password_does_not_verify() {
    let h = hash_password(&"benar".to_string()).unwrap();
    assert_eq!(verify_password(&"salah".to_string(), &h), Ok(false));
}

#[test]
fn two_hashes_of_one_password_differ_and_both_verify() {
    let pw = "sama".to_string();
    let h1 = hash_password(&pw).unwrap();
    let h2 = hash_password(&pw).unwrap();
    assert_ne!(h1, h2);
    assert_eq!(verify_password(&pw, &h1), Ok(true));
    assert_eq!(verify_password(&pw, &h2), Ok(true));
}

#[test]
fn known_hash_verifies() {
    let hash = "$2b$04$EGdrhbKUv8Oc9vGiXX0HQOxSg445d458Muh7DAHskb6QbtCvdxcie";
    assert_eq!(verify_password(&"correctbatteryhorsestapler".to_string(), hash), Ok(true));
    assert_eq!(verify_password(&"correctbatteryhorsestaple".to_string(), hash), Ok(false));
}

#[test]
fn malformed_hash_is_a_server_error() {
    assert_eq!(verify_password(&"x".to_string(), "not a hash"), Err(500));
    assert_eq!(verify_password(&"x".to_string(), ""), Err(500));
    assert_eq!(verify_password(&"x".to_string(), "plaintext-password"), Err(INTERNAL_SERVER_ERROR));
}
