use todo_service::models::ReqAddUser;
use todo_service::password::verify_password;
use todo_service::users::{add_user_outcome, get_user, new_user_hash};

fn req() -> ReqAddUser {
    ReqAddUser {
        no_hp: "0899".to_string(),
        nama_depan: "Andi".to_string(),
        nama_belakang: "Wijaya".to_string(),
        password: "p@ss".to_string(),
        otp: "1234".to_string(),
    }
}

#[test]
fn open_route_text() {
    assert_eq!(get_user(), "from user fn");
}

#[test]
fn new_user_hash_verifies_for_its_password() {
    let r = req();
    let h = new_user_hash(&r).unwrap();
    assert_eq!(h.len(), 60);
    assert!(h.starts_with("$2b$12$"));
    assert_eq!(verify_password(&r.password, &h), Ok(true));
    assert_eq!(verify_password(&"other".to_string(), &h), Ok(false));
}

#[test]
fn stored_user_is_acknowledged() {
    let (status, body) = add_user_outcome(&req(), Ok(())).unwrap();
    assert_eq!(status, 200);
    assert_eq!(body.kode, "201 Created");
    assert_eq!(body.message, "Sukses");
    assert_eq!(body.data.unwrap().nama_depan, "Andi");
}

#[test]
fn failed_store_is_server_error() {
    let (status, message) = add_user_outcome(&req(), Err("UNIQUE constraint".to_string())).unwrap_err();
    assert_eq!(status, 500);
    assert_eq!(message, "UNIQUE constraint");
}
