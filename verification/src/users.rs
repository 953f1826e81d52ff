//! Sign-up: the password is hashed before the user is stored, and the
//! stored user is acknowledged with its first name.

use vstd::prelude::*;
use crate::models::{ReqAddUser, ResAddUser, ResponseModel};
use crate::password::{hash_password, verify_password_result};
use crate::status::{status_kode, status_line, CREATED, INTERNAL_SERVER_ERROR, OK};

verus! {

/// The text of the open user route.
pub fn get_user() -> (s: String)
    ensures
        s@ == "from user fn"@,
{
    String::from_str("from user fn")
}

/// The hash to store for a new user's password, or the failure to report:
/// 500 with "Gagal hashing password". A hash that is returned is one that
/// `verify_password` accepts for the same password.
pub fn new_user_hash(req: &ReqAddUser) -> (r: Result<String, (u16, String)>)
    ensures
        r matches Ok(h) ==> verify_password_result(req.password@, h@) == Ok::<bool, u16>(true)
            && h@.len() == 60 && h@.subrange(0, 7) == "$2b$12$"@,
        r matches Err(e) ==> e.0 == INTERNAL_SERVER_ERROR && e.1@ == "Gagal hashing password"@,
{
    match hash_password(&req.password) {
        Ok(h) => Ok(h),
        Err(_) => Err((INTERNAL_SERVER_ERROR, String::from_str("Gagal hashing password"))),
    }
}

/// The answer to a sign-up once the database has been asked to store the
/// user (`Err` with the database's error text when that failed): status 200
/// with `{kode: "201 Created", message: "Sukses", data: {nama_depan}}`, or a
/// failure with 500 and the error text.
pub fn add_user_outcome(req: &ReqAddUser, stored: Result<(), String>) -> (r: Result<
    (u16, ResponseModel<ResAddUser>),
    (u16, String),
>)
    ensures
        match stored {
            Err(m) => r matches Err(e) && e.0 == INTERNAL_SERVER_ERROR && e.1 == m,
            Ok(_) => r matches Ok(answer) && {
                &&& answer.0 == OK
                &&& answer.1.kode@ == status_line(CREATED)
                &&& answer.1.message@ == "Sukses"@
                &&& answer.1.data matches Some(d) && d.nama_depan@ == req.nama_depan@
            },
        },
{
    match stored {
        Err(m) => Err((INTERNAL_SERVER_ERROR, m)),
        Ok(_) => {
            let body = ResponseModel {
                kode: status_kode(CREATED),
                message: String::from_str("Sukses"),
                data: Some(ResAddUser { nama_depan: req.nama_depan.clone() }),
            };
            Ok((OK, body))
        },
    }
}

} // verus!
