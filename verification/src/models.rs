//! Request and response bodies, and the record that ties a user to a token.

use vstd::prelude::*;

verus! {

/// Envelope of most JSON answers: the status text, a message and an
/// optional payload.
#[derive(Debug)]
pub struct ResponseModel<T> {
    pub kode: String,
    pub message: String,
    pub data: Option<T>,
}

/// Envelope of answers that carry no payload.
#[derive(Debug)]
pub struct GeneralResponse {
    pub kode: String,
    pub message: String,
}

/// A row of the `token_user` table: who holds which pair of tokens.
#[derive(Clone, Debug)]
pub struct ValueCekToken {
    pub no_hp: String,
    pub nama_depan: String,
    pub access_token: String,
    pub refresh_token: String,
}

/// Body of a login request.
#[derive(Debug)]
pub struct ReqLogin {
    pub no_hp: String,
    pub password: String,
}

/// Payload of a successful login.
#[derive(Debug)]
pub struct ResLoginUser {
    pub nama_depan: String,
    pub token: String,
}

/// Body of a sign-up request.
#[derive(Debug)]
pub struct ReqAddUser {
    pub no_hp: String,
    pub nama_depan: String,
    pub nama_belakang: String,
    pub password: String,
    pub otp: String,
}

/// Payload of a successful sign-up.
#[derive(Debug)]
pub struct ResAddUser {
    pub nama_depan: String,
}

impl ValueCekToken {
    /// The record that stands for "no such token": every field is empty.
    pub open spec fn is_blank(&self) -> bool {
        &&& self.no_hp@.len() == 0
        &&& self.nama_depan@.len() == 0
        &&& self.access_token@.len() == 0
        &&& self.refresh_token@.len() == 0
    }

    /// Builds the blank record.
    pub fn blank() -> (r: ValueCekToken)
        ensures
            r.is_blank(),
    {
        ValueCekToken {
            no_hp: String::new(),
            nama_depan: String::new(),
            access_token: String::new(),
            refresh_token: String::new(),
        }
    }

    /// A field-by-field copy, equal to the original.
    pub fn copy(&self) -> (r: ValueCekToken)
        ensures
            r == *self,
    {
        ValueCekToken {
            no_hp: self.no_hp.clone(),
            nama_depan: self.nama_depan.clone(),
            access_token: self.access_token.clone(),
            refresh_token: self.refresh_token.clone(),
        }
    }
}

} // verus!
