//! The login flow, as a state machine.
//!
//! The server runs the machine for one login request: it feeds the outcome
//! of each database action as an event and performs the action that comes
//! back, until the machine answers (`Respond`) or fails (`Fail`).
//!
//! - The user is read from `user` by phone number; an unreadable row fails
//!   the request with 401 and the row's error text.
//! - An unknown number and a wrong password get the same answer: 401 with
//!   "Password atau username salah". A stored hash that cannot be checked
//!   fails the request with 500.
//! - With the right password, fresh tokens are made and stored for the user;
//!   then the stored session is read back and answered with 200 and the
//!   user's first name and access token, or with 404 when it cannot be found.

use vstd::prelude::*;
use crate::models::{GeneralResponse, ReqLogin, ResLoginUser, ResponseModel};
use crate::password::{verify_password, verify_password_result};
use crate::status::{status_kode, status_line, INTERNAL_SERVER_ERROR, NOT_FOUND, OK, UNAUTHORIZED};

verus! {

/// A row of the `user` table as the login reads it.
#[derive(Debug)]
pub struct UserRow {
    pub no_hp: String,
    pub nama_depan: String,
    pub password: String,
}

impl UserRow {
    /// A field-by-field copy, equal to the original.
    pub fn copy(&self) -> (r: UserRow)
        ensures
            r == *self,
    {
        UserRow {
            no_hp: self.no_hp.clone(),
            nama_depan: self.nama_depan.clone(),
            password: self.password.clone(),
        }
    }
}

impl ResLoginUser {
    /// A field-by-field copy, equal to the original.
    pub fn copy(&self) -> (r: ResLoginUser)
        ensures
            r == *self,
    {
        ResLoginUser { nama_depan: self.nama_depan.clone(), token: self.token.clone() }
    }
}

/// Where the login of one request stands.
pub enum LoginState {
    /// The user's row is being read.
    AwaitUser,
    /// Fresh tokens are being made and stored.
    AwaitStored,
    /// The stored session is being read back.
    AwaitSession,
    /// The request has been answered.
    Finished,
}

/// What the server reports back; `Err` carries the database's error text.
pub enum LoginEvent {
    /// The rows of `user` for the phone number; `Err` for a row that could
    /// not be read.
    UserRows { rows: Result<Vec<Result<UserRow, String>>, String> },
    /// Whether the fresh tokens were stored.
    Stored { outcome: Result<(), String> },
    /// The rows of `token_user` for the phone number; `None` for a row that
    /// could not be read.
    SessionRows { sessions: Result<Vec<Option<ResLoginUser>>, String> },
}

/// The JSON body of an answer.
pub enum LoginReply {
    /// The login is refused.
    Denied(GeneralResponse),
    /// The session found after the login, or its absence.
    Session(ResponseModel<ResLoginUser>),
}

/// What the server must do next.
pub enum LoginAction {
    /// Make an access and a refresh token and store them in `token_user`
    /// for this user (inserting or replacing its row).
    IssueTokens { no_hp: String, nama_depan: String },
    /// Read the first name and access token stored for `no_hp`.
    FetchSession { no_hp: String },
    /// Answer with this status and JSON body.
    Respond { status: u16, body: LoginReply },
    /// Fail the request with this status and plain-text message.
    Fail { status: u16, message: String },
}

/// Reading the user rows in order, when the rows before chose `last`: the
/// first unreadable row decides an error with its text; otherwise the last
/// row is chosen (`None` when there is none).
pub open spec fn select_user_from(rows: Seq<Result<UserRow, String>>, last: Option<UserRow>) -> Result<
    Option<UserRow>,
    String,
>
    decreases rows.len(),
{
    if rows.len() == 0 {
        Ok(last)
    } else {
        match rows[0] {
            Err(m) => Err(m),
            Ok(u) => select_user_from(rows.drop_first(), Some(u)),
        }
    }
}

/// The user that the login reads from `rows`.
pub open spec fn select_user(rows: Seq<Result<UserRow, String>>) -> Result<Option<UserRow>, String> {
    select_user_from(rows, None)
}

/// The last readable session row.
pub open spec fn last_session(rows: Seq<Option<ResLoginUser>>) -> Option<ResLoginUser>
    decreases rows.len(),
{
    if rows.len() == 0 {
        None
    } else {
        match rows.last() {
            Some(u) => Some(u),
            None => last_session(rows.drop_last()),
        }
    }
}

/// `a` refuses the login: 401 with `{kode: "401 Unauthorized", message:
/// "Password atau username salah"}`.
pub open spec fn is_refusal(a: LoginAction) -> bool {
    &&& a matches LoginAction::Respond { status, body: LoginReply::Denied(b) }
    &&& status == UNAUTHORIZED
    &&& b.kode@ == status_line(UNAUTHORIZED)
    &&& b.message@ == "Password atau username salah"@
}

/// `a` fails the request with `status` and `message`.
pub open spec fn is_failure(a: LoginAction, status: u16, message: Seq<char>) -> bool {
    a matches LoginAction::Fail { status: s, message: m } && s == status && m@ == message
}

/// What follows the password check for user `u`, given the check's outcome.
pub open spec fn password_judged(u: UserRow, verified: Result<bool, u16>, next: LoginState, act: LoginAction) -> bool {
    match verified {
        Err(code) => next is Finished && is_failure(act, INTERNAL_SERVER_ERROR, status_line(code)),
        Ok(false) => next is Finished && is_refusal(act),
        Ok(true) => next is AwaitStored && act == (LoginAction::IssueTokens {
            no_hp: u.no_hp,
            nama_depan: u.nama_depan,
        }),
    }
}

/// What the login answers for the session rows read back.
pub open spec fn session_answered(rows: Seq<Option<ResLoginUser>>, act: LoginAction) -> bool {
    match last_session(rows) {
        Some(u) => {
            &&& act matches LoginAction::Respond { status, body: LoginReply::Session(b) }
            &&& status == OK
            &&& b.kode@ == status_line(OK)
            &&& b.message@ == "Sukses"@
            &&& b.data == Some(u)
        },
        None => {
            &&& act matches LoginAction::Respond { status, body: LoginReply::Session(b) }
            &&& status == NOT_FOUND
            &&& b.kode@ == status_line(NOT_FOUND)
            &&& b.message@ == "Gagal"@
            &&& b.data is None
        },
    }
}

/// Whether the login in state `s` waits for event `e`.
pub open spec fn login_accepts(s: LoginState, e: LoginEvent) -> bool {
    match s {
        LoginState::AwaitUser => e is UserRows,
        LoginState::AwaitStored => e is Stored,
        LoginState::AwaitSession => e is SessionRows,
        LoginState::Finished => false,
    }
}

/// One step of the login of request `req`: from state `s` and event `e` it
/// moves to `next` and asks for `act`.
pub open spec fn login_transition(
    req: ReqLogin,
    s: LoginState,
    e: LoginEvent,
    next: LoginState,
    act: LoginAction,
) -> bool {
    match s {
        LoginState::AwaitUser => match e {
            LoginEvent::UserRows { rows: Err(m) } => next is Finished && is_failure(
                act,
                INTERNAL_SERVER_ERROR,
                m@,
            ),
            LoginEvent::UserRows { rows: Ok(rows) } => match select_user(rows@) {
                Err(m) => next is Finished && is_failure(act, UNAUTHORIZED, m@),
                Ok(None) => next is Finished && is_refusal(act),
                Ok(Some(u)) => if u.password@.len() == 0 {
                    next is Finished && is_refusal(act)
                } else {
                    password_judged(u, verify_password_result(req.password@, u.password@), next, act)
                },
            },
            _ => false,
        },
        LoginState::AwaitStored => match e {
            LoginEvent::Stored { outcome: Err(m) } => next is Finished && is_failure(
                act,
                INTERNAL_SERVER_ERROR,
                m@,
            ),
            LoginEvent::Stored { outcome: Ok(_) } => next is AwaitSession && (act matches LoginAction::FetchSession { no_hp }
                && no_hp@ == req.no_hp@),
            _ => false,
        },
        LoginState::AwaitSession => match e {
            LoginEvent::SessionRows { sessions: Err(m) } => next is Finished && is_failure(
                act,
                INTERNAL_SERVER_ERROR,
                m@,
            ),
            LoginEvent::SessionRows { sessions: Ok(rows) } => next is Finished && session_answered(rows@, act),
            _ => false,
        },
        LoginState::Finished => false,
    }
}

/// The state in which every login starts.
pub fn login_start() -> (s: LoginState)
    ensures
        s is AwaitUser,
{
    LoginState::AwaitUser
}

/// Whether the login has been answered.
pub fn login_finished(s: &LoginState) -> (b: bool)
    ensures
        b == (*s is Finished),
{
    match s {
        LoginState::Finished => true,
        _ => false,
    }
}

/// Whether the login in state `s` waits for event `e`.
pub fn login_waits_for(s: &LoginState, e: &LoginEvent) -> (b: bool)
    ensures
        b == login_accepts(*s, *e),
{
    match s {
        LoginState::AwaitUser => matches!(e, LoginEvent::UserRows { .. }),
        LoginState::AwaitStored => matches!(e, LoginEvent::Stored { .. }),
        LoginState::AwaitSession => matches!(e, LoginEvent::SessionRows { .. }),
        LoginState::Finished => false,
    }
}

/// Picks the user from the rows read for a phone number: the first
/// unreadable row gives its error text, otherwise the last row is the user.
pub fn select_login_user(rows: &Vec<Result<UserRow, String>>) -> (r: Result<Option<UserRow>, String>)
    ensures
        r == select_user(rows@),
{
    let mut last: Option<UserRow> = None;
    let n = rows.len();
    let mut i: usize = 0;
    assert(rows@.skip(0) =~= rows@);
    while i < n
        invariant
            n == rows@.len(),
            i <= n,
            select_user_from(rows@.skip(i as int), last) == select_user(rows@),
        decreases n - i,
    {
        assert(rows@.skip(i as int).drop_first() =~= rows@.skip(i + 1));
        match &rows[i] {
            Err(m) => {
                return Err(m.clone());
            },
            Ok(u) => {
                last = Some(u.copy());
            },
        }
        i = i + 1;
    }
    assert(rows@.skip(n as int).len() == 0);
    Ok(last)
}

/// Picks the last readable session row.
pub fn pick_session(rows: &Vec<Option<ResLoginUser>>) -> (r: Option<ResLoginUser>)
    ensures
        r == last_session(rows@),
{
    let mut i: usize = rows.len();
    assert(rows@.subrange(0, i as int) =~= rows@);
    while i > 0
        invariant
            i <= rows@.len(),
            last_session(rows@.subrange(0, i as int)) == last_session(rows@),
        decreases i,
    {
        assert(rows@.subrange(0, i as int).drop_last() =~= rows@.subrange(0, i - 1));
        match &rows[i - 1] {
            Some(u) => {
                return Some(u.copy());
            },
            None => {},
        }
        i = i - 1;
    }
    None
}

/// The refusal that an unknown number and a wrong password both get.
fn refusal() -> (r: (LoginState, LoginAction))
    ensures
        r.0 is Finished,
        is_refusal(r.1),
{
    let body = GeneralResponse {
        kode: status_kode(UNAUTHORIZED),
        message: String::from_str("Password atau username salah"),
    };
    (LoginState::Finished, LoginAction::Respond { status: UNAUTHORIZED, body: LoginReply::Denied(body) })
}

/// Decides what follows the password check for user `u`, given the
/// outcome of `verify_password` (an error status when the stored hash could
/// not be checked).
pub fn judge_password(u: UserRow, verified: Result<bool, u16>) -> (r: (LoginState, LoginAction))
    requires
        verified matches Err(code) ==> 100 <= code <= 999,
    ensures
        password_judged(u, verified, r.0, r.1),
{
    match verified {
        Err(code) => (
            LoginState::Finished,
            LoginAction::Fail { status: INTERNAL_SERVER_ERROR, message: status_kode(code) },
        ),
        Ok(false) => refusal(),
        Ok(true) => (
            LoginState::AwaitStored,
            LoginAction::IssueTokens { no_hp: u.no_hp, nama_depan: u.nama_depan },
        ),
    }
}

/// Answers the session rows read back after the tokens were stored.
pub fn answer_session(rows: &Vec<Option<ResLoginUser>>) -> (r: (LoginState, LoginAction))
    ensures
        r.0 is Finished,
        session_answered(rows@, r.1),
{
    match pick_session(rows) {
        Some(u) => {
            let body = ResponseModel {
                kode: status_kode(OK),
                message: String::from_str("Sukses"),
                data: Some(u),
            };
            (LoginState::Finished, LoginAction::Respond { status: OK, body: LoginReply::Session(body) })
        },
        None => {
            let body = ResponseModel {
                kode: status_kode(NOT_FOUND),
                message: String::from_str("Gagal"),
                data: None,
            };
            (
                LoginState::Finished,
                LoginAction::Respond { status: NOT_FOUND, body: LoginReply::Session(body) },
            )
        },
    }
}

/// Takes one step of the login of request `req`.
pub fn login_step(req: &ReqLogin, state: LoginState, event: LoginEvent) -> (res: (LoginState, LoginAction))
    requires
        login_accepts(state, event),
    ensures
        login_transition(*req, state, event, res.0, res.1),
{
    match state {
        LoginState::AwaitUser => match event {
            LoginEvent::UserRows { rows: Err(m) } => (
                LoginState::Finished,
                LoginAction::Fail { status: INTERNAL_SERVER_ERROR, message: m },
            ),
            LoginEvent::UserRows { rows: Ok(rows) } => match select_login_user(&rows) {
                Err(m) => (LoginState::Finished, LoginAction::Fail { status: UNAUTHORIZED, message: m }),
                Ok(None) => refusal(),
                Ok(Some(u)) => {
                    if u.password.as_str().is_empty() {
                        refusal()
                    } else {
                        let verified = verify_password(&req.password, u.password.as_str());
                        judge_password(u, verified)
                    }
                },
            },
            _ => {
                assert(false);
                refusal()
            },
        },
        LoginState::AwaitStored => match event {
            LoginEvent::Stored { outcome: Err(m) } => (
                LoginState::Finished,
                LoginAction::Fail { status: INTERNAL_SERVER_ERROR, message: m },
            ),
            LoginEvent::Stored { outcome: Ok(_) } => (
                LoginState::AwaitSession,
                LoginAction::FetchSession { no_hp: req.no_hp.clone() },
            ),
            _ => {
                assert(false);
                refusal()
            },
        },
        LoginState::AwaitSession => match event {
            LoginEvent::SessionRows { sessions: Err(m) } => (
                LoginState::Finished,
                LoginAction::Fail { status: INTERNAL_SERVER_ERROR, message: m },
            ),
            LoginEvent::SessionRows { sessions: Ok(rows) } => answer_session(&rows),
            _ => {
                assert(false);
                refusal()
            },
        },
        LoginState::Finished => {
            assert(false);
            refusal()
        },
    }
}


/// Whether the answer `a` gives for a login denial is the same, text for
/// text, as the one `b` gives.
pub open spec fn same_answer(a: LoginAction, b: LoginAction) -> bool {
    &&& a matches LoginAction::Respond { status: sa, body: LoginReply::Denied(ba) }
    &&& b matches LoginAction::Respond { status: sb, body: LoginReply::Denied(bb) }
    &&& sa == sb
    &&& ba.kode@ == bb.kode@
    &&& ba.message@ == bb.message@
}

/// An unknown phone number and a known one with a wrong password get the
/// very same answer, so the answer does not tell which numbers exist.
pub proof fn lemma_unknown_user_and_wrong_password_alike(
    req: ReqLogin,
    no_user: Vec<Result<UserRow, String>>,
    with_user: Vec<Result<UserRow, String>>,
    u: UserRow,
    n1: LoginState,
    a1: LoginAction,
    n2: LoginState,
    a2: LoginAction,
)
    requires
        select_user(no_user@) == Ok::<Option<UserRow>, String>(None),
        select_user(with_user@) == Ok::<Option<UserRow>, String>(Some(u)),
        verify_password_result(req.password@, u.password@) == Ok::<bool, u16>(false),
        login_transition(req, LoginState::AwaitUser, LoginEvent::UserRows { rows: Ok(no_user) }, n1, a1),
        login_transition(req, LoginState::AwaitUser, LoginEvent::UserRows { rows: Ok(with_user) }, n2, a2),
    ensures
        same_answer(a1, a2),
        n1 is Finished && n2 is Finished,
{
}

/// Tokens are issued only to the user that the rows name, and only after
/// its stored hash accepted the password given.
pub proof fn lemma_tokens_only_for_right_password(
    req: ReqLogin,
    s: LoginState,
    e: LoginEvent,
    next: LoginState,
    act: LoginAction,
)
    requires
        login_transition(req, s, e, next, act),
        act is IssueTokens,
    ensures
        s is AwaitUser,
        e matches LoginEvent::UserRows { rows: Ok(rows) } && (select_user(rows@) matches Ok(Some(u))
            && verify_password_result(req.password@, u.password@) == Ok::<bool, u16>(true)
            && act == (LoginAction::IssueTokens { no_hp: u.no_hp, nama_depan: u.nama_depan })),
{
}

/// Every JSON answer of the login carries, in its `kode`, the text of the
/// status it is sent with.
pub proof fn lemma_answer_kode_is_status(
    req: ReqLogin,
    s: LoginState,
    e: LoginEvent,
    next: LoginState,
    act: LoginAction,
)
    requires
        login_transition(req, s, e, next, act),
        act is Respond,
    ensures
        match act->Respond_body {
            LoginReply::Denied(b) => b.kode@ == status_line(act->Respond_status),
            LoginReply::Session(b) => b.kode@ == status_line(act->Respond_status),
        },
        next is Finished,
{
}

/// A user whose stored password is a hash that `hash_password` made from
/// `p` (any hash it returns is accepted for `p` and is 60 characters long)
/// gets tokens when logging in with `p`.
pub proof fn lemma_signed_up_user_can_log_in(
    req: ReqLogin,
    rows: Vec<Result<UserRow, String>>,
    u: UserRow,
    next: LoginState,
    act: LoginAction,
)
    requires
        select_user(rows@) == Ok::<Option<UserRow>, String>(Some(u)),
        verify_password_result(req.password@, u.password@) == Ok::<bool, u16>(true),
        u.password@.len() == 60,
        login_transition(req, LoginState::AwaitUser, LoginEvent::UserRows { rows: Ok(rows) }, next, act),
    ensures
        act == (LoginAction::IssueTokens { no_hp: u.no_hp, nama_depan: u.nama_depan }),
        next is AwaitStored,
{
}


/// A readable row anywhere among the session rows means a session is found.
proof fn lemma_readable_row_gives_session(rows: Seq<Option<ResLoginUser>>, i: int)
    requires
        0 <= i < rows.len(),
        rows[i] is Some,
    ensures
        last_session(rows) is Some,
    decreases rows.len(),
{
    if rows.last() is None {
        assert(i < rows.len() - 1);
        assert(rows.drop_last()[i] == rows[i]);
        lemma_readable_row_gives_session(rows.drop_last(), i);
    }
}

/// Once the tokens are stored, a login whose session read-back holds at least
/// one readable row answers 200 "Sukses" with that session; 404 comes only
/// when no readable row comes back.
pub proof fn lemma_stored_session_is_answered_ok(
    req: ReqLogin,
    rows: Vec<Option<ResLoginUser>>,
    i: int,
    next: LoginState,
    act: LoginAction,
)
    requires
        0 <= i < rows@.len(),
        rows@[i] is Some,
        login_transition(req, LoginState::AwaitSession, LoginEvent::SessionRows { sessions: Ok(rows) }, next, act),
    ensures
        act matches LoginAction::Respond { status, body: LoginReply::Session(b) } && status == OK
            && b.message@ == "Sukses"@ && b.data == last_session(rows@) && b.data is Some,
{
    lemma_readable_row_gives_session(rows@, i);
}


/// The session that the login picks is one of the rows read back, unchanged,
/// and it is the last readable one; with no readable row it picks none.
pub proof fn lemma_session_is_last_readable_row(rows: Seq<Option<ResLoginUser>>)
    ensures
        last_session(rows) matches Some(s) ==> exists|j: int|
            0 <= j < rows.len() && rows[j] == Some(s) && forall|k: int| j < k < rows.len() ==> (#[trigger] rows[k]) is None,
        last_session(rows) is None ==> forall|k: int| 0 <= k < rows.len() ==> (#[trigger] rows[k]) is None,
    decreases rows.len(),
{
    if rows.len() > 0 {
        let j = rows.len() - 1;
        if rows.last() is None {
            let front = rows.drop_last();
            lemma_session_is_last_readable_row(front);
            assert forall|k: int| 0 <= k < front.len() implies front[k] == rows[k] by {}
            if last_session(front) is Some {
                let s = last_session(front).unwrap();
                let i = choose|i: int|
                    0 <= i < front.len() && front[i] == Some(s) && forall|k: int| i < k < front.len() ==> (#[trigger] front[k]) is None;
                assert(rows[i] == Some(s));
                assert forall|k: int| i < k < rows.len() implies (#[trigger] rows[k]) is None by {
                    if k < front.len() {
                        assert(front[k] == rows[k]);
                    }
                }
            } else {
                assert forall|k: int| 0 <= k < rows.len() implies (#[trigger] rows[k]) is None by {
                    if k < front.len() {
                        assert(front[k] == rows[k]);
                    }
                }
            }
        } else {
            assert(rows[j] == last_session(rows));
        }
    }
}

/// A session answer of the login carries in its data a row read back,
/// unchanged: for a single row `x`, the data is `x` itself.
pub proof fn lemma_answered_session_is_a_row(rows: Seq<Option<ResLoginUser>>, act: LoginAction)
    requires
        session_answered(rows, act),
    ensures
        act matches LoginAction::Respond { body: LoginReply::Session(b), .. } && (b.data matches Some(d)
            ==> exists|j: int| 0 <= j < rows.len() && rows[j] == Some(d)),
        rows.len() == 1 && rows[0] is Some ==> (act matches LoginAction::Respond {
            body: LoginReply::Session(b),
            ..
        } && b.data == rows[0]),
{
    lemma_session_is_last_readable_row(rows);
}

} // verus!
