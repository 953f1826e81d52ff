//! The guard in front of the protected routes, as a state machine.
//!
//! The server runs the machine: it feeds an event, performs the action that
//! comes back, and feeds the outcome of that action as the next event, until
//! an action ends the request (`Forward`, `Respond` or `Reject`).
//!
//! - The bearer token is read from the `Authorization` header; without one
//!   the request is rejected with 400.
//! - The token is looked up in `token_user`; a failing lookup is rejected
//!   with 500, an unknown token is answered 401 "Token tidak valid".
//! - The holder is attached to the request and the token's expiry is checked;
//!   a live token lets the request through.
//! - An expired token is refreshed with the holder's refresh token: the new
//!   access token is stored, written into the header, and the request starts
//!   over; when the refresh fails the request is rejected with 401.

use vstd::prelude::*;
use crate::models::{ResponseModel, ValueCekToken};
use crate::status::{status_kode, status_line, BAD_REQUEST, INTERNAL_SERVER_ERROR, UNAUTHORIZED};

verus! {

/// Where the guard stands for one request.
pub enum GuardState {
    /// The bearer token has not been read yet.
    AwaitHeader,
    /// The holder of `token` is being looked up.
    AwaitLookup { token: String },
    /// The expiry of `token` is being checked; `refresh_token` belongs to its holder.
    AwaitExpiry { token: String, refresh_token: String },
    /// A new access token is being made to replace the expired `token`.
    AwaitRefresh { token: String },
    /// The request has been let through or answered.
    Finished,
}

/// What the server reports back.
pub enum GuardEvent {
    /// The bearer token of the `Authorization` header, if it has one.
    Header { token: Option<String> },
    /// The outcome of looking up the holder (an error status when it failed).
    LookedUp { user: Result<ValueCekToken, u16> },
    /// Whether the access token is still valid (not expired).
    Expiry { still_valid: bool },
    /// The new access token made from the refresh token, if that worked.
    Refreshed { new_token: Option<String> },
}

/// What the server must do next.
pub enum GuardAction {
    /// Look up the holder of `token`.
    LookUp { token: String },
    /// Attach `user` to the request, then check whether `token` has expired.
    AttachAndCheck { user: ValueCekToken, token: String },
    /// Make a new access token from `refresh_token`.
    Refresh { refresh_token: String },
    /// Replace `old_token` by `new_token` in `token_user`, set the request's
    /// `Authorization` header to `authorization`, and start over.
    StoreAndRetry { new_token: String, old_token: String, authorization: String },
    /// Hand the request to the protected route.
    Forward,
    /// Answer with this status and JSON body.
    Respond { status: u16, body: ResponseModel<String> },
    /// Fail the request with this status and plain-text message.
    Reject { status: u16, message: String },
}

/// The state in which every request starts.
pub open spec fn spec_guard_start() -> GuardState {
    GuardState::AwaitHeader
}

/// Whether the guard in state `s` waits for event `e`.
pub open spec fn accepts(s: GuardState, e: GuardEvent) -> bool {
    match s {
        GuardState::AwaitHeader => e is Header,
        GuardState::AwaitLookup { .. } => e is LookedUp,
        GuardState::AwaitExpiry { .. } => e is Expiry,
        GuardState::AwaitRefresh { .. } => e is Refreshed,
        GuardState::Finished => false,
    }
}

/// `a` fails the request with `status` and `message`.
pub open spec fn is_reject(a: GuardAction, status: u16, message: Seq<char>) -> bool {
    a matches GuardAction::Reject { status: s, message: m } && s == status && m@ == message
}

/// `a` answers 401 with the body `{kode: "401 Unauthorized", message:
/// "Token tidak valid", data: ""}`.
pub open spec fn is_invalid_token_answer(a: GuardAction) -> bool {
    &&& a matches GuardAction::Respond { status, body }
    &&& status == UNAUTHORIZED
    &&& body.kode@ == status_line(UNAUTHORIZED)
    &&& body.message@ == "Token tidak valid"@
    &&& body.data matches Some(d) && d@.len() == 0
}

/// `a` ends the request.
pub open spec fn ends_request(a: GuardAction) -> bool {
    a is Forward || a is Respond || a is Reject
}

/// One step of the guard: from state `s` and event `e` it moves to `next`
/// and asks for `act`.
pub open spec fn guard_transition(s: GuardState, e: GuardEvent, next: GuardState, act: GuardAction) -> bool {
    match s {
        GuardState::AwaitHeader => match e {
            GuardEvent::Header { token: None } => next is Finished && is_reject(
                act,
                BAD_REQUEST,
                "token tidak ditemukan"@,
            ),
            GuardEvent::Header { token: Some(t) } => next == (GuardState::AwaitLookup { token: t })
                && act == (GuardAction::LookUp { token: t }),
            _ => false,
        },
        GuardState::AwaitLookup { token } => match e {
            GuardEvent::LookedUp { user: Err(_) } => next is Finished && is_reject(
                act,
                INTERNAL_SERVER_ERROR,
                "Error pada server"@,
            ),
            GuardEvent::LookedUp { user: Ok(u) } => if u.access_token@.len() == 0 {
                next is Finished && is_invalid_token_answer(act)
            } else {
                next == (GuardState::AwaitExpiry { token, refresh_token: u.refresh_token })
                    && act == (GuardAction::AttachAndCheck { user: u, token })
            },
            _ => false,
        },
        GuardState::AwaitExpiry { token, refresh_token } => match e {
            GuardEvent::Expiry { still_valid: true } => next is Finished && act is Forward,
            GuardEvent::Expiry { still_valid: false } => next == (GuardState::AwaitRefresh { token })
                && act == (GuardAction::Refresh { refresh_token }),
            _ => false,
        },
        GuardState::AwaitRefresh { token } => match e {
            GuardEvent::Refreshed { new_token: Some(n) } => {
                &&& next is AwaitHeader
                &&& act matches GuardAction::StoreAndRetry { new_token, old_token, authorization }
                &&& new_token == n
                &&& old_token == token
                &&& authorization@ == "Bearer "@ + n@
            },
            GuardEvent::Refreshed { new_token: None } => next is Finished && is_reject(
                act,
                UNAUTHORIZED,
                "Token expired"@,
            ),
            _ => false,
        },
        GuardState::Finished => false,
    }
}

/// The state in which every request starts.
pub fn guard_start() -> (s: GuardState)
    ensures
        s == spec_guard_start(),
{
    GuardState::AwaitHeader
}

/// Whether the guard is done with the request.
pub fn is_finished(s: &GuardState) -> (b: bool)
    ensures
        b == (*s is Finished),
{
    match s {
        GuardState::Finished => true,
        _ => false,
    }
}

/// Whether the guard in state `s` waits for event `e`.
pub fn guard_accepts(s: &GuardState, e: &GuardEvent) -> (b: bool)
    ensures
        b == accepts(*s, *e),
{
    match s {
        GuardState::AwaitHeader => matches!(e, GuardEvent::Header { .. }),
        GuardState::AwaitLookup { .. } => matches!(e, GuardEvent::LookedUp { .. }),
        GuardState::AwaitExpiry { .. } => matches!(e, GuardEvent::Expiry { .. }),
        GuardState::AwaitRefresh { .. } => matches!(e, GuardEvent::Refreshed { .. }),
        GuardState::Finished => false,
    }
}

/// Takes one step of the guard.
pub fn guard_step(state: GuardState, event: GuardEvent) -> (res: (GuardState, GuardAction))
    requires
        accepts(state, event),
    ensures
        guard_transition(state, event, res.0, res.1),
{
    match state {
        GuardState::AwaitHeader => match event {
            GuardEvent::Header { token: None } => (
                GuardState::Finished,
                GuardAction::Reject {
                    status: BAD_REQUEST,
                    message: String::from_str("token tidak ditemukan"),
                },
            ),
            GuardEvent::Header { token: Some(t) } => {
                let t2 = t.clone();
                (GuardState::AwaitLookup { token: t }, GuardAction::LookUp { token: t2 })
            },
            _ => {
                assert(false);
                (GuardState::Finished, GuardAction::Forward)
            },
        },
        GuardState::AwaitLookup { token } => match event {
            GuardEvent::LookedUp { user: Err(_) } => (
                GuardState::Finished,
                GuardAction::Reject {
                    status: INTERNAL_SERVER_ERROR,
                    message: String::from_str("Error pada server"),
                },
            ),
            GuardEvent::LookedUp { user: Ok(u) } => {
                if u.access_token.as_str().is_empty() {
                    let body = ResponseModel {
                        kode: status_kode(UNAUTHORIZED),
                        message: String::from_str("Token tidak valid"),
                        data: Some(String::new()),
                    };
                    (GuardState::Finished, GuardAction::Respond { status: UNAUTHORIZED, body })
                } else {
                    let refresh_token = u.refresh_token.clone();
                    let t2 = token.clone();
                    (
                        GuardState::AwaitExpiry { token, refresh_token },
                        GuardAction::AttachAndCheck { user: u, token: t2 },
                    )
                }
            },
            _ => {
                assert(false);
                (GuardState::Finished, GuardAction::Forward)
            },
        },
        GuardState::AwaitExpiry { token, refresh_token } => match event {
            GuardEvent::Expiry { still_valid } => {
                if still_valid {
                    (GuardState::Finished, GuardAction::Forward)
                } else {
                    (GuardState::AwaitRefresh { token }, GuardAction::Refresh { refresh_token })
                }
            },
            _ => {
                assert(false);
                (GuardState::Finished, GuardAction::Forward)
            },
        },
        GuardState::AwaitRefresh { token } => match event {
            GuardEvent::Refreshed { new_token: Some(n) } => {
                let authorization = String::from_str("Bearer ").concat(n.as_str());
                (
                    GuardState::AwaitHeader,
                    GuardAction::StoreAndRetry { new_token: n, old_token: token, authorization },
                )
            },
            GuardEvent::Refreshed { new_token: None } => (
                GuardState::Finished,
                GuardAction::Reject { status: UNAUTHORIZED, message: String::from_str("Token expired") },
            ),
            _ => {
                assert(false);
                (GuardState::Finished, GuardAction::Forward)
            },
        },
        GuardState::Finished => {
            assert(false);
            (GuardState::Finished, GuardAction::Forward)
        },
    }
}


/// The guard is finished with a request exactly when it has let it through
/// or answered it; every other action leaves it waiting for an outcome.
pub proof fn lemma_finished_iff_request_ended(s: GuardState, e: GuardEvent, next: GuardState, act: GuardAction)
    requires
        guard_transition(s, e, next, act),
    ensures
        (next is Finished) == ends_request(act),
        next is Finished ==> forall|e2: GuardEvent| !accepts(next, e2),
{
}

/// A request reaches the protected route only from a live token whose
/// holder was found and attached in the step before.
pub proof fn lemma_forward_needs_live_token(s: GuardState, e: GuardEvent, next: GuardState, act: GuardAction)
    requires
        guard_transition(s, e, next, act),
        act is Forward,
    ensures
        s is AwaitExpiry,
        e == (GuardEvent::Expiry { still_valid: true }),
{
}

/// Only a record with a non-empty access token is attached to a request;
/// it is the record that the lookup returned, for the token being checked.
pub proof fn lemma_attached_user_was_found(s: GuardState, e: GuardEvent, next: GuardState, act: GuardAction)
    requires
        guard_transition(s, e, next, act),
        act is AttachAndCheck,
    ensures
        act->AttachAndCheck_user.access_token@.len() > 0,
        e == (GuardEvent::LookedUp { user: Ok(act->AttachAndCheck_user) }),
        s == (GuardState::AwaitLookup { token: act->AttachAndCheck_token }),
{
}

/// When the lookup of a token is the one that `cek_token` computes from the
/// database rows, the user attached to the request holds that very token.
pub proof fn lemma_attached_user_holds_token(
    rows: Seq<Option<ValueCekToken>>,
    token: String,
    u: ValueCekToken,
    next: GuardState,
    act: GuardAction,
)
    requires
        crate::lookup::lookup_outcome(rows, token@) == Ok::<Option<ValueCekToken>, u16>(Some(u)),
        guard_transition(
            GuardState::AwaitLookup { token },
            GuardEvent::LookedUp { user: Ok(u) },
            next,
            act,
        ),
    ensures
        act is AttachAndCheck ==> act->AttachAndCheck_user.access_token@ == token@,
        is_invalid_token_answer(act) || act is AttachAndCheck,
{
    crate::lookup::lemma_lookup_finds_holder(rows, token@);
}

/// A request with a bearer token that belongs to a user and has not expired
/// goes through: the token is looked up, its holder attached, and the
/// request handed on.
pub proof fn lemma_live_token_reaches_route(
    t: String,
    u: ValueCekToken,
    s1: GuardState,
    a1: GuardAction,
    s2: GuardState,
    a2: GuardAction,
    s3: GuardState,
    a3: GuardAction,
)
    requires
        u.access_token@.len() > 0,
        guard_transition(spec_guard_start(), GuardEvent::Header { token: Some(t) }, s1, a1),
        guard_transition(s1, GuardEvent::LookedUp { user: Ok(u) }, s2, a2),
        guard_transition(s2, GuardEvent::Expiry { still_valid: true }, s3, a3),
    ensures
        a1 == (GuardAction::LookUp { token: t }),
        a2 == (GuardAction::AttachAndCheck { user: u, token: t }),
        a3 is Forward,
        s3 is Finished,
{
}

/// An expired token whose holder's refresh token still works is replaced:
/// the refresh token is used, the new access token is stored in place of the
/// old one and sent as `Bearer <new>`, and the request starts over.
pub proof fn lemma_expired_token_is_refreshed(
    t: String,
    u: ValueCekToken,
    n: String,
    s0: GuardState,
    s1: GuardState,
    a1: GuardAction,
    s2: GuardState,
    a2: GuardAction,
)
    requires
        s0 == (GuardState::AwaitExpiry { token: t, refresh_token: u.refresh_token }),
        guard_transition(s0, GuardEvent::Expiry { still_valid: false }, s1, a1),
        guard_transition(s1, GuardEvent::Refreshed { new_token: Some(n) }, s2, a2),
    ensures
        a1 == (GuardAction::Refresh { refresh_token: u.refresh_token }),
        a2 matches GuardAction::StoreAndRetry { new_token, old_token, authorization }
            && new_token == n && old_token == t && authorization@ == "Bearer "@ + n@,
        s2 == spec_guard_start(),
{
}


/// `states`, `events` and `actions` are a run of the guard: step `i` takes
/// `states[i]` and `events[i]` to `states[i + 1]` and asks for `actions[i]`.
pub open spec fn is_guard_run(states: Seq<GuardState>, events: Seq<GuardEvent>, actions: Seq<GuardAction>) -> bool {
    &&& states.len() == events.len() + 1
    &&& actions.len() == events.len()
    &&& forall|i: int|
        0 <= i < events.len() ==> guard_transition(states[i], #[trigger] events[i], states[i + 1], actions[i])
}

/// Over a whole run of the guard for one request, refreshes included: when
/// the request is handed to the route, the token last read from its
/// `Authorization` header was looked up, the record found for it (with a
/// non-empty access token) was attached together with that token, and the
/// token then passed the expiry check.
pub proof fn lemma_run_forwards_checked_header_token(
    states: Seq<GuardState>,
    events: Seq<GuardEvent>,
    actions: Seq<GuardAction>,
)
    requires
        is_guard_run(states, events, actions),
        states[0] == spec_guard_start(),
        events.len() > 0,
        actions.last() is Forward,
    ensures
        events.len() >= 3,
        ({
            let k = events.len() - 1;
            &&& events[k] == (GuardEvent::Expiry { still_valid: true })
            &&& actions[k - 1] matches GuardAction::AttachAndCheck { user, token } && {
                &&& events[k - 1] == (GuardEvent::LookedUp { user: Ok(user) })
                &&& events[k - 2] == (GuardEvent::Header { token: Some(token) })
                &&& states[k - 2] is AwaitHeader
                &&& user.access_token@.len() > 0
            }
            &&& states[k + 1] is Finished
        }),
{
    let k = events.len() - 1;
    assert(guard_transition(states[k], events[k], states[k + 1], actions[k]));
    assert(states[k] is AwaitExpiry);
    assert(k >= 1);
    assert(guard_transition(states[k - 1], events[k - 1], states[k], actions[k - 1]));
    assert(states[k - 1] is AwaitLookup);
    assert(k >= 2);
    assert(guard_transition(states[k - 2], events[k - 2], states[k - 1], actions[k - 2]));
}


/// After the lookup finds a holder `u` with a non-empty access token for the
/// token `t` being checked, the guard keeps `t` and the holder's own refresh
/// token, whatever the tokens are.
pub proof fn lemma_lookup_keeps_holders_refresh_token(
    t: String,
    u: ValueCekToken,
    next: GuardState,
    act: GuardAction,
)
    requires
        u.access_token@.len() > 0,
        guard_transition(GuardState::AwaitLookup { token: t }, GuardEvent::LookedUp { user: Ok(u) }, next, act),
    ensures
        next == (GuardState::AwaitExpiry { token: t, refresh_token: u.refresh_token }),
        act == (GuardAction::AttachAndCheck { user: u, token: t }),
{
}

/// A request whose token `t` belongs to holder `u` but has expired asks for
/// a new access token made from `u`'s refresh token, and remembers `t` as
/// the token to replace.
pub proof fn lemma_expired_token_refreshes_with_holders_refresh_token(
    t: String,
    u: ValueCekToken,
    s1: GuardState,
    a1: GuardAction,
    s2: GuardState,
    a2: GuardAction,
    s3: GuardState,
    a3: GuardAction,
)
    requires
        u.access_token@.len() > 0,
        guard_transition(spec_guard_start(), GuardEvent::Header { token: Some(t) }, s1, a1),
        guard_transition(s1, GuardEvent::LookedUp { user: Ok(u) }, s2, a2),
        guard_transition(s2, GuardEvent::Expiry { still_valid: false }, s3, a3),
    ensures
        a3 == (GuardAction::Refresh { refresh_token: u.refresh_token }),
        s3 == (GuardState::AwaitRefresh { token: t }),
{
}

} // verus!
