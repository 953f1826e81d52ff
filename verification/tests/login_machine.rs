use todo_service::login::{
    answer_session, judge_password, login_finished, login_start, login_step, pick_session,
    select_login_user, LoginAction, LoginEvent, LoginReply, LoginState, UserRow,
};
use todo_service::models::{ReqLogin, ResLoginUser};
use todo_service::password::hash_password;

fn req(no_hp: &str, password: &str) -> ReqLogin {
    ReqLogin { no_hp: no_hp.to_string(), password: password.to_string() }
}

fn user(no_hp: &str, password: &str) -> UserRow {
    UserRow { no_hp: no_hp.to_string(), nama_depan: "Siti".to_string(), password: password.to_string() }
}

fn session(token: &str) -> ResLoginUser {
    ResLoginUser { nama_depan: "Siti".to_string(), token: token.to_string() }
}

fn expect_refusal(a: LoginAction) {
    match a {
        LoginAction::Respond { status, body: LoginReply::Denied(b) } => {
            assert_eq!(status, 401);
            assert_eq!(b.kode, "401 Unauthorized");
            assert_eq!(b.message, "Password atau username salah");
        }
        _ => panic!("expected a refusal"),
    }
}

#[test]
fn unknown_number_is_refused() {
    let (s, a) = login_step(&req("0811", "pw"), login_start(), LoginEvent::UserRows { rows: Ok(vec![]) });
    assert!(login_finished(&s));
    expect_refusal(a);
}

#[test]
fn wrong_password_is_refused_alike() {
    let h = hash_password(&"benar".to_string()).unwrap();
    let rows = vec![Ok(user("0811", &h))];
    let (s, a) = login_step(&req("0811", "salah"), login_start(), LoginEvent::UserRows { rows: Ok(rows) });
    assert!(login_finished(&s));
    expect_refusal(a);
}

#[test]
fn empty_stored_password_is_refused() {
    let rows = vec![Ok(user("0811", ""))];
    let (s, a) = login_step(&req("0811", ""), login_start(), LoginEvent::UserRows { rows: Ok(rows) });
    assert!(login_finished(&s));
    expect_refusal(a);
}

#[test]
fn unreadable_user_row_is_unauthorized_with_its_text() {
    let rows = vec![Ok(user("0811", "x")), Err("bad row".to_string())];
    let (s, a) = login_step(&req("0811", "pw"), login_start(), LoginEvent::UserRows { rows: Ok(rows) });
    assert!(login_finished(&s));
    match a {
        LoginAction::Fail { status, message } => {
            assert_eq!(status, 401);
            assert_eq!(message, "bad row");
        }
        _ => panic!("expected a failure"),
    }
}

#[test]
fn failed_user_query_is_server_error() {
    let (s, a) = login_step(
        &req("0811", "pw"),
        login_start(),
        LoginEvent::UserRows { rows: Err("no table".to_string()) },
    );
    assert!(login_finished(&s));
    match a {
        LoginAction::Fail { status, message } => {
            assert_eq!(status, 500);
            assert_eq!(message, "no table");
        }
        _ => panic!("expected a failure"),
    }
}

#[test]
fn unreadable_stored_hash_is_server_error() {
    let rows = vec![Ok(user("0811", "plain"))];
    let (s, a) = login_step(&req("0811", "plain"), login_start(), LoginEvent::UserRows { rows: Ok(rows) });
    assert!(login_finished(&s));
    match a {
        LoginAction::Fail { status, message } => {
            assert_eq!(status, 500);
            assert_eq!(message, "500 Internal Server Error");
        }
        _ => panic!("expected a failure"),
    }
}

#[test]
fn full_login_with_session() {
    let pw = "kunci".to_string();
    let h = hash_password(&pw).unwrap();
    let r = req("0811", "kunci");
    let rows = vec![Ok(user("0811", &h))];
    let (s, a) = login_step(&r, login_start(), LoginEvent::UserRows { rows: Ok(rows) });
    assert!(matches!(s, LoginState::AwaitStored));
    match a {
        LoginAction::IssueTokens { no_hp, nama_depan } => {
            assert_eq!(no_hp, "0811");
            assert_eq!(nama_depan, "Siti");
        }
        _ => panic!("expected tokens to be issued"),
    }
    let (s, a) = login_step(&r, s, LoginEvent::Stored { outcome: Ok(()) });
    assert!(matches!(s, LoginState::AwaitSession));
    match a {
        LoginAction::FetchSession { no_hp } => assert_eq!(no_hp, "0811"),
        _ => panic!("expected the session to be read"),
    }
    let (s, a) = login_step(&r, s, LoginEvent::SessionRows { sessions: Ok(vec![None, Some(session("acc"))]) });
    assert!(login_finished(&s));
    match a {
        LoginAction::Respond { status, body: LoginReply::Session(b) } => {
            assert_eq!(status, 200);
            assert_eq!(b.kode, "200 OK");
            assert_eq!(b.message, "Sukses");
            let d = b.data.unwrap();
            assert_eq!(d.nama_depan, "Siti");
            assert_eq!(d.token, "acc");
        }
        _ => panic!("expected the session"),
    }
}

#[test]
fn failed_token_store_is_server_error() {
    let r = req("0811", "pw");
    let (s, a) = login_step(&r, LoginState::AwaitStored, LoginEvent::Stored { outcome: Err("locked".to_string()) });
    assert!(login_finished(&s));
    match a {
        LoginAction::Fail { status, message } => {
            assert_eq!(status, 500);
            assert_eq!(message, "locked");
        }
        _ => panic!("expected a failure"),
    }
}

#[test]
fn missing_session_is_not_found() {
    let (s, a) = answer_session(&vec![None, None]);
    assert!(login_finished(&s));
    match a {
        LoginAction::Respond { status, body: LoginReply::Session(b) } => {
            assert_eq!(status, 404);
            assert_eq!(b.kode, "404 Not Found");
            assert_eq!(b.message, "Gagal");
            assert!(b.data.is_none());
        }
        _ => panic!("expected an answer"),
    }
}

#[test]
fn last_readable_session_is_picked() {
    let picked = pick_session(&vec![Some(session("a")), Some(session("b")), None]).unwrap();
    assert_eq!(picked.token, "b");
    assert!(pick_session(&vec![]).is_none());
}

#[test]
fn last_user_row_is_picked_and_first_error_wins() {
    let rows = vec![Ok(user("1", "a")), Ok(user("2", "b"))];
    let u = select_login_user(&rows).unwrap().unwrap();
    assert_eq!(u.no_hp, "2");
    assert!(select_login_user(&vec![]).unwrap().is_none());
    let rows = vec![Err("e1".to_string()), Err("e2".to_string())];
    assert_eq!(select_login_user(&rows).unwrap_err(), "e1");
}

#[test]
fn judged_passwords() {
    let (s, a) = judge_password(user("1", "h"), Ok(true));
    assert!(matches!(s, LoginState::AwaitStored));
    assert!(matches!(a, LoginAction::IssueTokens { .. }));
    let (_, a) = judge_password(user("1", "h"), Ok(false));
    expect_refusal(a);
    let (_, a) = judge_password(user("1", "h"), Err(500));
    match a {
        LoginAction::Fail { status, message } => {
            assert_eq!(status, 500);
            assert_eq!(message, "500 Internal Server Error");
        }
        _ => panic!("expected a failure"),
    }
}
