use todo_service::lookup::cek_token;
use todo_service::models::ValueCekToken;

fn rec(no_hp: &str, access: &str, refresh: &str) -> ValueCekToken {
    ValueCekToken {
        no_hp: no_hp.to_string(),
        nama_depan: format!("nama-{}", no_hp),
        access_token: access.to_string(),
        refresh_token: refresh.to_string(),
    }
}

#[test]
fn no_rows_gives_blank_record() {
    let r = cek_token(&vec![], &"tok".to_string()).unwrap();
    assert_eq!(r.no_hp, "");
    assert_eq!(r.nama_depan, "");
    assert_eq!(r.access_token, "");
    assert_eq!(r.refresh_token, "");
}

#[test]
fn single_matching_row_is_the_holder() {
    let r = cek_token(&vec![Some(rec("0812", "tok", "ref"))], &"tok".to_string()).unwrap();
    assert_eq!(r.no_hp, "0812");
    assert_eq!(r.nama_depan, "nama-0812");
    assert_eq!(r.access_token, "tok");
    assert_eq!(r.refresh_token, "ref");
}

#[test]
fn last_matching_row_wins() {
    let rows = vec![Some(rec("1", "tok", "r1")), Some(rec("2", "tok", "r2"))];
    let r = cek_token(&rows, &"tok".to_string()).unwrap();
    assert_eq!(r.no_hp, "2");
    assert_eq!(r.refresh_token, "r2");
}

#[test]
fn foreign_row_is_unauthorized() {
    let rows = vec![Some(rec("1", "other", "r1"))];
    assert_eq!(cek_token(&rows, &"tok".to_string()).unwrap_err(), 401);
}

#[test]
fn unreadable_row_is_server_error() {
    let rows = vec![Some(rec("1", "tok", "r1")), None];
    assert_eq!(cek_token(&rows, &"tok".to_string()).unwrap_err(), 500);
}

#[test]
fn first_bad_row_decides() {
    let rows = vec![None, Some(rec("1", "other", "r1"))];
    assert_eq!(cek_token(&rows, &"tok".to_string()).unwrap_err(), 500);
    let rows = vec![Some(rec("1", "other", "r1")), None];
    assert_eq!(cek_token(&rows, &"tok".to_string()).unwrap_err(), 401);
}
