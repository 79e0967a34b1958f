use bittower::auth::{
    find_cookie, session_cookie, sid_from_cookies, AuthSession, Cookie, Session, AUTH_COOKIE,
    REMOVE_COOKIE,
};
use bittower::client::{
    frame_kind, full_update_flag, sync_maindata_kind, FrameKind, FullUpdateFlag, QbtClient,
    QbtError,
};
use bittower::signal::ServerSignalUpdate;

fn cookie(name: &str, value: &str) -> Cookie {
    Cookie { name: name.to_string(), value: value.to_string() }
}

#[test]
fn session_and_auth_session() {
    let s = Session::new("abc".to_string());
    assert_eq!(s.sid, "abc");
    let a = AuthSession::new(Some(s));
    assert!(a.has_auth());
    assert_eq!(a.credential().unwrap().sid, "abc");
    let none = AuthSession::new(None);
    assert!(!none.has_auth());
    assert!(matches!(none.credential(), Err(QbtError::Unauthenticated)));
}

#[test]
fn first_cookie_of_a_name_wins() {
    let cookies = vec![cookie("a", "1"), cookie("SID", "first"), cookie("SID", "second")];
    assert_eq!(find_cookie(&cookies, "SID").unwrap(), "first");
    assert_eq!(find_cookie(&cookies, "a").unwrap(), "1");
    assert!(find_cookie(&cookies, "sid").is_none());
    assert!(find_cookie(&Vec::new(), "SID").is_none());
    assert_eq!(sid_from_cookies(&cookies).unwrap(), "first");
    assert!(matches!(sid_from_cookies(&vec![cookie("a", "1")]), Err(QbtError::Unauthenticated)));
}

#[test]
fn cookie_texts() {
    assert_eq!(AUTH_COOKIE, "bt-session");
    assert_eq!(session_cookie("QUJD"), "bt-session=QUJD; path=/; HttpOnly");
    assert_eq!(REMOVE_COOKIE, "bt-session=; path=/; expires=Thu, 01 Jan 1970 00:00:00 GMT");
}

#[test]
fn error_texts_and_retry() {
    assert_eq!(QbtError::Unauthenticated.to_string(), "Unauthenticated");
    assert_eq!(QbtError::Transport("boom".to_string()).to_string(), "boom");
    assert_eq!(QbtError::Malformed.to_string(), "Malformed response");
    assert!(!QbtError::Unauthenticated.is_retryable());
    assert!(QbtError::Transport(String::new()).is_retryable());
    assert!(QbtError::Malformed.is_retryable());
}

#[test]
fn other_urls() {
    let c = QbtClient::new("http://h/api/v2");
    assert_eq!(c.auth_login_url(), "http://h/api/v2/auth/login");
    assert_eq!(c.torrents_info_url(), "http://h/api/v2/torrents/info");
    assert_eq!(c.url("/x"), "http://h/api/v2/x");
}

#[test]
fn frame_kind_by_flag() {
    assert_eq!(frame_kind(FullUpdateFlag::Absent).unwrap(), FrameKind::Partial);
    assert_eq!(frame_kind(FullUpdateFlag::Flag(true)).unwrap(), FrameKind::Full);
    assert_eq!(frame_kind(FullUpdateFlag::Flag(false)).unwrap(), FrameKind::Partial);
    assert!(matches!(frame_kind(FullUpdateFlag::NotBoolean), Err(QbtError::Malformed)));
}

#[test]
fn flag_read_from_body() {
    let body = |s: &str| serde_json::from_str::<serde_json::Value>(s).unwrap();
    assert_eq!(full_update_flag(&body(r#"{"full_update":true,"rid":1}"#)), FullUpdateFlag::Flag(true));
    assert_eq!(full_update_flag(&body(r#"{"full_update":false,"rid":1}"#)), FullUpdateFlag::Flag(false));
    assert_eq!(full_update_flag(&body(r#"{"rid":2}"#)), FullUpdateFlag::Absent);
    assert_eq!(full_update_flag(&body(r#"{"full_update":"yes"}"#)), FullUpdateFlag::NotBoolean);
    assert_eq!(full_update_flag(&body(r#"[1,2]"#)), FullUpdateFlag::Absent);
    assert_eq!(sync_maindata_kind(&body(r#"{"full_update":true}"#)).unwrap(), FrameKind::Full);
    assert_eq!(sync_maindata_kind(&body(r#"{"rid":3}"#)).unwrap(), FrameKind::Partial);
    assert!(matches!(sync_maindata_kind(&body(r#"{"full_update":1}"#)), Err(QbtError::Malformed)));
}

#[test]
fn signal_update_carries_patch() {
    let old = serde_json::from_str::<serde_json::Value>(r#"{"value":1}"#).unwrap();
    let new = serde_json::from_str::<serde_json::Value>(r#"{"value":2}"#).unwrap();
    let u = ServerSignalUpdate::new_from_json("counter", &old, &new);
    assert_eq!(u.name(), "counter");
    let mut doc = old.clone();
    assert_eq!(u.apply_to(&mut doc), Ok(()));
    assert_eq!(doc, new);
    let mut other = serde_json::from_str::<serde_json::Value>("[1]").unwrap();
    assert_eq!(u.apply_to(&mut other), Err(bittower::signal::PatchFailed));
    assert_eq!(other, serde_json::from_str::<serde_json::Value>("[1]").unwrap());
    let same = ServerSignalUpdate::new_from_json("counter", &old, &old);
    assert!(same.patch().0.is_empty());
}

#[test]
fn signal_update_parts_round_trip() {
    let old = serde_json::from_str::<serde_json::Value>(r#"{"a":[1,2]}"#).unwrap();
    let new = serde_json::from_str::<serde_json::Value>(r#"{"a":[1,3],"b":null}"#).unwrap();
    let (name, patch) = ServerSignalUpdate::new_from_json("doc", &old, &new).into_parts();
    assert_eq!(name, "doc");
    let u = ServerSignalUpdate::from_parts("other".to_string(), patch);
    assert_eq!(u.name(), "other");
    let mut doc = old;
    assert_eq!(u.apply_to(&mut doc), Ok(()));
    assert_eq!(doc, new);
}

#[test]
fn patch_getter_hands_out_the_carried_patch() {
    let old = serde_json::from_str::<serde_json::Value>(r#"{"n":1}"#).unwrap();
    let new = serde_json::from_str::<serde_json::Value>(r#"{"n":2}"#).unwrap();
    let patch = json_patch::diff(&old, &new);
    let u = ServerSignalUpdate::from_parts("n".to_string(), patch.clone());
    assert_eq!(*u.patch(), patch);
    let (_, back) = u.into_parts();
    assert_eq!(back, patch);
}

#[test]
fn flag_is_read_at_the_top_level_only() {
    let body = |s: &str| serde_json::from_str::<serde_json::Value>(s).unwrap();
    assert_eq!(full_update_flag(&body(r#"{"inner":{"full_update":true}}"#)), FullUpdateFlag::Absent);
    assert_eq!(full_update_flag(&body(r#"{"full_update":null}"#)), FullUpdateFlag::NotBoolean);
    assert_eq!(full_update_flag(&body(r#"{"Full_Update":true}"#)), FullUpdateFlag::Absent);
    assert_eq!(full_update_flag(&body("true")), FullUpdateFlag::Absent);
    assert_eq!(sync_maindata_kind(&body(r#"{"full_update":false}"#)).unwrap(), FrameKind::Partial);
}

#[test]
fn failed_move_leaves_the_document() {
    let doc0 = serde_json::from_str::<serde_json::Value>(r#"{"a":1}"#).unwrap();
    let patch = serde_json::from_str::<json_patch::Patch>(
        r#"[{"op":"move","from":"/a","path":"/x/y"}]"#,
    )
    .unwrap();
    let u = ServerSignalUpdate::from_parts("doc".to_string(), patch);
    let mut doc = doc0.clone();
    assert_eq!(u.apply_to(&mut doc), Err(bittower::signal::PatchFailed));
    assert_eq!(doc, doc0);
}

#[test]
fn failed_patch_after_an_applied_step_leaves_the_document() {
    let doc0 = serde_json::from_str::<serde_json::Value>(r#"{"a":{}}"#).unwrap();
    let patch = serde_json::from_str::<json_patch::Patch>(
        r#"[{"op":"add","path":"/a/b","value":1},{"op":"move","from":"/a","path":"/x/y"}]"#,
    )
    .unwrap();
    let u = ServerSignalUpdate::from_parts("doc".to_string(), patch);
    let mut doc = doc0.clone();
    assert_eq!(u.apply_to(&mut doc), Err(bittower::signal::PatchFailed));
    assert_eq!(doc, doc0);
}
