use ztclient_common::models::status::{StatusNode, StatusResult, StatusUserInfo, TAGGED_DEVICES};
use ztclient_common::models::{find_entry, Machine};
use ztclient_common::users::get_user;

fn user(login_name: &str, first_name: &str, last_name: &str) -> StatusUserInfo {
    let mut user = StatusUserInfo::default();
    user.login_name = login_name.to_string();
    user.first_name = first_name.to_string();
    user.last_name = last_name.to_string();
    user
}

fn status_with(users: Vec<(String, StatusUserInfo)>) -> StatusResult {
    let mut status = StatusResult::default();
    status.user = Some(users);
    status
}

#[test]
fn state_is_compared_as_text() {
    let mut status = StatusResult::default();
    status.backend_state = "Running".to_string();
    assert!(status.in_state("Running"));
    assert!(!status.in_state("running"));
    assert!(!status.in_state("NeedsLogin"));
}

#[test]
fn tagged_devices_stand_for_clients_without_a_user() {
    assert_eq!(TAGGED_DEVICES, "tagged-devices");
    let tagged = status_with(vec![("1".to_string(), user("tagged-devices", "", ""))]);
    assert!(tagged.is_tagged_user());
    let owned = status_with(vec![("1".to_string(), user("user02@optm.com", "User02", "Optm02"))]);
    assert!(!owned.is_tagged_user());
    assert!(!StatusResult::default().is_tagged_user());
}

#[test]
fn the_first_user_is_compared_with_the_expected_one() {
    let expected = get_user(2);
    let right = status_with(vec![("1".to_string(), user("user02@optm.com", "User02", "Optm02"))]);
    assert!(right.assert_user(&expected));
    let wrong_login = status_with(vec![("1".to_string(), user("x@optm.com", "User02", "Optm02"))]);
    assert!(!wrong_login.assert_user(&expected));
    let wrong_first = status_with(vec![("1".to_string(), user("user02@optm.com", "U", "Optm02"))]);
    assert!(!wrong_first.assert_user(&expected));
    let wrong_last = status_with(vec![("1".to_string(), user("user02@optm.com", "User02", "O"))]);
    assert!(!wrong_last.assert_user(&expected));
    assert!(!StatusResult::default().assert_user(&expected));
}

#[test]
fn the_assigned_user_is_looked_up_by_the_user_number_of_the_client() {
    let mut status = status_with(vec![
        ("3".to_string(), user("a", "A", "A")),
        ("12".to_string(), user("b", "B", "B")),
        ("12".to_string(), user("c", "C", "C")),
    ]);
    status.self_field.user_id = 12;
    assert_eq!(status.assigned_user().map(|user| user.login_name.as_str()), Some("c"));
    status.self_field.user_id = 3;
    assert_eq!(status.assigned_user().map(|user| user.login_name.as_str()), Some("a"));
    status.self_field.user_id = 4;
    assert_eq!(status.assigned_user(), None);
    assert_eq!(StatusResult::default().assigned_user(), None);
}

#[test]
fn peers_are_counted() {
    let mut status = StatusResult::default();
    assert_eq!(status.peer_count(), 0);
    status.peer = Some(vec![]);
    assert_eq!(status.peer_count(), 0);
    status.peer = Some(vec![("nodekey:1".to_string(), StatusNode::default())]);
    assert_eq!(status.peer_count(), 1);
}

#[test]
fn names_match_or_stop_the_program() {
    let expected = get_user(5);
    let reported = user("whatever", "User05", "Optm05");
    assert!(reported.matches(&expected));
    reported.assert_eq(&expected);
    assert!(!user("user05@optm.com", "User05", "Optm06").matches(&expected));
    assert!(!user("user05@optm.com", "User06", "Optm05").matches(&expected));
}

#[test]
fn entries_are_found_by_key() {
    let table = vec![
        ("a".to_string(), 1),
        ("b".to_string(), 2),
        ("a".to_string(), 3),
    ];
    assert_eq!(find_entry(&table, "a"), Some(&3));
    assert_eq!(find_entry(&table, "b"), Some(&2));
    assert_eq!(find_entry(&table, "c"), None);
    assert_eq!(find_entry(&Vec::<(String, Machine)>::new(), "a"), None);
}
