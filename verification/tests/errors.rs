use ztclient_common::errors::Errors;
use ztclient_common::models::status::StatusUserInfo;
use ztclient_common::users::get_user;

#[test]
fn test_empty() {
    let err = Errors::new();
    assert!(err.strings.is_empty());
}

#[test]
fn test_empty_and_pop() {
    let mut err = Errors::new();
    assert!(err.strings.is_empty());
    err.assert_pop();
}

#[test]
fn test_add_equal_strings_empty() {
    let mut err = Errors::new();
    err.string_eq_assert("String".to_string(), "String".to_string());
    err.assert_pop();
}

#[test]
#[should_panic]
fn test_add_unequal_strings_panic() {
    let mut err = Errors::new();
    err.string_eq_assert("String2".to_string(), "String1".to_string());
    err.assert_pop();
}

#[test]
fn it_works() {
    let result = 4;
    assert_eq!(result, 4);
}

#[test]
fn unequal_strings_are_recorded_with_both_sides() {
    let mut err = Errors::new();
    err.string_eq_assert("String2".to_string(), "String1".to_string());
    assert_eq!(err.strings, vec!["String2!=String1".to_string()]);
    assert!(!err.is_clean());
}

#[test]
fn unequal_slices_are_recorded_in_order() {
    let mut err = Errors::new();
    err.string_slice_eq_assert("a", "b");
    err.string_slice_eq_assert("same", "same");
    err.string_slice_eq_assert("", "x");
    assert_eq!(err.strings, vec!["a!=b".to_string(), "!=x".to_string()]);
}

#[test]
fn add_error_appends() {
    let mut err = Errors::new();
    err.add_error("first".to_string());
    err.add_error("second".to_string());
    assert_eq!(err.strings, vec!["first".to_string(), "second".to_string()]);
}

#[test]
fn bool_assert_records_the_reason_of_a_failed_check() {
    let mut err = Errors::new();
    err.bool_assert(true, "fine".to_string());
    assert!(err.is_clean());
    err.bool_assert(false, "broken".to_string());
    assert_eq!(err.strings, vec!["broken".to_string()]);
}

#[test]
fn num_eq_assert_records_the_comment_of_a_mismatch() {
    let mut err = Errors::new();
    err.num_eq_assert(3, 3, "three");
    assert!(err.is_clean());
    err.num_eq_assert(3u64, 4u64, "Unexpected number of clients");
    err.num_eq_assert("a", "b", "texts differ");
    assert_eq!(
        err.strings,
        vec!["Unexpected number of clients".to_string(), "texts differ".to_string()]
    );
}

#[test]
fn expect_none_and_expect_some_name_the_field() {
    let mut err = Errors::new();
    let full: Option<u8> = Some(1);
    let empty: Option<u8> = None;
    err.expect_none(&empty, "NetMap1.PacketFilter");
    err.expect_some(&full, "NetMap1.Peers");
    assert!(err.is_clean());
    err.expect_none(&full, "NetMap1.PacketFilter");
    err.expect_some(&empty, "NetMap1.Peers");
    assert_eq!(
        err.strings,
        vec![
            "NetMap1.PacketFilter expected to be None, was Some".to_string(),
            "NetMap1.Peers expected to be Some, was None".to_string(),
        ]
    );
}

#[test]
fn verify_user_compares_first_and_last_name() {
    let expected = get_user(2);
    let mut reported = StatusUserInfo::default();
    reported.first_name = "User02".to_string();
    reported.last_name = "Optm02".to_string();
    let mut err = Errors::new();
    err.verify_user(&reported, &expected);
    assert!(err.is_clean());
    reported.first_name = "Somebody".to_string();
    reported.last_name = "Else".to_string();
    err.verify_user(&reported, &expected);
    assert_eq!(
        err.strings,
        vec!["User02!=Somebody".to_string(), "Optm02!=Else".to_string()]
    );
}
