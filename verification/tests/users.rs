use ztclient_common::users::{get_user, UserInfo, MAX_USER_ID};

#[test]
fn user_three_is_spelled_out() {
    let user = get_user(3);
    assert_eq!(
        user,
        UserInfo {
            user_info_id: "b22a8c74-3ce7-4375-a4aa-4f70d49bb7fb".to_string(),
            email: "user03@optm.com".to_string(),
            display_name: "User03 Optm03".to_string(),
            first_name: "User03".to_string(),
            last_name: "Optm03".to_string(),
            created_at: "2023-05-05T21:30:38.899Z".to_string(),
        }
    );
}

#[test]
fn user_zero_shares_the_identifier_of_user_one() {
    let zero = get_user(0);
    let one = get_user(1);
    assert_eq!(zero.user_info_id, "3273acee-9def-42f3-98b6-b9dcd2b3b8de");
    assert_eq!(one.user_info_id, "3273acee-9def-42f3-98b6-b9dcd2b3b8de");
    assert_eq!(zero.email, "user00@optm.com");
    assert_eq!(one.email, "user01@optm.com");
    assert_eq!(zero.first_name, "User00");
    assert_eq!(one.last_name, "Optm01");
}

#[test]
fn the_last_user_has_two_digits_of_its_own() {
    assert_eq!(MAX_USER_ID, 10);
    let user = get_user(10);
    assert_eq!(user.user_info_id, "77bab93e-5716-4fe3-91b4-77376c8a877d");
    assert_eq!(user.email, "user10@optm.com");
    assert_eq!(user.display_name, "User10 Optm10");
}

#[test]
fn the_same_index_gives_the_same_user() {
    for id in 0..=MAX_USER_ID {
        assert_eq!(get_user(id), get_user(id));
    }
}

#[test]
fn every_user_has_its_own_identifier_from_one_on() {
    let expected = [
        "3273acee-9def-42f3-98b6-b9dcd2b3b8de",
        "5aba863d-67dc-4732-b731-a5fd0ec7ac4d",
        "b22a8c74-3ce7-4375-a4aa-4f70d49bb7fb",
        "8aec20cd-5d9d-4d2c-895f-5b639f933df2",
        "86d5cc7d-915d-46ae-add3-afc7c8e2ff4a",
        "e3d352ef-95b2-4229-a6e2-3292b888b906",
        "24c4056b-3bec-4fb7-a36b-64549d27895a",
        "4cd105fc-0844-4019-a07b-a3c71282b15f",
        "86d8be71-bc28-4b23-888c-dc38a289f991",
        "77bab93e-5716-4fe3-91b4-77376c8a877d",
    ];
    for id in 1..=10usize {
        assert_eq!(get_user(id).user_info_id, expected[id - 1]);
    }
}

#[test]
fn different_indices_give_different_names_and_addresses() {
    for first in 0..=MAX_USER_ID {
        for second in 0..=MAX_USER_ID {
            if first != second {
                let one = get_user(first);
                let other = get_user(second);
                assert_ne!(one.first_name, other.first_name);
                assert_ne!(one.last_name, other.last_name);
                assert_ne!(one.email, other.email);
            }
        }
    }
}
