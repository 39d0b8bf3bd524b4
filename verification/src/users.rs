//! Synthetic users: reproducible user profiles derived from a small index.

use crate::text::{decimal, lemma_zero_padded_is_injective, push_zero_padded, zero_padded};
use vstd::prelude::*;

verus! {

/// A user profile as it is handed to the control plane at registration.
#[derive(Default, Debug, Clone, PartialEq)]
pub struct UserInfo {
    pub user_info_id: String,
    pub email: String,
    pub display_name: String,
    pub first_name: String,
    pub last_name: String,
    pub created_at: String,
}

/// The mathematical value of a [`UserInfo`].
pub struct UserInfoView {
    pub user_info_id: Seq<char>,
    pub email: Seq<char>,
    pub display_name: Seq<char>,
    pub first_name: Seq<char>,
    pub last_name: Seq<char>,
    pub created_at: Seq<char>,
}

impl View for UserInfo {
    type V = UserInfoView;

    open spec fn view(&self) -> UserInfoView {
        UserInfoView {
            user_info_id: self.user_info_id@,
            email: self.email@,
            display_name: self.display_name@,
            first_name: self.first_name@,
            last_name: self.last_name@,
            created_at: self.created_at@,
        }
    }
}

impl DeepView for UserInfo {
    type V = UserInfoView;

    open spec fn deep_view(&self) -> UserInfoView {
        self@
    }
}

/// The largest index that has a synthetic user.
pub const MAX_USER_ID: usize = 10;

/// The identifier of the synthetic user in `slot`, counted from zero.
pub open spec fn user_key(slot: nat) -> Seq<char>
    recommends
        slot < 10,
{
    if slot == 0 {
        "3273acee-9def-42f3-98b6-b9dcd2b3b8de"@
    } else if slot == 1 {
        "5aba863d-67dc-4732-b731-a5fd0ec7ac4d"@
    } else if slot == 2 {
        "b22a8c74-3ce7-4375-a4aa-4f70d49bb7fb"@
    } else if slot == 3 {
        "8aec20cd-5d9d-4d2c-895f-5b639f933df2"@
    } else if slot == 4 {
        "86d5cc7d-915d-46ae-add3-afc7c8e2ff4a"@
    } else if slot == 5 {
        "e3d352ef-95b2-4229-a6e2-3292b888b906"@
    } else if slot == 6 {
        "24c4056b-3bec-4fb7-a36b-64549d27895a"@
    } else if slot == 7 {
        "4cd105fc-0844-4019-a07b-a3c71282b15f"@
    } else if slot == 8 {
        "86d8be71-bc28-4b23-888c-dc38a289f991"@
    } else {
        "77bab93e-5716-4fe3-91b4-77376c8a877d"@
    }
}

/// The slot that holds the identifier of user `id`: users are counted from
/// one, and user zero shares the slot of user one.
pub open spec fn user_slot(id: nat) -> nat {
    if id > 0 {
        (id - 1) as nat
    } else {
        0
    }
}

/// The two-digit tag that names user `id` in its e-mail address and names.
pub open spec fn user_tag(id: nat) -> Seq<char> {
    zero_padded(decimal(id), 2)
}

/// The synthetic user with index `id`.
pub open spec fn synthetic_user(id: nat) -> UserInfoView
    recommends
        id <= MAX_USER_ID,
{
    UserInfoView {
        user_info_id: user_key(user_slot(id)),
        email: "user"@ + user_tag(id) + "@optm.com"@,
        display_name: "User"@ + user_tag(id) + " "@ + ("Optm"@ + user_tag(id)),
        first_name: "User"@ + user_tag(id),
        last_name: "Optm"@ + user_tag(id),
        created_at: "2023-05-05T21:30:38.899Z"@,
    }
}

/// Different indices give different users: they differ in their first
/// name, in their last name and in their e-mail address. So a check of the
/// names of a user tells the users apart.
pub proof fn lemma_synthetic_users_differ(first: nat, second: nat)
    requires
        first != second,
    ensures
        synthetic_user(first).first_name != synthetic_user(second).first_name,
        synthetic_user(first).last_name != synthetic_user(second).last_name,
        synthetic_user(first).email != synthetic_user(second).email,
{
    let left = user_tag(first);
    let right = user_tag(second);
    if left == right {
        lemma_zero_padded_is_injective(first, second, 2);
    }
    assert(left =~= ("User"@ + left).skip("User"@.len() as int));
    assert(right =~= ("User"@ + right).skip("User"@.len() as int));
    assert(left =~= ("Optm"@ + left).skip("Optm"@.len() as int));
    assert(right =~= ("Optm"@ + right).skip("Optm"@.len() as int));
    if synthetic_user(first).email == synthetic_user(second).email {
        let one = "user"@ + left + "@optm.com"@;
        let other = "user"@ + right + "@optm.com"@;
        assert(one.len() == other.len());
        assert(left.len() == right.len());
        let start = "user"@.len() as int;
        assert(left =~= one.subrange(start, start + left.len()));
        assert(right =~= other.subrange(start, start + right.len()));
    }
}

fn key_of_slot(slot: usize) -> (key: &'static str)
    requires
        slot < 10,
    ensures
        key@ == user_key(slot as nat),
{
    match slot {
        0 => "3273acee-9def-42f3-98b6-b9dcd2b3b8de",
        1 => "5aba863d-67dc-4732-b731-a5fd0ec7ac4d",
        2 => "b22a8c74-3ce7-4375-a4aa-4f70d49bb7fb",
        3 => "8aec20cd-5d9d-4d2c-895f-5b639f933df2",
        4 => "86d5cc7d-915d-46ae-add3-afc7c8e2ff4a",
        5 => "e3d352ef-95b2-4229-a6e2-3292b888b906",
        6 => "24c4056b-3bec-4fb7-a36b-64549d27895a",
        7 => "4cd105fc-0844-4019-a07b-a3c71282b15f",
        8 => "86d8be71-bc28-4b23-888c-dc38a289f991",
        _ => "77bab93e-5716-4fe3-91b4-77376c8a877d",
    }
}

fn tagged(prefix: &str, id: usize) -> (out: String)
    ensures
        out@ == prefix@ + user_tag(id as nat),
{
    let mut out = prefix.to_owned();
    push_zero_padded(&mut out, id as u128, 2);
    out
}

/// The synthetic user with index `id`. The same index always gives the same
/// user; indices above [`MAX_USER_ID`] have none.
pub fn get_user(id: usize) -> (user: UserInfo)
    requires
        id <= MAX_USER_ID,
    ensures
        user@ == synthetic_user(id as nat),
{
    let mut email = tagged("user", id);
    email.append("@optm.com");
    let first_name = tagged("User", id);
    let last_name = tagged("Optm", id);
    let mut display_name = first_name.clone();
    display_name.append(" ");
    display_name.append(last_name.as_str());
    let created_at = "2023-05-05T21:30:38.899Z".to_owned();
    let index: usize = if id > 0 {
        id - 1
    } else {
        0
    };
    let user_info_id = key_of_slot(index).to_owned();
    UserInfo { user_info_id, email, display_name, first_name, last_name, created_at }
}

} // verus!
