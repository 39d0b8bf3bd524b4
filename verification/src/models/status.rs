//! The status report of a client.

use crate::models::{entry_index, find_entry};
use crate::text::{same_text, signed_decimal, signed_decimal_string};
use crate::users::UserInfo;
use vstd::prelude::*;

verus! {

/// What a client reports about itself, its peers and its users. The health
/// report and the certificate domains are not carried.
#[derive(Clone, Debug, PartialEq, Default)]
pub struct StatusResult {
    pub version: String,
    pub backend_state: String,
    pub auth_url: String,
    pub ztmesh_ips: Option<Vec<String>>,
    pub self_field: StatusNode,
    pub magic_dnssuffix: String,
    pub current_ztnet: Option<CurrentZtnet>,
    pub peer: Option<Vec<(String, StatusNode)>>,
    pub user: Option<Vec<(String, StatusUserInfo)>>,
}

/// The mesh network a client is currently part of.
#[derive(Clone, Debug, PartialEq, Default)]
pub struct CurrentZtnet {
    pub name: String,
    pub magic_dnssuffix: String,
    pub magic_dnsenabled: bool,
}

/// A node in a status report: the client itself or one of its peers.
/// The list of raw addresses is not carried.
#[derive(Clone, Debug, PartialEq, Default)]
pub struct StatusNode {
    pub id: String,
    pub public_key: String,
    pub host_name: String,
    pub dnsname: String,
    pub os: String,
    pub user_id: i64,
    pub ztmesh_ips: Option<Vec<String>>,
    pub cur_addr: String,
    pub relay: String,
    pub rx_bytes: i64,
    pub tx_bytes: i64,
    pub created: String,
    pub last_write: String,
    pub last_seen: String,
    pub last_handshake: String,
    pub online: bool,
    pub keep_alive: bool,
    pub exit_node: bool,
    pub exit_node_option: bool,
    pub active: bool,
    pub peer_apiurl: Option<Vec<String>>,
    pub in_network_map: bool,
    pub in_magic_sock: bool,
    pub in_engine: bool,
}

/// A user table with a single entry, keyed `1`.
#[derive(Clone, Debug, PartialEq, Default)]
pub struct User {
    pub n1: StatusUserInfo,
}

/// A user in a status report. Roles are not carried.
#[derive(Clone, Debug, PartialEq, Default)]
pub struct StatusUserInfo {
    pub id: i64,
    pub login_name: String,
    pub first_name: String,
    pub last_name: String,
    pub display_name: String,
    pub profile_pic_url: String,
}

/// The login name of a client that registered with a pre-authorization
/// token and so belongs to no user.
pub const TAGGED_DEVICES: &'static str = "tagged-devices";

impl StatusResult {
    /// Whether the report has a user table without an entry. Such a report
    /// names no user to compare, and the checks of the first user refuse it.
    pub open spec fn has_empty_user_table(&self) -> bool {
        self.user is Some && self.user->0@.len() == 0
    }

    /// Whether the client reports the backend state `state`.
    pub fn in_state(&self, state: &str) -> (yes: bool)
        ensures
            yes == (self.backend_state@ == state@),
    {
        same_text(self.backend_state.as_str(), state)
    }

    /// Whether the first user of the report is the one that stands for
    /// clients without a user. A report without a user table has no such
    /// user.
    pub fn is_tagged_user(&self) -> (yes: bool)
        requires
            !self.has_empty_user_table(),
        ensures
            yes == (self.user is Some && self.user->0@[0].1.login_name@ == TAGGED_DEVICES@),
    {
        match &self.user {
            Some(user) => same_text(user[0].1.login_name.as_str(), TAGGED_DEVICES),
            None => false,
        }
    }

    /// Whether the first user of the report is `user_info`: its login name
    /// is the e-mail address, and first and last name agree. A report
    /// without a user table names nobody.
    pub fn assert_user(&self, user_info: &UserInfo) -> (yes: bool)
        requires
            !self.has_empty_user_table(),
        ensures
            yes == (self.user is Some && {
                let reported = self.user->0@[0].1;
                &&& reported.login_name@ == user_info.email@
                &&& reported.first_name@ == user_info.first_name@
                &&& reported.last_name@ == user_info.last_name@
            }),
    {
        match &self.user {
            Some(user) => {
                let reported = &user[0].1;
                same_text(reported.login_name.as_str(), user_info.email.as_str()) && same_text(
                    reported.first_name.as_str(),
                    user_info.first_name.as_str(),
                ) && same_text(reported.last_name.as_str(), user_info.last_name.as_str())
            },
            None => false,
        }
    }

    /// The key under which the user table holds the user that the client
    /// itself belongs to: the decimal numeral of its user number.
    pub open spec fn assigned_user_key(&self) -> Seq<char> {
        signed_decimal(self.self_field.user_id as int)
    }

    /// The user that the client itself belongs to, looked up in the user
    /// table of the report. There is none where the report has no user
    /// table or the table has no entry for the user number of the client.
    pub fn assigned_user(&self) -> (found: Option<&StatusUserInfo>)
        ensures
            match found {
                Some(user) => self.user is Some && entry_index(
                    self.user->0@,
                    self.assigned_user_key(),
                ) is Some && *user == self.user->0@[entry_index(
                    self.user->0@,
                    self.assigned_user_key(),
                )->0].1,
                None => self.user is None || entry_index(
                    self.user->0@,
                    self.assigned_user_key(),
                ) is None,
            },
    {
        match &self.user {
            Some(table) => {
                let key = signed_decimal_string(self.self_field.user_id);
                find_entry(table, key.as_str())
            },
            None => None,
        }
    }

    /// How many peers the client reports. A report without a peer table
    /// counts as one with no peers.
    pub fn peer_count(&self) -> (count: usize)
        ensures
            count == match self.peer {
                Some(peers) => peers@.len(),
                None => 0,
            },
    {
        match &self.peer {
            Some(peers) => peers.len(),
            None => 0,
        }
    }
}

impl StatusUserInfo {
    /// Whether first and last name are those of `user_info`.
    pub open spec fn names(&self, user_info: &UserInfo) -> bool {
        &&& self.first_name@ == user_info.first_name@
        &&& self.last_name@ == user_info.last_name@
    }

    /// Whether first and last name are those of `user_info`.
    pub fn matches(&self, user_info: &UserInfo) -> (yes: bool)
        ensures
            yes == self.names(user_info),
    {
        same_text(self.first_name.as_str(), user_info.first_name.as_str()) && same_text(
            self.last_name.as_str(),
            user_info.last_name.as_str(),
        )
    }

    /// Insists that first and last name are those of `user_info`. With
    /// other names this call is a contract violation, and at run time it
    /// stops the program.
    pub fn assert_eq(&self, user_info: &UserInfo)
        requires
            self.names(user_info),
    {
        if !self.matches(user_info) {
            vstd::pervasive::unreached::<()>();
        }
    }
}

} // verus!
