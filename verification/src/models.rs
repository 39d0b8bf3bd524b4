//! The documents exchanged with the control plane, as plain values.
//!
//! Every type here is a record of strings, numbers, flags and lists. Tables
//! keyed by text are lists of `(key, value)` pairs in document order; where
//! a key occurs twice, the later entry is the one that is found.

use vstd::prelude::*;

pub mod routes;
pub mod status;
pub mod ztcon;
pub mod ztn;

verus! {

/// The index of the entry of `table` under `key`, if there is one. Where
/// the key occurs more than once, the last entry counts: in a document, a
/// later entry replaces an earlier one of the same key.
pub open spec fn entry_index<V>(table: Seq<(String, V)>, key: Seq<char>) -> Option<int>
    decreases table.len(),
{
    if table.len() == 0 {
        None
    } else if table.last().0@ == key {
        Some(table.len() - 1)
    } else {
        entry_index(table.drop_last(), key)
    }
}

/// Looks `key` up in a table of `(key, value)` pairs. Where the key occurs
/// more than once, the last entry counts.
pub fn find_entry<'a, V>(table: &'a Vec<(String, V)>, key: &str) -> (found: Option<&'a V>)
    ensures
        match found {
            Some(value) => entry_index(table@, key@) is Some && *value == table@[entry_index(
                table@,
                key@,
            )->0].1,
            None => entry_index(table@, key@) is None,
        },
        entry_index(table@, key@) is Some ==> 0 <= entry_index(table@, key@)->0 < table@.len(),
{
    let mut i: usize = table.len();
    assert(table@.take(i as int) == table@);
    while i > 0
        invariant
            i <= table.len(),
            entry_index(table@, key@) == entry_index(table@.take(i as int), key@),
        decreases i,
    {
        assert(table@.take(i as int).drop_last() == table@.take(i - 1));
        assert(table@.take(i as int).last() == table@[i - 1]);
        if crate::text::same_text(table[i - 1].0.as_str(), key) {
            return Some(&table[i - 1].1);
        }
        i -= 1;
    }
    None
}

/// The index of an entry lies within the table, and the entry there has the
/// key that was looked up.
pub proof fn lemma_entry_index_bound<V>(table: Seq<(String, V)>, key: Seq<char>)
    ensures
        entry_index(table, key) matches Some(at) ==> 0 <= at < table.len() && table[at].0@ == key,
        entry_index(table, key) is None ==> forall|i: int|
            0 <= i < table.len() ==> (#[trigger] table[i]).0@ != key,
    decreases table.len(),
{
    if table.len() > 0 {
        lemma_entry_index_bound(table.drop_last(), key);
        if table.last().0@ != key {
            assert forall|i: int| 0 <= i < table.len() && entry_index(table, key) is None implies (
            #[trigger] table[i]).0@ != key by {
                if i < table.len() - 1 {
                    assert(table.drop_last()[i] == table[i]);
                }
            }
        }
    }
}

/// Body of the callback that binds a correlation token to a namespace and a user.
#[derive(Clone, Debug, PartialEq, Default)]
pub struct RegisterCallbackRequest {
    pub namespace: String,
    pub user_info: UserInfo,
}

/// A user as the control plane reports it on a machine record.
#[derive(Clone, Debug, PartialEq, Default)]
pub struct UserInfo {
    pub user_info_id: String,
    pub email: String,
    pub display_name: String,
    pub created_at: String,
}

/// Body of the request that creates a namespace.
#[derive(Clone, Debug, PartialEq, Default)]
pub struct CreateNamespaceRequest {
    pub name: String,
    pub default_machine_key_ttl: String,
}

/// The mathematical value of a [`CreateNamespaceRequest`].
pub struct CreateNamespaceRequestView {
    pub name: Seq<char>,
    pub default_machine_key_ttl: Seq<char>,
}

impl View for CreateNamespaceRequest {
    type V = CreateNamespaceRequestView;

    open spec fn view(&self) -> CreateNamespaceRequestView {
        CreateNamespaceRequestView {
            name: self.name@,
            default_machine_key_ttl: self.default_machine_key_ttl@,
        }
    }
}

impl DeepView for CreateNamespaceRequest {
    type V = CreateNamespaceRequestView;

    open spec fn deep_view(&self) -> CreateNamespaceRequestView {
        self@
    }
}

/// Answer to a listing of all machines.
#[derive(Clone, Debug, PartialEq, Default)]
pub struct GetMachinesResponse {
    pub machines: Vec<Machine>,
}

/// A notification that a machine record changed.
#[derive(Clone, Debug, PartialEq, Default)]
pub struct MachineUpdateMessage {
    pub machine: Machine,
}

/// Answer to an accepted registration callback: the machine that was created.
#[derive(Clone, Debug, PartialEq, Default)]
pub struct ExecuteCallbackResponse {
    pub machine: Machine,
}

/// A machine record of the control plane. Tag lists, the pre-authorization key
/// object and the coordinates of the location are not carried.
#[derive(Clone, Debug, PartialEq, Default)]
pub struct Machine {
    pub machine_id: String,
    pub machine_key: String,
    pub node_key: String,
    pub session_key: String,
    pub ip_addresses: Vec<String>,
    pub name: String,
    pub namespace: Namespace,
    pub last_seen: String,
    pub last_successful_update: Option<String>,
    pub expiry: String,
    pub created_at: String,
    pub register_method: Option<String>,
    pub given_name: String,
    pub online: bool,
    pub os: String,
    pub os_version: String,
    pub package: Option<String>,
    pub hostname: String,
    pub client_version: String,
    pub machine_location: MachineLocation,
    pub preferred_relay: String,
    pub relay_latency: RelayLatency,
    pub user_info: Option<UserInfo>,
}

/// Relay latencies of a machine; the control plane sends an empty object.
#[derive(Clone, Debug, PartialEq, Default)]
pub struct RelayLatency {
}

/// A namespace of the control plane.
#[derive(Clone, Debug, PartialEq, Default)]
pub struct Namespace {
    pub name: String,
    pub created_at: String,
    pub default_machine_key_ttl: String,
}

/// Where a machine is, by name; coordinates are not carried.
#[derive(Clone, Debug, PartialEq, Default)]
pub struct MachineLocation {
    pub city: String,
    pub region: String,
    pub region_code: Option<String>,
    pub country: String,
}

/// Body of the request that creates one ACL policy.
#[derive(Clone, Debug, PartialEq, Default)]
pub struct CreateAclPolicyRequest {
    pub acl_policy: AclPolicy,
}

/// The mathematical value of a [`CreateAclPolicyRequest`].
pub struct CreateAclPolicyRequestView {
    pub acl_policy: AclPolicyView,
}

impl View for CreateAclPolicyRequest {
    type V = CreateAclPolicyRequestView;

    open spec fn view(&self) -> CreateAclPolicyRequestView {
        CreateAclPolicyRequestView {
            acl_policy: self.acl_policy@,
        }
    }
}

impl DeepView for CreateAclPolicyRequest {
    type V = CreateAclPolicyRequestView;

    open spec fn deep_view(&self) -> CreateAclPolicyRequestView {
        self@
    }
}

/// Body of the request that replaces the contents of existing ACL policies.
#[derive(Clone, Debug, PartialEq, Default)]
pub struct UpdateAclPolicyRequest {
    pub acl_policies: Vec<AclPolicy>,
}

/// The mathematical value of an [`UpdateAclPolicyRequest`].
pub struct UpdateAclPolicyRequestView {
    pub acl_policies: Seq<AclPolicyView>,
}

impl View for UpdateAclPolicyRequest {
    type V = UpdateAclPolicyRequestView;

    open spec fn view(&self) -> UpdateAclPolicyRequestView {
        UpdateAclPolicyRequestView {
            acl_policies: self.acl_policies.deep_view(),
        }
    }
}

impl DeepView for UpdateAclPolicyRequest {
    type V = UpdateAclPolicyRequestView;

    open spec fn deep_view(&self) -> UpdateAclPolicyRequestView {
        self@
    }
}

/// An ACL policy: named groups of machines and the ordered rules between them.
/// A policy without groups and rules grants nothing.
#[derive(Clone, Debug, PartialEq, Default)]
pub struct AclPolicy {
    pub aclpolicy_id: String,
    pub order: String,
    pub groups: Vec<Group>,
    pub acls: Vec<Acl>,
}

/// The mathematical value of an [`AclPolicy`].
pub struct AclPolicyView {
    pub aclpolicy_id: Seq<char>,
    pub order: Seq<char>,
    pub groups: Seq<GroupView>,
    pub acls: Seq<AclView>,
}

impl View for AclPolicy {
    type V = AclPolicyView;

    open spec fn view(&self) -> AclPolicyView {
        AclPolicyView {
            aclpolicy_id: self.aclpolicy_id@,
            order: self.order@,
            groups: self.groups.deep_view(),
            acls: self.acls.deep_view(),
        }
    }
}

impl DeepView for AclPolicy {
    type V = AclPolicyView;

    open spec fn deep_view(&self) -> AclPolicyView {
        self@
    }
}

/// A named set of machine references.
#[derive(Clone, Debug, PartialEq, Default)]
pub struct Group {
    pub key: String,
    pub values: Vec<String>,
}

/// The mathematical value of a [`Group`].
pub struct GroupView {
    pub key: Seq<char>,
    pub values: Seq<Seq<char>>,
}

impl View for Group {
    type V = GroupView;

    open spec fn view(&self) -> GroupView {
        GroupView {
            key: self.key@,
            values: self.values.deep_view(),
        }
    }
}

impl DeepView for Group {
    type V = GroupView;

    open spec fn deep_view(&self) -> GroupView {
        self@
    }
}

/// One rule of a policy. Rules apply in ascending `order`.
#[derive(Clone, Debug, PartialEq, Default)]
pub struct Acl {
    pub order: i64,
    pub action: String,
    pub port: String,
    pub protocol: String,
    pub sources: Vec<String>,
    pub destinations: Vec<String>,
}

/// The mathematical value of an [`Acl`].
pub struct AclView {
    pub order: i64,
    pub action: Seq<char>,
    pub port: Seq<char>,
    pub protocol: Seq<char>,
    pub sources: Seq<Seq<char>>,
    pub destinations: Seq<Seq<char>>,
}

impl View for Acl {
    type V = AclView;

    open spec fn view(&self) -> AclView {
        AclView {
            order: self.order,
            action: self.action@,
            port: self.port@,
            protocol: self.protocol@,
            sources: self.sources.deep_view(),
            destinations: self.destinations.deep_view(),
        }
    }
}

impl DeepView for Acl {
    type V = AclView;

    open spec fn deep_view(&self) -> AclView {
        self@
    }
}

/// Body of the request that issues a pre-authorization token.
#[derive(Clone, Debug, PartialEq, Default)]
pub struct CreatePreauthTokenRequest {
    pub namespace: String,
    pub prefix: String,
    pub reuse_count: u64,
    pub ephemeral: bool,
    pub expiration: String,
    pub acl_tags: Vec<String>,
}

/// The mathematical value of a [`CreatePreauthTokenRequest`].
pub struct CreatePreauthTokenRequestView {
    pub namespace: Seq<char>,
    pub prefix: Seq<char>,
    pub reuse_count: u64,
    pub ephemeral: bool,
    pub expiration: Seq<char>,
    pub acl_tags: Seq<Seq<char>>,
}

impl View for CreatePreauthTokenRequest {
    type V = CreatePreauthTokenRequestView;

    open spec fn view(&self) -> CreatePreauthTokenRequestView {
        CreatePreauthTokenRequestView {
            namespace: self.namespace@,
            prefix: self.prefix@,
            reuse_count: self.reuse_count,
            ephemeral: self.ephemeral,
            expiration: self.expiration@,
            acl_tags: self.acl_tags.deep_view(),
        }
    }
}

impl DeepView for CreatePreauthTokenRequest {
    type V = CreatePreauthTokenRequestView;

    open spec fn deep_view(&self) -> CreatePreauthTokenRequestView {
        self@
    }
}

/// Answer to the request that issues a pre-authorization token.
#[derive(Clone, Debug, PartialEq, Default)]
pub struct PreauthTokenResponse {
    pub pre_auth_key: PreauthToken,
}

/// A pre-authorization token as the control plane reports it.
#[derive(Clone, Debug, PartialEq, Default)]
pub struct PreauthToken {
    pub pre_auth_key_id: String,
    pub namespace: String,
    pub key: String,
    pub prefix: String,
    pub reuse_count: String,
    pub ephemeral: bool,
    pub expiration: Option<String>,
    pub created_at: String,
    pub revoked_at: Option<String>,
    pub status: String,
    pub acl: Option<Vec<String>>,
}

} // verus!
