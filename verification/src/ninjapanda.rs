//! Operations against the control plane: namespaces, machines, ACL policies
//! and pre-authorization tokens.
//!
//! Each operation is described by the request that performs it. What
//! sending it brought goes to [`submission_outcome`], [`submitted_policy`],
//! [`issued_key`] or [`crate::registered_machine`], which say whether the
//! scenario may go on.

use crate::api::{
    build_request, describe_failure, failure_message, request_to, ApiRequest, ApiRequestView,
    Method, Operation, Payload, PayloadView,
};
use crate::containers::{last_text, last_text_on, ExecError, LogChunk, Streams};
use crate::get_unique_timestamp;
use crate::models::routes::{CreateRouteRequest, CreateRouteRequestView, Route, RouteView};
use crate::models::{
    Acl, AclPolicy, AclPolicyView, AclView, CreateAclPolicyRequest, CreateAclPolicyRequestView,
    CreateNamespaceRequest, CreateNamespaceRequestView, CreatePreauthTokenRequest, Group,
    GroupView, Machine, PreauthTokenResponse, UpdateAclPolicyRequest, UpdateAclPolicyRequestView,
};
use crate::text::{
    begins_with, copy_texts, decimal, from_chars, lemma_decimal_is_injective, push_decimal,
    remove_all, remove_char, starts_with, to_chars, without, without_char,
};
use crate::RuntimeInformation;
use vstd::prelude::*;

verus! {

/// Path of the namespaces.
pub const NAMESPACE_API: &'static str = "/api/v1/namespace";

/// Path of the machines.
pub const MACHINE_API: &'static str = "/api/v1/machine";

/// Path of the ACL policies.
pub const ACL_POLICY_API: &'static str = "/api/v1/aclpolicy";

/// Path of the pre-authorization tokens.
pub const PREAUTH_TOKEN_API: &'static str = "/api/v1/preauthkey";

/// How long the machine keys of a namespace created here stay valid.
pub const DEFAULT_MACHINE_KEY_TTL: &'static str = "7777000000s";

/// The tag in front of a machine identifier that makes it a machine
/// reference.
pub const MACHINE_TAG: &'static str = "machine:";

/// The command that makes the control plane issue an API key.
pub open spec fn api_key_command() -> Seq<Seq<char>> {
    seq!["ninjapanda"@, "apikeys"@, "create"@]
}

/// Describes the first step of an environment: the command that, run inside
/// the container of the control plane, issues an API key. Its output goes to
/// [`api_key_from_output`].
pub fn start_ninjapanda() -> (command: Vec<String>)
    ensures
        command.deep_view() == api_key_command(),
{
    let mut command: Vec<String> = Vec::new();
    command.push("ninjapanda".to_owned());
    command.push("apikeys".to_owned());
    command.push("create".to_owned());
    assert(command.deep_view() =~= api_key_command());
    command
}

/// The API key in the output of the command that issues one: the last piece
/// that arrived on standard output, without its line feeds.
pub open spec fn api_key_in(chunks: Seq<LogChunk>) -> Result<Seq<char>, ExecError> {
    match last_text_on(chunks, Streams::StdOut) {
        Ok(Some(line)) => Ok(without_char(line, '\n')),
        Ok(None) => Err(ExecError::NoOutput),
        Err(error) => Err(error),
    }
}

/// Reads the API key from the output of the command of
/// [`start_ninjapanda`]. Fails with [`ExecError::NoOutput`] exactly when
/// nothing arrived on standard output, and with [`ExecError::NotText`]
/// exactly when the last piece there is not well-formed UTF-8.
pub fn api_key_from_output(chunks: &Vec<LogChunk>) -> (key: Result<String, ExecError>)
    ensures
        match key {
            Ok(text) => api_key_in(chunks@) == Ok::<Seq<char>, ExecError>(text@),
            Err(error) => api_key_in(chunks@) == Err::<Seq<char>, ExecError>(error),
        },
{
    match last_text(chunks, Streams::StdOut) {
        Ok(Some(line)) => {
            let chars = to_chars(line.as_str());
            let kept = remove_char(chars.as_slice(), '\n');
            Ok(from_chars(kept.as_slice()))
        },
        Ok(None) => Err(ExecError::NoOutput),
        Err(error) => Err(error),
    }
}

/// The request that lists every machine of the control plane.
pub open spec fn machines_request(runtime_info: RuntimeInformation) -> ApiRequestView {
    request_to(runtime_info, Operation::ListMachines, Method::Get, MACHINE_API@, PayloadView::Empty)
}

/// Whether `hostname` begins with one of the wanted prefixes.
pub open spec fn is_wanted(hostname: Seq<char>, desired_hostnames: Seq<Seq<char>>) -> bool {
    exists|i: int|
        0 <= i < desired_hostnames.len() && starts_with(hostname, #[trigger] desired_hostnames[i])
}

/// The reference to the machine with the given identifier.
pub open spec fn machine_reference(machine_id: Seq<char>) -> Seq<char> {
    MACHINE_TAG@ + machine_id
}

/// The references to the machines whose hostname begins with one of the
/// wanted prefixes, in the order of the listing.
pub open spec fn wanted_machine_ids(
    machines: Seq<Machine>,
    desired_hostnames: Seq<Seq<char>>,
) -> Seq<Seq<char>>
    decreases machines.len(),
{
    if machines.len() == 0 {
        Seq::empty()
    } else if is_wanted(machines.last().hostname@, desired_hostnames) {
        wanted_machine_ids(machines.drop_last(), desired_hostnames).push(
            machine_reference(machines.last().machine_id@),
        )
    } else {
        wanted_machine_ids(machines.drop_last(), desired_hostnames)
    }
}

/// The machines whose hostname begins with one of the wanted prefixes, in
/// the order of the listing.
pub open spec fn wanted_machines(
    machines: Seq<Machine>,
    desired_hostnames: Seq<Seq<char>>,
) -> Seq<Machine>
    decreases machines.len(),
{
    if machines.len() == 0 {
        Seq::empty()
    } else if is_wanted(machines.last().hostname@, desired_hostnames) {
        wanted_machines(machines.drop_last(), desired_hostnames).push(machines.last())
    } else {
        wanted_machines(machines.drop_last(), desired_hostnames)
    }
}

/// Whether `hostname` begins with one of the wanted prefixes.
pub fn hostname_is_wanted(hostname: &str, desired_hostnames: &[String]) -> (wanted: bool)
    ensures
        wanted == is_wanted(hostname@, desired_hostnames.deep_view()),
{
    let mut i: usize = 0;
    while i < desired_hostnames.len()
        invariant
            i <= desired_hostnames.len(),
            forall|k: int| 0 <= k < i ==> !starts_with(hostname@, #[trigger] desired_hostnames[k]@),
        decreases desired_hostnames.len() - i,
    {
        if begins_with(hostname, desired_hostnames[i].as_str()) {
            assert(desired_hostnames.deep_view()[i as int] == desired_hostnames[i as int]@);
            return true;
        }
        i += 1;
    }
    assert forall|k: int| 0 <= k < desired_hostnames.deep_view().len() implies !starts_with(
        hostname@,
        #[trigger] desired_hostnames.deep_view()[k],
    ) by {
        assert(desired_hostnames.deep_view()[k] == desired_hostnames[k]@);
    }
    false
}

/// Describes the listing of all machines. The machines in the answer go to
/// [`select_machine_ids`].
pub fn get_all_machine_ids(runtime_info: &RuntimeInformation) -> (request: ApiRequest)
    ensures
        request@ == machines_request(*runtime_info),
{
    build_request(runtime_info, Operation::ListMachines, Method::Get, MACHINE_API, Payload::Empty)
}

/// Describes the listing of all machines. The machines in the answer go to
/// [`select_machines`].
pub fn get_all_machines(runtime_info: &RuntimeInformation) -> (request: ApiRequest)
    ensures
        request@ == machines_request(*runtime_info),
{
    get_all_machine_ids(runtime_info)
}

/// The references to the listed machines whose hostname begins with one of
/// the wanted prefixes, in the order of the listing.
pub fn select_machine_ids(
    machines: &Vec<Machine>,
    desired_hostnames: &[String],
) -> (ids: Vec<String>)
    ensures
        ids.deep_view() == wanted_machine_ids(machines@, desired_hostnames.deep_view()),
{
    let mut ids: Vec<String> = Vec::new();
    let mut i: usize = 0;
    assert(ids.deep_view() =~= wanted_machine_ids(
        machines@.take(0),
        desired_hostnames.deep_view(),
    ));
    while i < machines.len()
        invariant
            i <= machines.len(),
            ids.deep_view() == wanted_machine_ids(
                machines@.take(i as int),
                desired_hostnames.deep_view(),
            ),
        decreases machines.len() - i,
    {
        assert(machines@.take(i + 1).drop_last() == machines@.take(i as int));
        if hostname_is_wanted(machines[i].hostname.as_str(), desired_hostnames) {
            let ghost before = ids.deep_view();
            let mut reference = MACHINE_TAG.to_owned();
            reference.append(machines[i].machine_id.as_str());
            ids.push(reference);
            assert(ids.deep_view() =~= before.push(
                machine_reference(machines[i as int].machine_id@),
            ));
        }
        i += 1;
    }
    assert(machines@.take(i as int) == machines@);
    ids
}

/// The listed machines whose hostname begins with one of the wanted
/// prefixes, in the order of the listing.
pub fn select_machines(machines: Vec<Machine>, desired_hostnames: &[String]) -> (kept: Vec<Machine>)
    ensures
        kept@ == wanted_machines(machines@, desired_hostnames.deep_view()),
{
    let mut kept: Vec<Machine> = Vec::new();
    let ghost listed = machines@;
    for machine in it: machines.into_iter()
        invariant
            it.seq() == listed,
            kept@ == wanted_machines(listed.take(it.index()), desired_hostnames.deep_view()),
    {
        assert(listed.take(it.index() + 1).drop_last() == listed.take(it.index()));
        if hostname_is_wanted(machine.hostname.as_str(), desired_hostnames) {
            kept.push(machine);
        }
    }
    assert(listed.take(listed.len() as int) == listed);
    kept
}

/// The name of the group made at `stamp`.
pub open spec fn group_name(stamp: nat) -> Seq<char> {
    "group:"@ + decimal(stamp)
}

/// Groups made at different stamps have different names, so policies whose
/// groups are named after different readings of the clock do not collide.
pub proof fn lemma_group_names_are_distinct(first_stamp: nat, second_stamp: nat)
    requires
        first_stamp != second_stamp,
    ensures
        group_name(first_stamp) != group_name(second_stamp),
{
    let left = decimal(first_stamp);
    let right = decimal(second_stamp);
    if group_name(first_stamp) == group_name(second_stamp) {
        assert(left =~= ("group:"@ + left).skip("group:"@.len() as int));
        assert(right =~= ("group:"@ + right).skip("group:"@.len() as int));
        lemma_decimal_is_injective(first_stamp, second_stamp);
    }
}

/// A rule that accepts traffic from `sources` to `destinations`.
pub open spec fn accept_rule(
    order: i64,
    port: Seq<char>,
    protocol: Seq<char>,
    sources: Seq<Seq<char>>,
    destinations: Seq<Seq<char>>,
) -> AclView {
    AclView { order, action: "accept"@, port, protocol, sources, destinations }
}

/// The policy that lets all of `machine_ids` reach each other: two groups
/// that both hold every machine, and between them one rule for TCP and one
/// for ICMP on every port.
pub open spec fn peer_policy(
    policy_id: Seq<char>,
    first_stamp: nat,
    second_stamp: nat,
    machine_ids: Seq<Seq<char>>,
) -> AclPolicyView {
    let first = group_name(first_stamp);
    let second = group_name(second_stamp);
    AclPolicyView {
        aclpolicy_id: policy_id,
        order: "0"@,
        groups: seq![
            GroupView { key: first, values: machine_ids },
            GroupView { key: second, values: machine_ids },
        ],
        acls: seq![
            accept_rule(0, "*"@, "tcp"@, seq![second], seq![first]),
            accept_rule(1, "*"@, "icmp"@, seq![second], seq![first]),
        ],
    }
}

/// The policy that names the machines directly in three TCP rules on every
/// port, without groups.
pub open spec fn direct_policy(policy_id: Seq<char>, machine_ids: Seq<Seq<char>>) -> AclPolicyView {
    AclPolicyView {
        aclpolicy_id: policy_id,
        order: "0"@,
        groups: Seq::empty(),
        acls: seq![
            accept_rule(0, "*"@, "tcp"@, machine_ids, machine_ids),
            accept_rule(2, "*"@, "tcp"@, machine_ids, machine_ids),
            accept_rule(1, "*"@, "tcp"@, machine_ids, machine_ids),
        ],
    }
}

/// The policy that lets one machine reach one port of another over TCP, and
/// nothing else: each machine in a group of its own, and a single rule from
/// the first group to the second.
pub open spec fn directional_policy(
    policy_id: Seq<char>,
    first_stamp: nat,
    second_stamp: nat,
    source: Seq<char>,
    destination: Seq<char>,
    port: nat,
) -> AclPolicyView {
    let first = group_name(first_stamp);
    let second = group_name(second_stamp);
    AclPolicyView {
        aclpolicy_id: policy_id,
        order: "0"@,
        groups: seq![
            GroupView { key: first, values: seq![machine_reference(source)] },
            GroupView { key: second, values: seq![machine_reference(destination)] },
        ],
        acls: seq![accept_rule(0, decimal(port), "tcp"@, seq![first], seq![second])],
    }
}

/// The policy with the given identifier that grants nothing.
pub open spec fn blank_policy(policy_id: Seq<char>) -> AclPolicyView {
    AclPolicyView {
        aclpolicy_id: policy_id,
        order: "0"@,
        groups: Seq::empty(),
        acls: Seq::empty(),
    }
}

/// Whether a request creates a policy with exactly two groups whose names
/// differ.
pub open spec fn has_two_groups_of_different_names(payload: PayloadView) -> bool {
    &&& payload matches PayloadView::CreatePolicy(body)
    &&& body.acl_policy.groups.len() == 2
    &&& body.acl_policy.groups[0].key != body.acl_policy.groups[1].key
}

/// The request that creates `policy`.
pub open spec fn policy_request(
    runtime_info: RuntimeInformation,
    policy: AclPolicyView,
) -> ApiRequestView {
    request_to(
        runtime_info,
        Operation::CreatePolicy,
        Method::Post,
        ACL_POLICY_API@,
        PayloadView::CreatePolicy(CreateAclPolicyRequestView { acl_policy: policy }),
    )
}

fn name_group(stamp: u128) -> (name: String)
    ensures
        name@ == group_name(stamp as nat),
{
    let mut name = "group:".to_owned();
    push_decimal(&mut name, stamp);
    name
}

fn one(text: String) -> (list: Vec<String>)
    ensures
        list.deep_view() == seq![text@],
{
    let mut list: Vec<String> = Vec::new();
    list.push(text);
    assert(list.deep_view() =~= seq![list[0]@]);
    list
}

fn accept(order: i64, port: String, protocol: &str, sources: Vec<String>, destinations: Vec<
    String,
>) -> (rule: Acl)
    ensures
        rule@ == accept_rule(
            order,
            port@,
            protocol@,
            sources.deep_view(),
            destinations.deep_view(),
        ),
{
    Acl {
        order,
        action: "accept".to_owned(),
        port,
        protocol: protocol.to_owned(),
        sources,
        destinations,
    }
}

/// Builds the policy that lets all of `machine_ids` reach each other.
pub fn build_peer_policy(
    policy_id: String,
    first_stamp: u128,
    second_stamp: u128,
    machine_ids: &[String],
) -> (policy: AclPolicy)
    ensures
        policy@ == peer_policy(
            policy_id@,
            first_stamp as nat,
            second_stamp as nat,
            machine_ids.deep_view(),
        ),
{
    let g1_name = name_group(first_stamp);
    let g2_name = name_group(second_stamp);
    let g1 = Group { key: g1_name.clone(), values: copy_texts(machine_ids) };
    let g2 = Group { key: g2_name.clone(), values: copy_texts(machine_ids) };
    let acl1 = accept(0, "*".to_owned(), "tcp", one(g2_name.clone()), one(g1_name.clone()));
    let acl2 = accept(1, "*".to_owned(), "icmp", one(g2_name), one(g1_name));
    let mut groups: Vec<Group> = Vec::new();
    groups.push(g1);
    groups.push(g2);
    let mut acls: Vec<Acl> = Vec::new();
    acls.push(acl1);
    acls.push(acl2);
    let policy = AclPolicy { aclpolicy_id: policy_id, order: "0".to_owned(), groups, acls };
    proof {
        let want = peer_policy(
            policy_id@,
            first_stamp as nat,
            second_stamp as nat,
            machine_ids.deep_view(),
        );
        assert(policy@.groups =~= want.groups);
        assert(policy@.acls =~= want.acls);
    }
    policy
}

/// Builds the policy that names the machines directly, without groups.
pub fn build_direct_policy(policy_id: String, machine_ids: &[String]) -> (policy: AclPolicy)
    ensures
        policy@ == direct_policy(policy_id@, machine_ids.deep_view()),
{
    let acl1 = accept(0, "*".to_owned(), "tcp", copy_texts(machine_ids), copy_texts(machine_ids));
    let acl2 = accept(2, "*".to_owned(), "tcp", copy_texts(machine_ids), copy_texts(machine_ids));
    let acl3 = accept(1, "*".to_owned(), "tcp", copy_texts(machine_ids), copy_texts(machine_ids));
    let mut acls: Vec<Acl> = Vec::new();
    acls.push(acl1);
    acls.push(acl2);
    acls.push(acl3);
    let policy = AclPolicy {
        aclpolicy_id: policy_id,
        order: "0".to_owned(),
        groups: Vec::new(),
        acls,
    };
    proof {
        let want = direct_policy(policy_id@, machine_ids.deep_view());
        assert(policy@.groups =~= want.groups);
        assert(policy@.acls =~= want.acls);
    }
    policy
}

fn refer_to(machine_id: &str) -> (reference: String)
    ensures
        reference@ == machine_reference(machine_id@),
{
    let mut reference = MACHINE_TAG.to_owned();
    reference.append(machine_id);
    reference
}

/// Builds the policy that lets `machine_id1` reach `port_number` of
/// `machine_id2` over TCP.
pub fn build_directional_policy(
    policy_id: String,
    first_stamp: u128,
    second_stamp: u128,
    machine_id1: &str,
    machine_id2: &str,
    port_number: u32,
) -> (policy: AclPolicy)
    ensures
        policy@ == directional_policy(
            policy_id@,
            first_stamp as nat,
            second_stamp as nat,
            machine_id1@,
            machine_id2@,
            port_number as nat,
        ),
{
    let g1_name = name_group(first_stamp);
    let g2_name = name_group(second_stamp);
    let g1 = Group { key: g1_name.clone(), values: one(refer_to(machine_id1)) };
    let g2 = Group { key: g2_name.clone(), values: one(refer_to(machine_id2)) };
    let mut port = String::new();
    push_decimal(&mut port, port_number as u128);
    assert(port@ =~= decimal(port_number as nat));
    let acl1 = accept(0, port, "tcp", one(g1_name), one(g2_name));
    let mut groups: Vec<Group> = Vec::new();
    groups.push(g1);
    groups.push(g2);
    let mut acls: Vec<Acl> = Vec::new();
    acls.push(acl1);
    let policy = AclPolicy { aclpolicy_id: policy_id, order: "0".to_owned(), groups, acls };
    proof {
        let want = directional_policy(
            policy_id@,
            first_stamp as nat,
            second_stamp as nat,
            machine_id1@,
            machine_id2@,
            port_number as nat,
        );
        assert(policy@.groups =~= want.groups);
        assert(policy@.acls =~= want.acls);
    }
    policy
}

/// Whether `c` is a digit or one of the letters `a` to `f`.
pub open spec fn is_lower_hex(c: char) -> bool {
    ('0' <= c && c <= '9') || ('a' <= c && c <= 'f')
}

/// Whether `id` has the shape of a random policy identifier: 36 characters,
/// hyphens after the 8th, 12th, 16th and 20th digit, lower-case hexadecimal
/// digits elsewhere, and the version digit `4`.
pub open spec fn is_policy_id(id: Seq<char>) -> bool {
    &&& id.len() == 36
    &&& forall|i: int|
        0 <= i < 36 ==> if i == 8 || i == 13 || i == 18 || i == 23 {
            #[trigger] id[i] == '-'
        } else {
            is_lower_hex(id[i])
        }
    &&& id[14] == '4'
}

/// `uuid::Uuid::new_v4` draws a random version-4 UUID, and its `Display`
/// writes it in the hyphenated lower-case form. The identifier itself is
/// random, so only its shape is stated.
#[verifier::external_body]
pub(crate) fn fresh_policy_id() -> (id: String)
    ensures
        is_policy_id(id@),
{
    uuid::Uuid::new_v4().to_string()
}

/// A fresh group stamp: the stamp of one reading of the clock.
fn group_stamp() -> (stamp: u128)
    ensures
        exists|reading: u128| stamp == #[trigger] stamp_of(reading as nat),
{
    let reading = get_unique_timestamp();
    let stamp = stamp_reading(reading);
    assert(stamp == stamp_of(reading as nat));
    stamp
}

/// The stamp that stands for a reading of the clock: the reading itself, in
/// nanoseconds. Only the largest number that a reading can be gives way to
/// the number before it, so that every stamp has a successor.
pub open spec fn stamp_of(reading: nat) -> nat {
    if reading < u128::MAX {
        reading
    } else {
        (u128::MAX - 1) as nat
    }
}

/// The stamp that stands for a reading of the clock. The two groups of a
/// policy are named after a stamp and its successor, so their names differ.
pub fn stamp_reading(reading: u128) -> (stamp: u128)
    ensures
        stamp == stamp_of(reading as nat),
        stamp < u128::MAX,
{
    if reading < u128::MAX {
        reading
    } else {
        u128::MAX - 1
    }
}

/// The groups of a policy whose groups are named after a stamp and its
/// successor have different names.
pub proof fn lemma_successive_stamps_name_two_groups(stamp: nat)
    ensures
        group_name(stamp) != group_name(stamp + 1),
{
    lemma_group_names_are_distinct(stamp, stamp + 1);
}

/// Policies whose stamps lie more than one apart share no group name: the
/// groups of the one are named after `first` and its successor, those of the
/// other after `second` and its successor, and all four names differ. Two
/// submissions collide only where the clock gave them readings within a
/// nanosecond of each other.
pub proof fn lemma_distant_stamps_share_no_group(first: nat, second: nat)
    requires
        first + 1 < second,
    ensures
        group_name(first) != group_name(second),
        group_name(first) != group_name(second + 1),
        group_name(first + 1) != group_name(second),
        group_name(first + 1) != group_name(second + 1),
        group_name(first) != group_name(first + 1),
        group_name(second) != group_name(second + 1),
{
    lemma_group_names_are_distinct(first, second);
    lemma_group_names_are_distinct(first, second + 1);
    lemma_group_names_are_distinct(first + 1, second);
    lemma_group_names_are_distinct(first + 1, second + 1);
    lemma_group_names_are_distinct(first, first + 1);
    lemma_group_names_are_distinct(second, second + 1);
}

/// A policy that waits to be created, with the identifier it was given.
#[derive(Clone, Debug, PartialEq)]
pub struct PolicySubmission {
    pub policy_id: String,
    pub request: ApiRequest,
}

/// Describes the creation of a policy that makes all of `machine_ids`
/// mutually reachable. The policy gets a fresh random identifier. Its two
/// groups are named after one reading of the clock in nanoseconds and the
/// number after it: the two names differ, and scenarios that share a
/// control plane do not collide unless their clocks read the same
/// nanosecond.
pub fn make_all_machines_peers(
    runtime_info: &RuntimeInformation,
    machine_ids: &[String],
) -> (submission: PolicySubmission)
    ensures
        is_policy_id(submission.policy_id@),
        exists|first_stamp: nat, second_stamp: nat|
            first_stamp != second_stamp && second_stamp == first_stamp + 1
                && submission.request@.payload == PayloadView::CreatePolicy(
                CreateAclPolicyRequestView {
                    acl_policy: #[trigger] peer_policy(
                        submission.policy_id@,
                        first_stamp,
                        second_stamp,
                        machine_ids.deep_view(),
                    ),
                },
            ),
        has_two_groups_of_different_names(submission.request@.payload),
        submission.request@.operation == Operation::CreatePolicy,
        submission.request@.method == Method::Post,
        submission.request@.url == runtime_info.ninja_panda_api_url@ + ACL_POLICY_API@,
        submission.request@.bearer == runtime_info.ninja_panda_api_key@,
{
    let policy_id = fresh_policy_id();
    let id_g1 = group_stamp();
    assert(id_g1 < u128::MAX);
    let id_g2 = id_g1 + 1;
    proof {
        lemma_successive_stamps_name_two_groups(id_g1 as nat);
    }
    let policy = build_peer_policy(policy_id.clone(), id_g1, id_g2, machine_ids);
    let request = submit_policy_request(
        runtime_info,
        CreateAclPolicyRequest { acl_policy: policy },
    );
    let submission = PolicySubmission { policy_id, request };
    assert(submission.request@.payload == PayloadView::CreatePolicy(
        CreateAclPolicyRequestView {
            acl_policy: peer_policy(
                submission.policy_id@,
                id_g1 as nat,
                id_g2 as nat,
                machine_ids.deep_view(),
            ),
        },
    ));
    submission
}

/// Describes the creation of a policy that names `machine_ids` directly in
/// its rules. The policy gets a fresh random identifier.
pub fn make_all_machines_png(
    runtime_info: &RuntimeInformation,
    machine_ids: &[String],
) -> (submission: PolicySubmission)
    ensures
        is_policy_id(submission.policy_id@),
        submission.request@ == policy_request(
            *runtime_info,
            direct_policy(submission.policy_id@, machine_ids.deep_view()),
        ),
{
    let policy_id = fresh_policy_id();
    let policy = build_direct_policy(policy_id.clone(), machine_ids);
    let request = submit_policy_request(
        runtime_info,
        CreateAclPolicyRequest { acl_policy: policy },
    );
    PolicySubmission { policy_id, request }
}

/// Describes the creation of a policy that lets `machine_id1` reach
/// `port_number` of `machine_id2` over TCP, in that direction only. The
/// policy gets a fresh random identifier. Its two groups are named after one
/// reading of the clock in nanoseconds and the number after it, so the group
/// of the source and the group of the destination have different names and
/// the one rule leads from the first to the second only.
pub fn grant_one_directional_policy(
    runtime_info: &RuntimeInformation,
    machine_id1: &str,
    machine_id2: &str,
    port_number: u32,
) -> (submission: PolicySubmission)
    ensures
        is_policy_id(submission.policy_id@),
        exists|first_stamp: nat, second_stamp: nat|
            first_stamp != second_stamp && second_stamp == first_stamp + 1
                && submission.request@.payload == PayloadView::CreatePolicy(
                CreateAclPolicyRequestView {
                    acl_policy: #[trigger] directional_policy(
                        submission.policy_id@,
                        first_stamp,
                        second_stamp,
                        machine_id1@,
                        machine_id2@,
                        port_number as nat,
                    ),
                },
            ),
        has_two_groups_of_different_names(submission.request@.payload),
        submission.request@.operation == Operation::CreatePolicy,
        submission.request@.method == Method::Post,
        submission.request@.url == runtime_info.ninja_panda_api_url@ + ACL_POLICY_API@,
        submission.request@.bearer == runtime_info.ninja_panda_api_key@,
{
    let policy_id = fresh_policy_id();
    let id_g1 = group_stamp();
    assert(id_g1 < u128::MAX);
    let id_g2 = id_g1 + 1;
    proof {
        lemma_successive_stamps_name_two_groups(id_g1 as nat);
    }
    let policy = build_directional_policy(
        policy_id.clone(),
        id_g1,
        id_g2,
        machine_id1,
        machine_id2,
        port_number,
    );
    let request = submit_policy_request(
        runtime_info,
        CreateAclPolicyRequest { acl_policy: policy },
    );
    let submission = PolicySubmission { policy_id, request };
    assert(submission.request@.payload == PayloadView::CreatePolicy(
        CreateAclPolicyRequestView {
            acl_policy: directional_policy(
                submission.policy_id@,
                id_g1 as nat,
                id_g2 as nat,
                machine_id1@,
                machine_id2@,
                port_number as nat,
            ),
        },
    ));
    submission
}

/// Describes the creation of `policy`.
pub fn submit_policy_request(
    runtime_info: &RuntimeInformation,
    policy: CreateAclPolicyRequest,
) -> (request: ApiRequest)
    ensures
        request@ == policy_request(*runtime_info, policy@.acl_policy),
{
    build_request(
        runtime_info,
        Operation::CreatePolicy,
        Method::Post,
        ACL_POLICY_API,
        Payload::CreatePolicy(policy),
    )
}

/// The request that deletes the policy with the given identifier for good.
pub open spec fn delete_policy_request(
    runtime_info: RuntimeInformation,
    policy_id: Seq<char>,
) -> ApiRequestView {
    request_to(
        runtime_info,
        Operation::DeletePolicy,
        Method::Delete,
        ACL_POLICY_API@ + "/"@ + policy_id,
        PayloadView::Empty,
    )
}

/// Describes the deletion of a policy. Deleting is for the teardown: the
/// identifier is gone afterwards.
pub fn delete_acl_policy(
    runtime_info: &RuntimeInformation,
    policy_id: &str,
) -> (request: ApiRequest)
    ensures
        request@ == delete_policy_request(*runtime_info, policy_id@),
{
    let mut path = ACL_POLICY_API.to_owned();
    path.append("/");
    path.append(policy_id);
    build_request(
        runtime_info,
        Operation::DeletePolicy,
        Method::Delete,
        path.as_str(),
        Payload::Empty,
    )
}

/// The request that empties the policy with the given identifier.
pub open spec fn zero_policy_request(
    runtime_info: RuntimeInformation,
    policy_id: Seq<char>,
) -> ApiRequestView {
    request_to(
        runtime_info,
        Operation::UpdatePolicy,
        Method::Put,
        ACL_POLICY_API@,
        PayloadView::UpdatePolicy(
            UpdateAclPolicyRequestView { acl_policies: seq![blank_policy(policy_id)] },
        ),
    )
}

/// Describes the revocation of a policy: its groups and rules are replaced
/// by empty lists, and the policy itself stays under its identifier.
pub fn zero_out_acl_policy(
    runtime_info: &RuntimeInformation,
    policy_id: &str,
) -> (request: ApiRequest)
    ensures
        request@ == zero_policy_request(*runtime_info, policy_id@),
{
    let blank = AclPolicy {
        aclpolicy_id: policy_id.to_owned(),
        order: "0".to_owned(),
        acls: Vec::new(),
        groups: Vec::new(),
    };
    assert(blank@.groups =~= blank_policy(policy_id@).groups);
    assert(blank@.acls =~= blank_policy(policy_id@).acls);
    let mut acl_policies: Vec<AclPolicy> = Vec::new();
    acl_policies.push(blank);
    let body = UpdateAclPolicyRequest { acl_policies };
    assert(body@.acl_policies =~= seq![blank_policy(policy_id@)]);
    build_request(
        runtime_info,
        Operation::UpdatePolicy,
        Method::Put,
        ACL_POLICY_API,
        Payload::UpdatePolicy(body),
    )
}

/// The request that creates the namespace `name`.
pub open spec fn namespace_request(
    runtime_info: RuntimeInformation,
    name: Seq<char>,
) -> ApiRequestView {
    request_to(
        runtime_info,
        Operation::CreateNamespace,
        Method::Post,
        NAMESPACE_API@,
        PayloadView::Namespace(
            CreateNamespaceRequestView {
                name,
                default_machine_key_ttl: DEFAULT_MACHINE_KEY_TTL@,
            },
        ),
    )
}

/// Describes the creation of a namespace. Creating a namespace that exists
/// is no failure: whatever the control plane answers, the scenario goes on.
pub fn create_namespace(
    namespace_name: &str,
    runtime_info: &RuntimeInformation,
) -> (request: ApiRequest)
    ensures
        request@ == namespace_request(*runtime_info, namespace_name@),
{
    let body = CreateNamespaceRequest {
        name: namespace_name.to_owned(),
        default_machine_key_ttl: DEFAULT_MACHINE_KEY_TTL.to_owned(),
    };
    build_request(
        runtime_info,
        Operation::CreateNamespace,
        Method::Post,
        NAMESPACE_API,
        Payload::Namespace(body),
    )
}

/// The identifier behind a machine reference: a reference that begins with
/// the machine tag loses every occurrence of the tag, anything else is taken
/// as it is.
pub open spec fn bare_machine_id(machine_id: Seq<char>) -> Seq<char> {
    if starts_with(machine_id, MACHINE_TAG@) {
        without(machine_id, MACHINE_TAG@)
    } else {
        machine_id
    }
}

/// The request that deletes the record of a machine.
pub open spec fn delete_machine_request(
    runtime_info: RuntimeInformation,
    machine_id: Seq<char>,
) -> ApiRequestView {
    request_to(
        runtime_info,
        Operation::DeleteMachine,
        Method::Delete,
        MACHINE_API@ + "/"@ + bare_machine_id(machine_id),
        PayloadView::Empty,
    )
}

/// Describes the deletion of the record of a machine, given its identifier
/// or a reference to it.
pub fn delete_machine(machine_id: &str, runtime_info: &RuntimeInformation) -> (request: ApiRequest)
    ensures
        request@ == delete_machine_request(*runtime_info, machine_id@),
{
    let mut path = MACHINE_API.to_owned();
    path.append("/");
    if begins_with(machine_id, MACHINE_TAG) {
        let chars = to_chars(machine_id);
        let tag = to_chars(MACHINE_TAG);
        let bare = from_chars(remove_all(chars.as_slice(), tag.as_slice()).as_slice());
        path.append(bare.as_str());
    } else {
        path.append(machine_id);
    }
    build_request(
        runtime_info,
        Operation::DeleteMachine,
        Method::Delete,
        path.as_str(),
        Payload::Empty,
    )
}

/// The request that issues a pre-authorization token.
pub open spec fn preauth_token_request(
    runtime_info: RuntimeInformation,
    request: CreatePreauthTokenRequest,
) -> ApiRequestView {
    request_to(
        runtime_info,
        Operation::CreatePreauthToken,
        Method::Post,
        PREAUTH_TOKEN_API@,
        PayloadView::PreauthToken(request@),
    )
}

/// Describes the issuing of a pre-authorization token. How often the token
/// can be used and when it expires is for the control plane to enforce; the
/// request hands both on unchanged.
pub fn create_preauth_token(
    runtime_information: &RuntimeInformation,
    request: CreatePreauthTokenRequest,
) -> (call: ApiRequest)
    ensures
        call@ == preauth_token_request(*runtime_information, request),
{
    build_request(
        runtime_information,
        Operation::CreatePreauthToken,
        Method::Post,
        PREAUTH_TOKEN_API,
        Payload::PreauthToken(request),
    )
}

/// A route for `prefix` that is enabled, advertised and primary, and that
/// the control plane has not stored yet.
pub open spec fn new_exit_route(prefix: Seq<char>) -> RouteView {
    RouteView {
        route_id: None,
        machine_id: None,
        prefix,
        enabled: true,
        advertised: true,
        is_primary: true,
    }
}

/// The request that makes a machine route all traffic of the mesh.
pub open spec fn gateway_request(
    runtime_info: RuntimeInformation,
    machine_id: Seq<char>,
) -> ApiRequestView {
    request_to(
        runtime_info,
        Operation::SetRoutes,
        Method::Post,
        MACHINE_API@ + "/"@ + machine_id + "/routes"@,
        PayloadView::Routes(
            CreateRouteRequestView {
                routes: seq![new_exit_route("0.0.0.0/0"@), new_exit_route("::/0"@)],
            },
        ),
    )
}

fn make_exit_route(prefix: &str) -> (route: Route)
    ensures
        route@ == new_exit_route(prefix@),
{
    Route {
        route_id: None,
        machine_id: None,
        prefix: prefix.to_owned(),
        enabled: true,
        advertised: true,
        is_primary: true,
    }
}

/// Describes the request that turns the machine with the given identifier
/// into an internet gateway: it offers a route for all of IPv4 and one for
/// all of IPv6.
pub fn make_internet_gateway(
    runtime_info: &RuntimeInformation,
    machine_id: &str,
) -> (request: ApiRequest)
    ensures
        request@ == gateway_request(*runtime_info, machine_id@),
{
    let mut routes: Vec<Route> = Vec::new();
    routes.push(make_exit_route("0.0.0.0/0"));
    routes.push(make_exit_route("::/0"));
    let body = CreateRouteRequest { routes };
    assert(body@.routes =~= seq![new_exit_route("0.0.0.0/0"@), new_exit_route("::/0"@)]);
    let mut path = MACHINE_API.to_owned();
    path.append("/");
    path.append(machine_id);
    path.append("/routes");
    build_request(
        runtime_info,
        Operation::SetRoutes,
        Method::Post,
        path.as_str(),
        Payload::Routes(body),
    )
}

/// A request about namespaces, machines or policies that failed: the
/// control plane turned it down with the status code, or no answer came.
#[derive(Clone, Copy, Debug, PartialEq, Eq, Structural)]
pub struct PolicyRequestError {
    pub operation: Operation,
    /// The status code of the answer; `None` where no answer came.
    pub status: Option<u16>,
}

impl PolicyRequestError {
    /// The failure in words: the operation, and the status code or that no
    /// answer came.
    pub fn message(&self) -> (message: String)
        ensures
            message@ == failure_message(self.operation, self.status),
    {
        describe_failure(self.operation, self.status)
    }
}

/// Judges the answer to a request about namespaces, machines or policies.
/// The scenario goes on exactly when the operation accepts the status code;
/// otherwise the error names the operation and the code.
pub fn policy_outcome(
    operation: Operation,
    status: u16,
) -> (outcome: Result<(), PolicyRequestError>)
    ensures
        outcome is Ok <==> operation.accepts(status),
        outcome is Err ==> outcome->Err_0 == (PolicyRequestError {
            operation,
            status: Some(status),
        }),
{
    if operation.accepted(status) {
        Ok(())
    } else {
        Err(PolicyRequestError { operation, status: Some(status) })
    }
}

/// Judges what sending a request about namespaces, machines or policies
/// brought: the status code of the answer, or `None` where sending failed
/// or no answer came back.
///
/// The scenario goes on exactly when an answer came and the operation
/// accepts its status code. A request that got no answer has failed,
/// whatever the operation: nothing that such a request was to create may be
/// taken as created. The error names the operation and carries what came.
pub fn submission_outcome(
    operation: Operation,
    answer: Option<u16>,
) -> (outcome: Result<(), PolicyRequestError>)
    ensures
        outcome is Ok <==> answer is Some && operation.accepts(answer->0),
        outcome is Err ==> outcome->Err_0.operation == operation,
        outcome is Err ==> outcome->Err_0 == (PolicyRequestError { operation, status: answer }),
{
    match answer {
        Some(status) => policy_outcome(operation, status),
        None => Err(PolicyRequestError { operation, status: None }),
    }
}

/// The policy that a submission created. The identifier is handed out
/// exactly when the control plane accepted the request: for a request that
/// was turned down or got no answer there is no policy and no identifier.
pub fn submitted_policy(
    submission: PolicySubmission,
    answer: Option<u16>,
) -> (policy_id: Result<String, PolicyRequestError>)
    ensures
        policy_id is Ok <==> answer is Some && submission.request.operation.accepts(answer->0),
        policy_id is Ok ==> policy_id->Ok_0@ == submission.policy_id@,
        policy_id is Err ==> policy_id->Err_0 == (PolicyRequestError {
            operation: submission.request.operation,
            status: answer,
        }),
{
    match submission_outcome(submission.request.operation, answer) {
        Ok(()) => Ok(submission.policy_id),
        Err(error) => Err(error),
    }
}

/// A pre-authorization token that was not issued: the control plane
/// answered with another status code than 200 or without a token, or no
/// answer came.
#[derive(Clone, Copy, Debug, PartialEq, Eq, Structural)]
pub struct PreauthTokenError {
    /// The status code of the answer; `None` where no answer came.
    pub status: Option<u16>,
}

impl PreauthTokenError {
    /// The failure in words: the operation, and the status code or that no
    /// answer came.
    pub fn message(&self) -> (message: String)
        ensures
            message@ == failure_message(Operation::CreatePreauthToken, self.status),
    {
        describe_failure(Operation::CreatePreauthToken, self.status)
    }
}

/// Judges what the request of [`create_preauth_token`] brought: the status
/// code of the answer, or `None` where no answer came, and the token in the
/// answer where it held one. The key is the one in the answer exactly when
/// the status code is 200 and the answer held a token; everything else is
/// an error that carries what came.
pub fn issued_key(
    answer: Option<u16>,
    response: Option<PreauthTokenResponse>,
) -> (key: Result<String, PreauthTokenError>)
    ensures
        key is Ok <==> answer == Some(200u16) && response is Some,
        key is Ok ==> key->Ok_0@ == response->0.pre_auth_key.key@,
        key is Err ==> key->Err_0 == (PreauthTokenError { status: answer }),
{
    match (answer, response) {
        (Some(200), Some(token)) => Ok(token.pre_auth_key.key),
        _ => Err(PreauthTokenError { status: answer }),
    }
}

/// Creating a namespace never ends a scenario: whatever the control plane
/// answers to the first request for a name and to the second, both are
/// taken as success. A namespace that exists already is no failure.
pub proof fn lemma_namespace_creation_is_idempotent(first_status: u16, second_status: u16)
    ensures
        Operation::CreateNamespace.accepts(first_status),
        Operation::CreateNamespace.accepts(second_status),
{
}

/// Revoking a policy keeps its identifier. The request that revokes the
/// policy that made a fleet mutually reachable names it under the identifier
/// it was created with, carries neither group nor rule, replaces and does
/// not delete, and whatever the control plane answers is taken as success.
pub proof fn lemma_revocation_keeps_policy_id(
    runtime_info: RuntimeInformation,
    policy_id: Seq<char>,
    first_stamp: nat,
    second_stamp: nat,
    machine_ids: Seq<Seq<char>>,
    status: u16,
)
    ensures
        blank_policy(policy_id).aclpolicy_id == peer_policy(
            policy_id,
            first_stamp,
            second_stamp,
            machine_ids,
        ).aclpolicy_id,
        blank_policy(policy_id).groups.len() == 0,
        blank_policy(policy_id).acls.len() == 0,
        zero_policy_request(runtime_info, policy_id).payload == PayloadView::UpdatePolicy(
            UpdateAclPolicyRequestView { acl_policies: seq![blank_policy(policy_id)] },
        ),
        zero_policy_request(runtime_info, policy_id).operation == Operation::UpdatePolicy,
        zero_policy_request(runtime_info, policy_id).method == Method::Put,
        zero_policy_request(runtime_info, policy_id).url == policy_request(
            runtime_info,
            peer_policy(policy_id, first_stamp, second_stamp, machine_ids),
        ).url,
        Operation::UpdatePolicy.accepts(status),
{
}

} // verus!
