//! The orchestration core of an end-to-end test harness for a mesh client and
//! its control plane.
//!
//! The harness provisions clients in containers, registers them with the
//! control plane and waits until each one reports the expected state. This
//! crate holds every decision of that process and none of its I/O: it says
//! which command to run or which request to send, and interprets what came
//! back.

use crate::api::{ApiRequest, ApiRequestView, Method, Operation, Payload, PayloadView};
use crate::containers::{remove_container, Removal, RemovalView};
use crate::enrollment::{ClientEnrollment, Enrollment};
use crate::models::ExecuteCallbackResponse;
use crate::ninjapanda::{delete_machine, delete_machine_request};
use crate::users::{get_user, synthetic_user, UserInfo, UserInfoView, MAX_USER_ID};
use crate::ztclient::{RegistrationError, RegistrationMode};
use vstd::prelude::*;

pub mod api;
pub mod containers;
pub mod enrollment;
pub mod errors;
pub mod intgates;
pub mod models;
pub mod ninjapanda;
pub mod run;
pub mod tester;
pub mod text;
pub mod users;
pub mod ztclient;

verus! {

/// The settings of an environment: the names of its containers, the
/// credentials of its database and the image of the client.
#[derive(Debug, Clone, PartialEq, Default)]
pub struct Config {
    pub ninja_panda_container_name: String,
    pub postgres_container_name: String,
    pub postgres_user: String,
    pub postgres_name: String,
    pub postgres_db: String,
    pub postgres_password: String,
    pub docker_network_name: String,
    pub ztclient_image: String,
    pub ninja_postgres_name: String,
    pub ninja_postgres_password: String,
    pub ninja_machine_auth_url: String,
    pub kafka_container_name: String,
}

/// The label key by which container tools group containers into a project.
pub const PROJECT_LABEL: &'static str = "com.docker.compose.project";

/// The project under which the containers of this harness are grouped.
pub const PROJECT_NAME: &'static str = "ztclient-test-tool";

/// The labels that every container of this harness carries, as pairs of key
/// and value: the one label that files the container under the project of
/// the harness. No key occurs twice.
pub fn get_labels() -> (labels: Vec<(&'static str, &'static str)>)
    ensures
        labels@.len() == 1,
        labels@[0].0@ == PROJECT_LABEL@,
        labels@[0].1@ == PROJECT_NAME@,
{
    let mut labels: Vec<(&'static str, &'static str)> = Vec::new();
    labels.push((PROJECT_LABEL, PROJECT_NAME));
    labels
}

/// What a run needs to know to talk to the control plane. It is produced once
/// when the environment is set up and only read afterwards.
#[derive(Default, Debug, Clone, PartialEq)]
pub struct RuntimeInformation {
    /// API key that authenticates every request to the control plane.
    pub ninja_panda_api_key: String,
    /// Address of the API of the control plane.
    pub ninja_panda_api_url: String,
}

/// The mathematical value of a [`RuntimeInformation`].
pub struct RuntimeInformationView {
    pub ninja_panda_api_key: Seq<char>,
    pub ninja_panda_api_url: Seq<char>,
}

impl View for RuntimeInformation {
    type V = RuntimeInformationView;

    open spec fn view(&self) -> RuntimeInformationView {
        RuntimeInformationView {
            ninja_panda_api_key: self.ninja_panda_api_key@,
            ninja_panda_api_url: self.ninja_panda_api_url@,
        }
    }
}

/// `SystemTime::elapsed`, asked of the start of 1970, reads the clock and
/// gives the time that has passed since then, or an error where the clock
/// stands before 1970; the error is mapped to `None` here. Nothing is stated
/// of the span: it is what the clock says.
#[verifier::external_body]
pub(crate) fn elapsed_since_epoch() -> (elapsed: Option<core::time::Duration>) {
    match std::time::UNIX_EPOCH.elapsed() {
        Ok(elapsed) => Some(elapsed),
        Err(_) => None,
    }
}

/// `Duration::as_nanos` gives a span of time in nanoseconds. It never fails.
/// Nothing is stated of the number: a span shows nothing of itself here.
pub assume_specification[ core::time::Duration::as_nanos ](
    duration: &core::time::Duration,
) -> (nanos: u128)
;

/// A reading of the clock: the nanoseconds since the start of 1970. A clock
/// that stands before 1970 reads as zero. Two readings may be equal.
pub fn get_unique_timestamp() -> (nanos: u128) {
    match elapsed_since_epoch() {
        Some(elapsed) => elapsed.as_nanos(),
        None => 0,
    }
}

/// Body of the callback that completes a registration: the namespace the
/// machine joins and the user it belongs to.
#[derive(Default, Debug, Clone, PartialEq)]
pub struct RegisterCallbackRequest {
    pub namespace: String,
    pub user_info: UserInfo,
}

/// The mathematical value of a [`RegisterCallbackRequest`].
pub struct RegisterCallbackRequestView {
    pub namespace: Seq<char>,
    pub user_info: UserInfoView,
}

impl View for RegisterCallbackRequest {
    type V = RegisterCallbackRequestView;

    open spec fn view(&self) -> RegisterCallbackRequestView {
        RegisterCallbackRequestView { namespace: self.namespace@, user_info: self.user_info@ }
    }
}

/// Path of the callback that completes a registration; the correlation
/// token follows it.
pub const REGISTER_CALLBACK_API: &'static str = "/api/v1/machine/register/callback/";

/// What the callback that completes a registration is made of.
#[derive(Clone, Copy, Debug, PartialEq)]
pub struct ExecuteCallbackRequest<'a> {
    pub correlation_id: &'a str,
    pub api_key: &'a str,
    pub namespace_name: &'a str,
    pub ninja_panda_api_url: &'a str,
    pub user_info_id: usize,
}

/// The callback that binds the client behind `correlation_id` to a
/// namespace and to the synthetic user with index `user_info_id`.
pub open spec fn callback_request(
    correlation_id: Seq<char>,
    api_key: Seq<char>,
    namespace_name: Seq<char>,
    ninja_panda_api_url: Seq<char>,
    user_info_id: nat,
) -> ApiRequestView {
    ApiRequestView {
        operation: Operation::RegisterMachine,
        method: Method::Post,
        url: ninja_panda_api_url + REGISTER_CALLBACK_API@ + correlation_id,
        bearer: api_key,
        payload: PayloadView::Callback(
            RegisterCallbackRequestView {
                namespace: namespace_name,
                user_info: synthetic_user(user_info_id),
            },
        ),
    }
}

/// Describes the callback that completes a registration: the harness hands
/// the correlation token that the client wrote on to the control plane,
/// together with the namespace and the synthetic user of the client. The
/// answer goes to [`registered_machine`].
pub fn execute_callback<'a>(request: &ExecuteCallbackRequest<'a>) -> (call: ApiRequest)
    requires
        request.user_info_id <= MAX_USER_ID,
    ensures
        call@ == callback_request(
            request.correlation_id@,
            request.api_key@,
            request.namespace_name@,
            request.ninja_panda_api_url@,
            request.user_info_id as nat,
        ),
{
    let user_info = get_user(request.user_info_id);
    let reg_request = RegisterCallbackRequest {
        namespace: request.namespace_name.to_owned(),
        user_info,
    };
    let mut url = request.ninja_panda_api_url.to_owned();
    url.append(REGISTER_CALLBACK_API);
    url.append(request.correlation_id);
    ApiRequest {
        operation: Operation::RegisterMachine,
        method: Method::Post,
        url,
        bearer: request.api_key.to_owned(),
        payload: Payload::Callback(reg_request),
    }
}

/// The identity that the control plane gave a client: the machine record,
/// the namespace it was registered in and the index of its synthetic user.
/// The record lives until it is deleted explicitly.
#[derive(Clone, Debug, PartialEq)]
pub struct MachineIdentity {
    pub machine_id: String,
    pub namespace: String,
    pub user_id: usize,
}

/// Judges the answer to the callback of `request`. The registration is
/// complete exactly when the status code is 200 and the answer held a
/// machine; the identity is then the identifier of that machine with the
/// namespace and the user of the request. Every other answer is a rejection
/// that carries the status code.
pub fn registered_machine<'a>(
    request: &ExecuteCallbackRequest<'a>,
    status: u16,
    response: Option<ExecuteCallbackResponse>,
) -> (identity: Result<MachineIdentity, RegistrationError>)
    ensures
        identity is Ok <==> status == 200 && response is Some,
        identity is Ok ==> {
            &&& identity->Ok_0.machine_id@ == response->0.machine.machine_id@
            &&& identity->Ok_0.namespace@ == request.namespace_name@
            &&& identity->Ok_0.user_id == request.user_info_id
        },
        identity is Err ==> identity->Err_0 == (RegistrationError::CallbackRejected { status }),
{
    match response {
        Some(answer) => {
            if status == 200 {
                Ok(
                    MachineIdentity {
                        machine_id: answer.machine.machine_id,
                        namespace: request.namespace_name.to_owned(),
                        user_id: request.user_info_id,
                    },
                )
            } else {
                Err(RegistrationError::CallbackRejected { status })
            }
        },
        None => Err(RegistrationError::CallbackRejected { status }),
    }
}

/// How many characters a random container name has.
pub const CONTAINER_NAME_LENGTH: usize = 7;

/// Whether `byte` is an ASCII letter or digit.
pub open spec fn is_alphanumeric(byte: u8) -> bool {
    (0x30 <= byte <= 0x39) || (0x41 <= byte <= 0x5a) || (0x61 <= byte <= 0x7a)
}

/// The lower-case form of an ASCII letter; any other byte is itself.
pub open spec fn lower(byte: u8) -> u8 {
    if 0x41 <= byte <= 0x5a {
        (byte + 0x20) as u8
    } else {
        byte
    }
}

/// The name spelled by `samples`: each byte as a character, letters in
/// lower case.
pub open spec fn name_of(samples: Seq<u8>) -> Seq<char> {
    Seq::new(samples.len(), |i: int| lower(samples[i]) as char)
}

/// Whether `name` is a container name as they are drawn at random: seven
/// characters, each a digit or a lower-case ASCII letter.
pub open spec fn is_container_name(name: Seq<char>) -> bool {
    &&& name.len() == CONTAINER_NAME_LENGTH
    &&& forall|i: int|
        0 <= i < name.len() ==> ('0' <= #[trigger] name[i] <= '9' || 'a' <= name[i] <= 'z')
}

/// `Rng::sample` with the `Alphanumeric` distribution draws one byte from
/// the ASCII letters of both cases and the digits. Which one is random.
#[verifier::external_body]
pub(crate) fn sample_alphanumeric() -> (byte: u8)
    ensures
        is_alphanumeric(byte),
{
    rand::Rng::sample(&mut rand::thread_rng(), rand::distributions::Alphanumeric)
}

/// Spells the name that `samples` stand for.
pub fn container_name_from(samples: &[u8]) -> (name: String)
    ensures
        name@ == name_of(samples@),
{
    let mut name = String::new();
    let mut i: usize = 0;
    while i < samples.len()
        invariant
            i <= samples.len(),
            name@ == name_of(samples@.take(i as int)),
        decreases samples.len() - i,
    {
        let byte = samples[i];
        let low: u8 = if 0x41 <= byte && byte <= 0x5a {
            byte + 0x20
        } else {
            byte
        };
        name.push(low as char);
        assert(name@ =~= name_of(samples@.take(i + 1)));
        i += 1;
    }
    assert(samples@.take(i as int) == samples@);
    name
}

/// A container name drawn at random, so that scenarios that run side by
/// side do not pick the same one.
pub fn random_container_name() -> (name: String)
    ensures
        is_container_name(name@),
{
    let mut samples: Vec<u8> = Vec::new();
    let mut i: usize = 0;
    while i < CONTAINER_NAME_LENGTH
        invariant
            i <= CONTAINER_NAME_LENGTH,
            samples@.len() == i,
            forall|k: int| 0 <= k < i ==> is_alphanumeric(#[trigger] samples@[k]),
        decreases CONTAINER_NAME_LENGTH - i,
    {
        samples.push(sample_alphanumeric());
        i += 1;
    }
    let name = container_name_from(samples.as_slice());
    assert forall|k: int| 0 <= k < name@.len() implies ('0' <= #[trigger] name@[k] <= '9' || 'a'
        <= name@[k] <= 'z') by {
        assert(is_alphanumeric(samples@[k]));
    }
    name
}

/// `n` container names, each drawn at random.
pub fn random_names(n: usize) -> (names: Vec<String>)
    ensures
        names@.len() == n,
        forall|i: int| 0 <= i < n ==> is_container_name(#[trigger] names@[i]@),
{
    let mut v: Vec<String> = Vec::new();
    let mut i: usize = 0;
    while i < n
        invariant
            i <= n,
            v@.len() == i,
            forall|k: int| 0 <= k < i ==> is_container_name(#[trigger] v@[k]@),
        decreases n - i,
    {
        v.push(random_container_name());
        i += 1;
    }
    v
}

/// What a teardown has to do: the containers to remove and the machine
/// records to delete, each list in the order in which it was given.
#[derive(Clone, Debug, PartialEq)]
pub struct CleanupPlan {
    pub removals: Vec<Removal>,
    pub deletions: Vec<ApiRequest>,
}

/// The removals of a teardown: one for each container, unless containers
/// are kept for inspection.
pub open spec fn cleanup_removals(
    container_names: Seq<Seq<char>>,
    debug_containers: bool,
) -> Seq<RemovalView> {
    if debug_containers {
        Seq::empty()
    } else {
        Seq::new(
            container_names.len(),
            |i: int| RemovalView { container_name: container_names[i], force: true },
        )
    }
}

/// The deletions of a teardown: one for each machine.
pub open spec fn cleanup_deletions(
    machine_ids: Seq<Seq<char>>,
    runtime_info: RuntimeInformation,
) -> Seq<ApiRequestView> {
    Seq::new(machine_ids.len(), |i: int| delete_machine_request(runtime_info, machine_ids[i]))
}

/// Describes the teardown of a scenario: every container is removed and
/// every machine record is deleted.
///
/// The plan is complete whatever happens while it is carried out: each
/// step is attempted, a step that fails is noted and does not keep the
/// steps after it from being attempted, and no failure is escalated.
pub fn container_cleanup(
    container_names: &Vec<String>,
    machine_ids: &Vec<String>,
    runtime_info: &RuntimeInformation,
    debug_containers: bool,
) -> (plan: CleanupPlan)
    ensures
        plan.removals.deep_view() == cleanup_removals(
            container_names.deep_view(),
            debug_containers,
        ),
        plan.deletions.deep_view() == cleanup_deletions(machine_ids.deep_view(), *runtime_info),
{
    let mut removals: Vec<Removal> = Vec::new();
    let mut i: usize = 0;
    while i < container_names.len()
        invariant
            i <= container_names.len(),
            debug_containers ==> removals@.len() == 0,
            !debug_containers ==> removals@.len() == i,
            forall|k: int|
                0 <= k < removals@.len() ==> #[trigger] removals@[k]@ == (RemovalView {
                    container_name: container_names@[k]@,
                    force: true,
                }),
        decreases container_names.len() - i,
    {
        match remove_container(container_names[i].as_str(), debug_containers) {
            Some(removal) => {
                removals.push(removal);
            },
            None => {},
        }
        i += 1;
    }
    let mut deletions: Vec<ApiRequest> = Vec::new();
    let mut j: usize = 0;
    while j < machine_ids.len()
        invariant
            j <= machine_ids.len(),
            deletions@.len() == j,
            forall|k: int|
                0 <= k < j ==> #[trigger] deletions@[k]@ == delete_machine_request(
                    *runtime_info,
                    machine_ids@[k]@,
                ),
        decreases machine_ids.len() - j,
    {
        deletions.push(delete_machine(machine_ids[j].as_str(), runtime_info));
        j += 1;
    }
    assert(removals.deep_view() =~= cleanup_removals(
        container_names.deep_view(),
        debug_containers,
    ));
    assert(deletions.deep_view() =~= cleanup_deletions(machine_ids.deep_view(), *runtime_info));
    CleanupPlan { removals, deletions }
}

/// Whether `flow` is the untouched enrollment of the client in
/// `container_name` through the callback of the control plane.
pub open spec fn is_callback_enrollment(
    flow: ClientEnrollment,
    container_name: Seq<char>,
    namespace_name: Seq<char>,
    user_id: usize,
) -> bool {
    &&& flow.well_formed()
    &&& flow.stage is Created
    &&& flow.container_name@ == container_name
    &&& flow.enrollment matches Enrollment::Callback { namespace, user_info_id, .. }
    &&& namespace@ == namespace_name
    &&& user_info_id == user_id
}

/// Describes the enrollment of one client for each name, in the order of
/// the names, all in one namespace and for one user. The enrollments are
/// carried out one after the other.
pub fn start_and_register_n_clients(
    namespace_name: &str,
    user_id: usize,
    container_names: &Vec<String>,
) -> (flows: Vec<ClientEnrollment>)
    requires
        user_id <= MAX_USER_ID,
    ensures
        flows@.len() == container_names@.len(),
        forall|i: int|
            0 <= i < flows@.len() ==> is_callback_enrollment(
                #[trigger] flows@[i],
                container_names@[i]@,
                namespace_name@,
                user_id,
            ) && flows@[i].enrollment->Callback_mode is Hostname,
{
    let mut flows: Vec<ClientEnrollment> = Vec::new();
    let mut i: usize = 0;
    while i < container_names.len()
        invariant
            i <= container_names.len(),
            user_id <= MAX_USER_ID,
            flows@.len() == i,
            forall|k: int|
                0 <= k < i ==> is_callback_enrollment(
                    #[trigger] flows@[k],
                    container_names@[k]@,
                    namespace_name@,
                    user_id,
                ) && flows@[k].enrollment->Callback_mode is Hostname,
        decreases container_names.len() - i,
    {
        flows.push(start_and_register_client(container_names[i].as_str(), namespace_name, user_id));
        i += 1;
    }
    flows
}

/// Describes the enrollment of a client under the name of its container.
pub fn start_and_register_client(
    container_name: &str,
    namespace_name: &str,
    user_id: usize,
) -> (flow: ClientEnrollment)
    requires
        user_id <= MAX_USER_ID,
    ensures
        is_callback_enrollment(flow, container_name@, namespace_name@, user_id),
        flow.enrollment->Callback_mode is Hostname,
{
    ClientEnrollment::by_callback(
        container_name,
        RegistrationMode::Hostname,
        namespace_name,
        user_id,
    )
}

/// Describes the enrollment of a client that names no hostname.
pub fn start_and_register_client_nh(
    container_name: &str,
    namespace_name: &str,
    user_id: usize,
) -> (flow: ClientEnrollment)
    requires
        user_id <= MAX_USER_ID,
    ensures
        is_callback_enrollment(flow, container_name@, namespace_name@, user_id),
        flow.enrollment->Callback_mode is NoHostname,
{
    ClientEnrollment::by_callback(
        container_name,
        RegistrationMode::NoHostname,
        namespace_name,
        user_id,
    )
}

/// Where the runtime information of an environment is looked for first:
/// in the working directory.
pub const RUNNING_JSON: &'static str = "./running.json";

/// Where the runtime information is looked for next: two levels up, where
/// it lies for a scenario that runs inside the tree of the harness.
pub const RUNNING_JSON_FROM_SCENARIO: &'static str = "../../running.json";

/// The places where the runtime information of an environment is looked
/// for, in the order in which they are tried.
pub fn running_json_paths() -> (paths: Vec<&'static str>)
    ensures
        paths@.len() == 2,
        paths@[0]@ == RUNNING_JSON@,
        paths@[1]@ == RUNNING_JSON_FROM_SCENARIO@,
{
    let mut paths: Vec<&'static str> = Vec::new();
    paths.push(RUNNING_JSON);
    paths.push(RUNNING_JSON_FROM_SCENARIO);
    paths
}

/// No file with the runtime information could be read: the environment was
/// not set up. No scenario can run without it.
#[derive(Clone, Copy, Debug, PartialEq, Eq, Structural)]
pub struct MissingRuntimeInformation;

/// The index of the first reading that succeeded.
pub open spec fn first_reading(readings: Seq<Option<String>>) -> Option<int>
    decreases readings.len(),
{
    if readings.len() == 0 {
        None
    } else {
        match first_reading(readings.drop_last()) {
            Some(at) => Some(at),
            None => if readings.last() is Some {
                Some(readings.len() - 1)
            } else {
                None
            },
        }
    }
}

/// Chooses the runtime information among what reading the files of
/// [`running_json_paths`] gave, one entry for each path and `None` for a
/// file that could not be read: the text of the first file that could be
/// read. Fails exactly when none could.
pub fn get_running_json(
    readings: Vec<Option<String>>,
) -> (document: Result<String, MissingRuntimeInformation>)
    ensures
        match document {
            Ok(text) => {
                &&& first_reading(readings@) is Some
                &&& 0 <= first_reading(readings@)->0 < readings@.len()
                &&& readings@[first_reading(readings@)->0] == Some(text)
            },
            Err(_) => first_reading(readings@) is None,
        },
{
    let ghost all = readings@;
    let mut left = readings;
    let mut i: usize = 0;
    while i < left.len()
        invariant
            i <= left.len(),
            left@ == all,
            readings@ == all,
            first_reading(all.take(i as int)) is None,
        decreases left.len() - i,
    {
        assert(all.take(i + 1).drop_last() == all.take(i as int));
        if left[i].is_some() {
            proof {
                assert(all.take(i + 1).last() == all[i as int]);
                assert(first_reading(all.take(i + 1)) == Some(i as int));
                lemma_first_reading_stays(all, i + 1);
            }
            let found = left.swap_remove(i);
            return Ok(found.unwrap());
        }
        i += 1;
    }
    assert(all.take(i as int) == all);
    Err(MissingRuntimeInformation)
}

/// A reading found among the first `upto` readings is the one found among
/// all of them.
proof fn lemma_first_reading_stays(readings: Seq<Option<String>>, upto: int)
    requires
        0 <= upto <= readings.len(),
        first_reading(readings.take(upto)) is Some,
    ensures
        first_reading(readings) == first_reading(readings.take(upto)),
    decreases readings.len() - upto,
{
    if upto < readings.len() {
        assert(readings.take(upto + 1).drop_last() == readings.take(upto));
        lemma_first_reading_stays(readings, upto + 1);
    } else {
        assert(readings.take(upto) == readings);
    }
}

} // verus!
