use ztclient_common::api::{Method, Operation, Payload};
use ztclient_common::containers::{ExecError, LogChunk, Stream};
use ztclient_common::enrollment::{
    Action, ClientEnrollment, Enrollment, EnrollmentError, Event, Stage,
};
use ztclient_common::models::status::{StatusNode, StatusResult, StatusUserInfo};
use ztclient_common::models::{ExecuteCallbackResponse, Machine};
use ztclient_common::ninjapanda::{
    create_namespace, make_all_machines_peers, policy_outcome, zero_out_acl_policy,
};
use ztclient_common::users::get_user;
use ztclient_common::ztclient::states::RUNNING_STATE;
use ztclient_common::ztclient::{
    create_and_register_client, create_client_with_preauth_token, create_running_clients,
    preauth_token_registration, registered_as, start_ztclientd, wait_for_state_change,
    ztclient_registration, PollStep, ProvisionError, ProvisionStage, RegistrationError,
    RegistrationMode, INVALID_AUTH_TOKEN_ERROR,
};
use ztclient_common::{
    start_and_register_client, start_and_register_client_nh, start_and_register_n_clients,
    Config, MachineIdentity, RuntimeInformation,
};

fn runtime_info() -> RuntimeInformation {
    RuntimeInformation {
        ninja_panda_api_key: "api-key".to_string(),
        ninja_panda_api_url: "http://localhost:15000".to_string(),
    }
}

fn config() -> Config {
    let mut config = Config::default();
    config.ztclient_image = "ztclient:latest".to_string();
    config.docker_network_name = "ztnet".to_string();
    config
}

fn stderr(text: &str) -> Vec<LogChunk> {
    vec![LogChunk { stream: Stream::StdErr, message: text.as_bytes().to_vec() }]
}

fn answer(machine_id: &str) -> Option<ExecuteCallbackResponse> {
    let mut machine = Machine::default();
    machine.machine_id = machine_id.to_string();
    Some(ExecuteCallbackResponse { machine })
}

fn step(flow: &mut ClientEnrollment, event: Event) -> Action {
    flow.step(event, &config(), &runtime_info(), "", false)
}

#[test]
fn enrollment_through_the_callback_runs_its_course() {
    let mut flow = create_and_register_client("A", "ns1", 3);
    assert_eq!(flow.stage, Stage::Created);

    let action = step(&mut flow, Event::Begin);
    assert_eq!(action, Action::Provision(start_ztclientd(&config(), "A", false)));
    assert_eq!(flow.stage, Stage::Provisioning);

    let action = step(&mut flow, Event::Provisioned(None));
    assert_eq!(action, Action::Run(ztclient_registration("A", "")));
    assert_eq!(flow.stage, Stage::Connecting);

    let action = step(&mut flow, Event::Output(stderr("visit http://np/a?state=tok42")));
    assert_eq!(flow.stage, Stage::Calling { token: "tok42".to_string() });
    match action {
        Action::Send(request) => {
            assert_eq!(request.operation, Operation::RegisterMachine);
            assert_eq!(request.method, Method::Post);
            assert_eq!(
                request.url,
                "http://localhost:15000/api/v1/machine/register/callback/tok42"
            );
            assert_eq!(request.bearer, "api-key");
            match request.payload {
                Payload::Callback(body) => {
                    assert_eq!(body.namespace, "ns1");
                    assert_eq!(body.user_info, get_user(3));
                }
                other => panic!("unexpected payload {:?}", other),
            }
        }
        other => panic!("unexpected action {:?}", other),
    }

    let action = step(&mut flow, Event::Answer { status: 200, response: answer("m-1") });
    assert_eq!(
        action,
        Action::Registered(MachineIdentity {
            machine_id: "m-1".to_string(),
            namespace: "ns1".to_string(),
            user_id: 3,
        })
    );
    assert_eq!(flow.stage, Stage::Done);
}

#[test]
fn enrollment_with_a_token_runs_its_course() {
    let mut flow = create_client_with_preauth_token("preauth_token_test01", "the-token");
    assert!(matches!(step(&mut flow, Event::Begin), Action::Provision(_)));
    let action = step(&mut flow, Event::Provisioned(None));
    assert_eq!(
        action,
        Action::Run(preauth_token_registration(
            "preauth_token_test01",
            "the-token",
            "http://ztclient_nginx:80",
            ""
        ))
    );
    let action = step(&mut flow, Event::Output(vec![]));
    assert_eq!(action, Action::Joined("".to_string()));
    assert_eq!(flow.stage, Stage::Done);
}

#[test]
fn enrollment_with_a_refused_token_reports_the_refusal() {
    let mut flow = create_client_with_preauth_token("preauth_token_invalid01", "asjhfasjkfhalskjfhasljfkas");
    step(&mut flow, Event::Begin);
    step(&mut flow, Event::Provisioned(None));
    let action = step(&mut flow, Event::Output(stderr(INVALID_AUTH_TOKEN_ERROR)));
    assert_eq!(action, Action::Joined("backend error: Invalid preauth token\n".to_string()));
    assert_eq!(flow.stage, Stage::Done);
}

#[test]
fn enrollment_fails_with_the_step_that_could_not_be_carried_out() {
    let mut flow = create_and_register_client("A", "ns1", 3);
    step(&mut flow, Event::Begin);
    let error = ProvisionError { stage: ProvisionStage::ConnectNetwork };
    let action = step(&mut flow, Event::Provisioned(Some(error)));
    assert_eq!(action, Action::Failed(EnrollmentError::Provision(error)));
    assert_eq!(flow.stage, Stage::Failed);
    assert_eq!(
        step(&mut flow, Event::Provisioned(None)),
        Action::Failed(EnrollmentError::OutOfOrder)
    );
}

#[test]
fn enrollment_fails_without_a_token() {
    let mut flow = create_and_register_client("A", "ns1", 3);
    step(&mut flow, Event::Begin);
    step(&mut flow, Event::Provisioned(None));
    let action = step(&mut flow, Event::Output(stderr("no marker")));
    assert_eq!(
        action,
        Action::Failed(EnrollmentError::Registration(RegistrationError::TokenNotFound))
    );
    assert_eq!(flow.stage, Stage::Failed);
}

#[test]
fn enrollment_fails_when_the_callback_is_rejected() {
    for (status, response) in [(404u16, None), (201, answer("m-1")), (200, None)] {
        let mut flow = create_and_register_client("A", "ns1", 3);
        step(&mut flow, Event::Begin);
        step(&mut flow, Event::Provisioned(None));
        step(&mut flow, Event::Output(stderr("state=tok")));
        let action = step(&mut flow, Event::Answer { status, response });
        assert_eq!(
            action,
            Action::Failed(EnrollmentError::Registration(RegistrationError::CallbackRejected {
                status
            }))
        );
        assert_eq!(flow.stage, Stage::Failed);
    }
}

#[test]
fn enrollment_with_a_token_fails_on_output_that_is_no_text() {
    let mut flow = create_client_with_preauth_token("A", "tok");
    step(&mut flow, Event::Begin);
    step(&mut flow, Event::Provisioned(None));
    let garbage = vec![LogChunk { stream: Stream::StdErr, message: vec![0xff] }];
    assert_eq!(
        step(&mut flow, Event::Output(garbage)),
        Action::Failed(EnrollmentError::Exec(ExecError::NotText))
    );
}

#[test]
fn events_out_of_order_end_the_enrollment() {
    let mut flow = create_and_register_client("A", "ns1", 3);
    assert_eq!(
        step(&mut flow, Event::Provisioned(None)),
        Action::Failed(EnrollmentError::OutOfOrder)
    );
    assert_eq!(flow.stage, Stage::Failed);

    let mut flow = create_and_register_client("A", "ns1", 3);
    step(&mut flow, Event::Begin);
    assert_eq!(step(&mut flow, Event::Begin), Action::Failed(EnrollmentError::OutOfOrder));

    let mut flow = create_client_with_preauth_token("A", "tok");
    step(&mut flow, Event::Begin);
    step(&mut flow, Event::Provisioned(None));
    assert_eq!(
        step(&mut flow, Event::Answer { status: 200, response: answer("m") }),
        Action::Failed(EnrollmentError::OutOfOrder)
    );

    let mut flow = create_client_with_preauth_token("A", "tok");
    step(&mut flow, Event::Begin);
    step(&mut flow, Event::Provisioned(None));
    step(&mut flow, Event::Output(vec![]));
    assert_eq!(flow.stage, Stage::Done);
    assert_eq!(step(&mut flow, Event::Begin), Action::Failed(EnrollmentError::OutOfOrder));
    assert_eq!(flow.stage, Stage::Failed);
}

#[test]
fn named_enrollments_choose_the_mode() {
    let with_hostname = start_and_register_client("alpha", "ns", 2);
    assert_eq!(
        with_hostname,
        ClientEnrollment::by_callback("alpha", RegistrationMode::Hostname, "ns", 2)
    );
    assert_eq!(with_hostname, create_and_register_client("alpha", "ns", 2));
    assert_eq!(
        start_and_register_client_nh("alpha", "ns", 2),
        ClientEnrollment {
            container_name: "alpha".to_string(),
            enrollment: Enrollment::Callback {
                mode: RegistrationMode::NoHostname,
                namespace: "ns".to_string(),
                user_info_id: 2,
            },
            stage: Stage::Created,
        }
    );
    assert_eq!(
        create_client_with_preauth_token("alpha", "tok"),
        ClientEnrollment::by_token("alpha", "tok", "http://ztclient_nginx:80")
    );
}

#[test]
fn one_enrollment_for_each_name() {
    let names = vec!["a".to_string(), "b".to_string(), "c".to_string()];
    let flows = start_and_register_n_clients("ns", 4, &names);
    assert_eq!(flows.len(), 3);
    for (flow, name) in flows.iter().zip(names.iter()) {
        assert_eq!(*flow, start_and_register_client(name, "ns", 4));
    }
    assert!(start_and_register_n_clients("ns", 4, &vec![]).is_empty());
}

#[test]
fn a_fleet_is_numbered_from_one_and_spread_over_nine_users() {
    let fleet = create_running_clients("loginoutbs", 10, "optm");
    assert_eq!(fleet.len(), 10);
    assert_eq!(fleet[0], create_and_register_client("loginoutbs001", "optm", 1));
    assert_eq!(fleet[7], create_and_register_client("loginoutbs008", "optm", 8));
    assert_eq!(fleet[8], create_and_register_client("loginoutbs009", "optm", 0));
    assert_eq!(fleet[9], create_and_register_client("loginoutbs010", "optm", 1));
    assert!(create_running_clients("x", 0, "optm").is_empty());
}

fn running_status(user_number: i64, user_info_id: usize, peers: usize) -> StatusResult {
    let expected = get_user(user_info_id);
    let mut status = StatusResult::default();
    status.backend_state = "Running".to_string();
    status.self_field.user_id = user_number;
    let mut user = StatusUserInfo::default();
    user.login_name = expected.email.clone();
    user.first_name = expected.first_name.clone();
    user.last_name = expected.last_name.clone();
    status.user = Some(vec![(user_number.to_string(), user)]);
    let mut table = Vec::new();
    for peer in 0..peers {
        table.push((format!("nodekey:{}", peer), StatusNode::default()));
    }
    status.peer = Some(table);
    status
}

fn enroll(name: &str, namespace: &str, user: usize, machine_id: &str) -> MachineIdentity {
    let mut flow = create_and_register_client(name, namespace, user);
    step(&mut flow, Event::Begin);
    step(&mut flow, Event::Provisioned(None));
    step(&mut flow, Event::Output(stderr("state=token")));
    match step(&mut flow, Event::Answer { status: 200, response: answer(machine_id) }) {
        Action::Registered(identity) => identity,
        other => panic!("unexpected action {:?}", other),
    }
}

#[test]
fn two_clients_become_peers_once_a_policy_names_them() {
    let namespace = create_namespace("ns1", &runtime_info());
    assert_eq!(policy_outcome(namespace.operation, 200), Ok(()));

    let first = enroll("A", "ns1", 3, "machine-a");
    assert_eq!(first.namespace, "ns1");
    assert_eq!(first.user_id, 3);

    let mut poller = wait_for_state_change("A", RUNNING_STATE);
    let mut needs_login = StatusResult::default();
    needs_login.backend_state = "NeedsLogin".to_string();
    assert_eq!(poller.observe(&needs_login), PollStep::Retry { sleep_ms: 500 });
    let alone = running_status(1, 3, 0);
    assert_eq!(poller.observe(&alone), PollStep::Converged);
    assert!(registered_as(&alone, 3));
    assert_eq!(alone.peer_count(), 0);

    let second = enroll("B", "ns1", 3, "machine-b");
    let ids = vec![
        format!("machine:{}", first.machine_id),
        format!("machine:{}", second.machine_id),
    ];
    let submission = make_all_machines_peers(&runtime_info(), &ids);
    assert_eq!(policy_outcome(submission.request.operation, 200), Ok(()));
    match &submission.request.payload {
        Payload::CreatePolicy(body) => {
            assert_eq!(body.acl_policy.groups[0].values, ids);
            assert_eq!(body.acl_policy.groups[1].values, ids);
        }
        other => panic!("unexpected payload {:?}", other),
    }

    let mut poller = wait_for_state_change("B", RUNNING_STATE);
    let peered = running_status(1, 3, 1);
    assert_eq!(poller.observe(&peered), PollStep::Converged);
    assert_eq!(peered.peer_count(), 1);

    let revocation = zero_out_acl_policy(&runtime_info(), &submission.policy_id);
    assert_eq!(policy_outcome(revocation.operation, 200), Ok(()));
    let revoked = running_status(1, 3, 0);
    assert_eq!(revoked.peer_count(), 0);
}

#[test]
fn enrollment_fails_when_the_command_cannot_be_run() {
    let mut flow = create_and_register_client("A", "ns1", 3);
    step(&mut flow, Event::Begin);
    step(&mut flow, Event::Provisioned(None));
    assert_eq!(
        step(&mut flow, Event::NotRun),
        Action::Failed(EnrollmentError::Exec(ExecError::NotRun))
    );
    assert_eq!(flow.stage, Stage::Failed);
    let mut early = create_and_register_client("A", "ns1", 3);
    assert_eq!(step(&mut early, Event::NotRun), Action::Failed(EnrollmentError::OutOfOrder));
}

#[test]
fn enrollment_fails_when_the_control_plane_does_not_answer() {
    let mut flow = create_and_register_client("A", "ns1", 3);
    step(&mut flow, Event::Begin);
    step(&mut flow, Event::Provisioned(None));
    step(&mut flow, Event::Output(stderr("state=tok")));
    assert_eq!(step(&mut flow, Event::NoAnswer), Action::Failed(EnrollmentError::Unreachable));
    assert_eq!(flow.stage, Stage::Failed);
}

#[test]
fn failures_are_reported_with_client_and_operation() {
    let flow = create_and_register_client("policy01", "ns1", 3);
    assert_eq!(
        flow.failure_message(EnrollmentError::Provision(ProvisionError {
            stage: ProvisionStage::Start
        })),
        "policy01: provision: could not start container"
    );
    assert_eq!(
        flow.failure_message(EnrollmentError::Registration(RegistrationError::TokenNotFound)),
        "policy01: begin registration: the client wrote no correlation token"
    );
    assert_eq!(
        flow.failure_message(EnrollmentError::Registration(
            RegistrationError::CallbackRejected { status: 404 }
        )),
        "policy01: register machine: the control plane answered with status 404"
    );
    assert_eq!(
        EnrollmentError::Exec(ExecError::NotRun).message(),
        "execute: the command could not be run"
    );
    assert_eq!(
        EnrollmentError::Exec(ExecError::NoOutput).message(),
        "execute: the command wrote nothing"
    );
    assert_eq!(
        EnrollmentError::Exec(ExecError::NotText).message(),
        "execute: the command wrote what is no text"
    );
    assert_eq!(
        EnrollmentError::Unreachable.message(),
        "register machine: no answer from the control plane"
    );
    assert_eq!(EnrollmentError::OutOfOrder.message(), "an event arrived out of order");
    assert_eq!(
        EnrollmentError::Provision(ProvisionError { stage: ProvisionStage::Create }).message(),
        "provision: could not create container"
    );
    assert_eq!(ProvisionStage::Attach.describe(), "attach to container");
    assert_eq!(ProvisionStage::ConnectNetwork.describe(), "connect container to network");
}
