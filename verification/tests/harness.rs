use std::collections::HashSet;
use ztclient_common::api::{ApiRequest, Method, Operation, Payload};
use ztclient_common::containers::Removal;
use ztclient_common::models::{ExecuteCallbackResponse, Machine};
use ztclient_common::ninjapanda::delete_machine;
use ztclient_common::users::get_user;
use ztclient_common::ztclient::RegistrationError;
use ztclient_common::{
    container_cleanup, container_name_from, execute_callback, get_labels, get_running_json,
    get_unique_timestamp, random_container_name, random_names, registered_machine,
    running_json_paths, ExecuteCallbackRequest, MachineIdentity, MissingRuntimeInformation,
    RegisterCallbackRequest, RuntimeInformation, CONTAINER_NAME_LENGTH,
};

fn runtime_info() -> RuntimeInformation {
    RuntimeInformation {
        ninja_panda_api_key: "api-key".to_string(),
        ninja_panda_api_url: "http://localhost:15000".to_string(),
    }
}

fn request<'a>(user_info_id: usize) -> ExecuteCallbackRequest<'a> {
    ExecuteCallbackRequest {
        correlation_id: "tok42",
        api_key: "api-key",
        namespace_name: "ns1",
        ninja_panda_api_url: "http://localhost:15000",
        user_info_id,
    }
}

#[test]
fn labels_file_containers_under_the_project() {
    assert_eq!(get_labels(), vec![("com.docker.compose.project", "ztclient-test-tool")]);
}

#[test]
fn the_clock_reads_nanoseconds_of_this_century() {
    let first = get_unique_timestamp();
    let second = get_unique_timestamp();
    assert!(first > 1_600_000_000_000_000_000);
    assert!(second >= first);
}

#[test]
fn callback_carries_the_synthetic_user() {
    assert_eq!(
        execute_callback(&request(3)),
        ApiRequest {
            operation: Operation::RegisterMachine,
            method: Method::Post,
            url: "http://localhost:15000/api/v1/machine/register/callback/tok42".to_string(),
            bearer: "api-key".to_string(),
            payload: Payload::Callback(RegisterCallbackRequest {
                namespace: "ns1".to_string(),
                user_info: get_user(3),
            }),
        }
    );
}

#[test]
fn callback_for_every_user() {
    for id in 0..=10usize {
        match execute_callback(&request(id)).payload {
            Payload::Callback(body) => assert_eq!(body.user_info, get_user(id)),
            other => panic!("unexpected payload {:?}", other),
        }
    }
}

#[test]
fn registration_needs_exactly_200_and_a_machine() {
    let mut machine = Machine::default();
    machine.machine_id = "m-1".to_string();
    let answer = ExecuteCallbackResponse { machine };
    assert_eq!(
        registered_machine(&request(3), 200, Some(answer.clone())),
        Ok(MachineIdentity {
            machine_id: "m-1".to_string(),
            namespace: "ns1".to_string(),
            user_id: 3,
        })
    );
    assert_eq!(
        registered_machine(&request(3), 201, Some(answer.clone())),
        Err(RegistrationError::CallbackRejected { status: 201 })
    );
    assert_eq!(
        registered_machine(&request(3), 500, None),
        Err(RegistrationError::CallbackRejected { status: 500 })
    );
    assert_eq!(
        registered_machine(&request(3), 200, None),
        Err(RegistrationError::CallbackRejected { status: 200 })
    );
}

#[test]
fn names_are_spelled_in_lower_case() {
    assert_eq!(container_name_from(b"AbC0xYz"), "abc0xyz");
    assert_eq!(container_name_from(b""), "");
    assert_eq!(container_name_from(b"Z9a"), "z9a");
    assert_eq!(container_name_from(b"@[`{"), "@[`{");
}

#[test]
fn random_names_have_seven_lower_case_letters_or_digits() {
    assert_eq!(CONTAINER_NAME_LENGTH, 7);
    let mut seen = HashSet::new();
    for _ in 0..200 {
        let name = random_container_name();
        assert_eq!(name.len(), 7);
        assert!(name.bytes().all(|b| b.is_ascii_digit() || b.is_ascii_lowercase()));
        seen.insert(name);
    }
    assert!(seen.len() > 1);
}

#[test]
fn random_names_come_in_the_number_asked_for() {
    assert!(random_names(0).is_empty());
    let names = random_names(5);
    assert_eq!(names.len(), 5);
    for name in names {
        assert_eq!(name.len(), 7);
        assert!(name.bytes().all(|b| b.is_ascii_digit() || b.is_ascii_lowercase()));
    }
}

#[test]
fn cleanup_removes_every_container_and_deletes_every_machine() {
    let containers = vec!["a".to_string(), "b".to_string()];
    let machines = vec!["machine:1".to_string(), "2".to_string(), "machine:3".to_string()];
    let plan = container_cleanup(&containers, &machines, &runtime_info(), false);
    assert_eq!(
        plan.removals,
        vec![
            Removal { container_name: "a".to_string(), force: true },
            Removal { container_name: "b".to_string(), force: true },
        ]
    );
    assert_eq!(
        plan.deletions,
        vec![
            delete_machine("machine:1", &runtime_info()),
            delete_machine("2", &runtime_info()),
            delete_machine("machine:3", &runtime_info()),
        ]
    );
    assert_eq!(plan.deletions[0].url, "http://localhost:15000/api/v1/machine/1");
}

#[test]
fn cleanup_keeps_containers_while_debugging() {
    let containers = vec!["a".to_string(), "b".to_string()];
    let machines = vec!["machine:1".to_string()];
    let plan = container_cleanup(&containers, &machines, &runtime_info(), true);
    assert!(plan.removals.is_empty());
    assert_eq!(plan.deletions.len(), 1);
    let nothing = container_cleanup(&vec![], &vec![], &runtime_info(), false);
    assert!(nothing.removals.is_empty());
    assert!(nothing.deletions.is_empty());
}

#[test]
fn runtime_information_is_looked_for_here_and_two_levels_up() {
    assert_eq!(running_json_paths(), vec!["./running.json", "../../running.json"]);
}

#[test]
fn the_first_file_that_could_be_read_counts() {
    assert_eq!(
        get_running_json(vec![Some("here".to_string()), Some("above".to_string())]),
        Ok("here".to_string())
    );
    assert_eq!(get_running_json(vec![None, Some("above".to_string())]), Ok("above".to_string()));
    assert_eq!(get_running_json(vec![Some("here".to_string()), None]), Ok("here".to_string()));
}

#[test]
fn missing_runtime_information_is_an_error() {
    assert_eq!(get_running_json(vec![None, None]), Err(MissingRuntimeInformation));
    assert_eq!(get_running_json(vec![]), Err(MissingRuntimeInformation));
}
