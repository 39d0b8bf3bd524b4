use ztclient_common::containers::Removal;
use ztclient_common::ninjapanda::delete_machine;
use ztclient_common::run::{InstanceRecord, Run, RunError};
use ztclient_common::RuntimeInformation;

fn record(name: &str) -> InstanceRecord {
    InstanceRecord { name: name.to_string(), desired_hostname: None }
}

fn runtime_info() -> RuntimeInformation {
    RuntimeInformation {
        ninja_panda_api_key: "api-key".to_string(),
        ninja_panda_api_url: "http://localhost:15000".to_string(),
    }
}

#[test]
fn a_run_starts_from_nothing() {
    let run = Run::new();
    assert!(run.instances.is_empty());
    assert!(run.machines.is_empty());
    assert!(!run.has_instance("A"));
    assert!(!run.has_machine("m-1"));
}

#[test]
fn a_name_is_not_used_twice_while_its_client_is_live() {
    let mut run = Run::new();
    assert_eq!(run.provisioned(record("A")), Ok(()));
    assert_eq!(run.provisioned(record("B")), Ok(()));
    assert_eq!(
        run.provisioned(InstanceRecord {
            name: "A".to_string(),
            desired_hostname: Some("other".to_string()),
        }),
        Err(RunError::NameInUse)
    );
    assert_eq!(run.instances, vec![record("A"), record("B")]);
    assert!(run.has_instance("A"));
    assert!(run.has_instance("B"));
    assert!(!run.has_instance("a"));
}

#[test]
fn a_released_name_is_free_again() {
    let mut run = Run::new();
    run.provisioned(record("A")).unwrap();
    run.provisioned(record("B")).unwrap();
    run.provisioned(record("C")).unwrap();
    assert!(run.released("B"));
    assert!(!run.released("B"));
    assert!(!run.released("never"));
    assert_eq!(run.instances, vec![record("A"), record("C")]);
    assert_eq!(run.provisioned(record("B")), Ok(()));
    assert_eq!(run.instances, vec![record("A"), record("C"), record("B")]);
}

#[test]
fn machines_are_entered_once() {
    let mut run = Run::new();
    assert_eq!(run.registered("m-1"), Ok(()));
    assert_eq!(run.registered("m-2"), Ok(()));
    assert_eq!(run.registered("m-1"), Err(RunError::MachineKnown));
    assert_eq!(run.machines, vec!["m-1".to_string(), "m-2".to_string()]);
    assert!(run.has_machine("m-2"));
    assert!(run.deleted("m-1"));
    assert!(!run.deleted("m-1"));
    assert!(!run.has_machine("m-1"));
    assert_eq!(run.machines, vec!["m-2".to_string()]);
}

#[test]
fn teardown_covers_what_the_run_created_and_nothing_else() {
    let mut run = Run::new();
    run.provisioned(record("A")).unwrap();
    run.provisioned(record("B")).unwrap();
    run.registered("machine:1").unwrap();
    run.registered("2").unwrap();
    run.released("A");
    let plan = run.teardown(&runtime_info(), false);
    assert_eq!(plan.removals, vec![Removal { container_name: "B".to_string(), force: true }]);
    assert_eq!(
        plan.deletions,
        vec![delete_machine("machine:1", &runtime_info()), delete_machine("2", &runtime_info())]
    );
    let kept = run.teardown(&runtime_info(), true);
    assert!(kept.removals.is_empty());
    assert_eq!(kept.deletions.len(), 2);
    let nothing = Run::new().teardown(&runtime_info(), false);
    assert!(nothing.removals.is_empty());
    assert!(nothing.deletions.is_empty());
}
