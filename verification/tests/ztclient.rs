use ztclient_common::containers::{ExecError, LogChunk, Removal, Stream, Streams};
use ztclient_common::models::status::{StatusResult, StatusUserInfo};
use ztclient_common::ztclient::states::{NEEDS_LOGIN_STATE, RUNNING_STATE};
use ztclient_common::ztclient::{
    begin_registration, correlation_token, first_line, get_connect_actions, name_client,
    output_lines, preauth_result, preauth_token_registration, provision_failure, registered_as,
    start_ztclientd, status_document, status_text, token_was_accepted, token_was_rejected,
    wait_for_peer, wait_for_state_change, ztclient_alternate_hostname_registration,
    ztclient_execute, ztclient_logout, ztclient_netmap, ztclient_register_forcereauth,
    ztclient_registration, ztclient_registration_nh, ztclient_status, ztclient_status_json,
    ContainerSpec, ConvergencePoller, ConvergenceTimeoutError, PollStep, ProvisionError,
    ProvisionStage, ProvisionStep, RegistrationError, RegistrationMode,
    DEFAULT_MAX_ATTEMPTS, DEFAULT_POLL_INTERVAL_MS, INVALID_AUTH_TOKEN_ERROR, NGINX_NP_URL,
    OLD_MODE, TOKEN_MARKER,
};
use ztclient_common::Config;

fn texts(items: &[&str]) -> Vec<String> {
    items.iter().map(|item| item.to_string()).collect()
}

fn chunk(stream: Stream, text: &str) -> LogChunk {
    LogChunk { stream, message: text.as_bytes().to_vec() }
}

fn status_in(state: &str) -> StatusResult {
    let mut status = StatusResult::default();
    status.backend_state = state.to_string();
    status
}

#[test]
fn connect_words_depend_on_the_old_mode() {
    assert_eq!(OLD_MODE, "USE_OLD_MODE");
    assert_eq!(get_connect_actions("true"), ("login-server", "up"));
    assert_eq!(get_connect_actions(""), ("url", "connect"));
    assert_eq!(get_connect_actions("TRUE"), ("url", "connect"));
    assert_eq!(get_connect_actions("false"), ("url", "connect"));
    assert_eq!(get_connect_actions("true "), ("url", "connect"));
}

#[test]
fn registration_names_the_container_as_hostname() {
    assert_eq!(NGINX_NP_URL, "http://ztclient_nginx:80");
    assert_eq!(
        ztclient_registration("alpha", ""),
        texts(&["ztclient", "connect", "--url=http://ztclient_nginx:80", "--hostname=alpha"])
    );
    assert_eq!(
        ztclient_registration("alpha", "true"),
        texts(&["ztclient", "up", "--login-server=http://ztclient_nginx:80", "--hostname=alpha"])
    );
}

#[test]
fn registration_without_hostname_names_none() {
    assert_eq!(
        ztclient_registration_nh("alpha", ""),
        texts(&["ztclient", "connect", "--url=http://ztclient_nginx:80"])
    );
}

#[test]
fn forced_reauthentication_adds_its_flag_last() {
    assert_eq!(
        ztclient_register_forcereauth("alpha", ""),
        texts(&[
            "ztclient",
            "connect",
            "--url=http://ztclient_nginx:80",
            "--hostname=alpha",
            "--force-reauth"
        ])
    );
}

#[test]
fn alternate_hostname_replaces_the_container_name() {
    assert_eq!(
        ztclient_alternate_hostname_registration("alpha", "Beta_1234", ""),
        texts(&["ztclient", "connect", "--url=http://ztclient_nginx:80", "--hostname=Beta_1234"])
    );
    assert_eq!(
        begin_registration(&RegistrationMode::AlternateHostname("b".to_string()), "alpha", "true"),
        texts(&["ztclient", "up", "--login-server=http://ztclient_nginx:80", "--hostname=b"])
    );
}

#[test]
fn preauth_registration_carries_the_token() {
    assert_eq!(
        preauth_token_registration("alpha", "tok", "http://np:80", ""),
        texts(&[
            "ztclient",
            "connect",
            "--url=http://np:80",
            "--auth-token",
            "tok",
            "--hostname=alpha"
        ])
    );
}

#[test]
fn token_follows_the_marker_in_the_last_line_on_standard_error() {
    assert_eq!(TOKEN_MARKER, "state=");
    let output = vec![
        chunk(Stream::StdErr, "starting state=old"),
        chunk(Stream::StdOut, "state=from-stdout"),
        chunk(Stream::StdErr, "To authenticate, visit: http://np/login?state=abc123"),
        chunk(Stream::StdOut, "bye"),
    ];
    assert_eq!(correlation_token(&output), Ok("abc123".to_string()));
}

#[test]
fn token_is_everything_behind_the_first_marker() {
    let output = vec![chunk(Stream::StdErr, "x state=a&state=b\n")];
    assert_eq!(correlation_token(&output), Ok("a&state=b\n".to_string()));
    let empty = vec![chunk(Stream::StdErr, "state=")];
    assert_eq!(correlation_token(&empty), Ok("".to_string()));
}

#[test]
fn token_is_not_found_without_a_marker_in_the_last_line() {
    assert_eq!(correlation_token(&vec![]), Err(RegistrationError::TokenNotFound));
    let no_marker = vec![chunk(Stream::StdErr, "nothing here")];
    assert_eq!(correlation_token(&no_marker), Err(RegistrationError::TokenNotFound));
    let only_stdout = vec![chunk(Stream::StdOut, "state=abc")];
    assert_eq!(correlation_token(&only_stdout), Err(RegistrationError::TokenNotFound));
    let earlier_only = vec![chunk(Stream::StdErr, "state=abc"), chunk(Stream::StdErr, "later")];
    assert_eq!(correlation_token(&earlier_only), Err(RegistrationError::TokenNotFound));
    let garbage = vec![LogChunk { stream: Stream::StdErr, message: vec![0xff, b's'] }];
    assert_eq!(correlation_token(&garbage), Err(RegistrationError::TokenNotFound));
}

#[test]
fn preauth_report_is_the_last_line_on_standard_error_or_empty() {
    assert_eq!(preauth_result(&vec![]), Ok("".to_string()));
    assert_eq!(preauth_result(&vec![chunk(Stream::StdOut, "connected")]), Ok("".to_string()));
    let refused = vec![chunk(Stream::StdErr, "backend error: Invalid preauth token\n")];
    assert_eq!(preauth_result(&refused), Ok(INVALID_AUTH_TOKEN_ERROR.to_string()));
    let garbage = vec![LogChunk { stream: Stream::StdErr, message: vec![0xc0] }];
    assert_eq!(preauth_result(&garbage), Err(ExecError::NotText));
}

#[test]
fn token_reports_are_compared_letter_for_letter() {
    assert!(token_was_rejected("backend error: Invalid preauth token\n"));
    assert!(!token_was_rejected("backend error: Invalid preauth token"));
    assert!(!token_was_rejected(""));
    assert!(token_was_accepted(""));
    assert!(!token_was_accepted(" "));
    assert!(!token_was_accepted(INVALID_AUTH_TOKEN_ERROR));
}

#[test]
fn a_token_for_two_registrations_is_rejected_on_the_third() {
    let reports = [
        preauth_result(&vec![]).unwrap(),
        preauth_result(&vec![chunk(Stream::StdOut, "ok")]).unwrap(),
        preauth_result(&vec![chunk(Stream::StdErr, INVALID_AUTH_TOKEN_ERROR)]).unwrap(),
    ];
    assert!(token_was_accepted(&reports[0]));
    assert!(token_was_accepted(&reports[1]));
    assert!(token_was_rejected(&reports[2]));
    assert_eq!(reports[2], "backend error: Invalid preauth token\n");
}

#[test]
fn status_commands() {
    assert_eq!(ztclient_status_json(), texts(&["ztclient", "status", "--json"]));
    assert_eq!(ztclient_status(), texts(&["ztclient", "status"]));
    assert_eq!(ztclient_logout(), texts(&["ztclient", "logout"]));
    assert_eq!(ztclient_netmap(), texts(&["ztclient", "examine", "netmap"]));
    assert_eq!(
        wait_for_peer("ztclienthost004"),
        texts(&["ztclient", "examine", "wait-for-peer", "--peer", "ztclienthost004"])
    );
}

#[test]
fn status_document_is_the_last_piece_on_standard_output() {
    let output = vec![
        chunk(Stream::StdOut, "{\"BackendState\":\"NeedsLogin\"}"),
        chunk(Stream::StdErr, "warning"),
        chunk(Stream::StdOut, "{\"BackendState\":\"Running\"}"),
    ];
    assert_eq!(status_document(&output), Ok("{\"BackendState\":\"Running\"}".to_string()));
    assert_eq!(status_document(&vec![]), Err(ExecError::NoOutput));
    assert_eq!(
        status_document(&vec![chunk(Stream::StdErr, "only errors")]),
        Err(ExecError::NoOutput)
    );
    let garbage = vec![LogChunk { stream: Stream::StdOut, message: vec![0xff] }];
    assert_eq!(status_document(&garbage), Err(ExecError::NotText));
}

#[test]
fn status_text_joins_output_and_errors_line_by_line() {
    let output = vec![
        chunk(Stream::StdOut, "one"),
        chunk(Stream::Console, "skipped"),
        chunk(Stream::StdErr, "two"),
        chunk(Stream::StdIn, "skipped too"),
        chunk(Stream::StdOut, "three"),
    ];
    assert_eq!(status_text(&output), Ok("one\ntwo\nthree".to_string()));
    assert_eq!(status_text(&vec![]), Ok("".to_string()));
    assert_eq!(status_text(&vec![chunk(Stream::StdErr, "alone")]), Ok("alone".to_string()));
    let garbage = vec![chunk(Stream::StdOut, "one"), LogChunk { stream: Stream::StdErr, message: vec![0xff] }];
    assert_eq!(status_text(&garbage), Err(ExecError::NotText));
}

#[test]
fn execute_reads_every_stream() {
    let output = vec![
        chunk(Stream::StdOut, "one"),
        chunk(Stream::Console, "two"),
        chunk(Stream::StdErr, "three"),
        chunk(Stream::StdIn, "four"),
    ];
    assert_eq!(ztclient_execute(&output), Ok(texts(&["one", "two", "three", "four"])));
    assert_eq!(output_lines(&output, Streams::Output), Ok(texts(&["one", "three"])));
    assert_eq!(ztclient_execute(&vec![]), Ok(vec![]));
    let garbage = vec![LogChunk { stream: Stream::Console, message: vec![0xff] }];
    assert_eq!(ztclient_execute(&garbage), Err(ExecError::NotText));
    assert_eq!(output_lines(&garbage, Streams::Output), Ok(vec![]));
}

#[test]
fn first_line_needs_a_line() {
    assert_eq!(first_line(texts(&["HELLO", "more"])), Ok("HELLO".to_string()));
    assert_eq!(first_line(texts(&["only"])), Ok("only".to_string()));
    assert_eq!(first_line(vec![]), Err(ExecError::NoOutput));
}

#[test]
fn poller_starts_with_the_defaults() {
    assert_eq!(DEFAULT_POLL_INTERVAL_MS, 500);
    assert_eq!(DEFAULT_MAX_ATTEMPTS, 1000);
    assert_eq!(RUNNING_STATE, "Running");
    assert_eq!(NEEDS_LOGIN_STATE, "NeedsLogin");
    assert_eq!(
        wait_for_state_change("alpha", RUNNING_STATE),
        ConvergencePoller {
            container_name: "alpha".to_string(),
            target_state: "Running".to_string(),
            poll_interval_ms: 500,
            max_attempts: 1000,
            attempts: 0,
        }
    );
}

#[test]
fn poller_converges_on_the_expected_state() {
    let mut poller = wait_for_state_change("alpha", RUNNING_STATE);
    assert_eq!(poller.observe(&status_in("NeedsLogin")), PollStep::Retry { sleep_ms: 500 });
    assert_eq!(poller.observe(&status_in("Starting")), PollStep::Retry { sleep_ms: 500 });
    assert_eq!(poller.attempts, 2);
    assert_eq!(poller.observe(&status_in("Running")), PollStep::Converged);
    assert_eq!(poller.attempts, 2);
}

#[test]
fn poller_converges_with_the_first_poll() {
    let mut poller = ConvergencePoller::new("alpha", "NeedsLogin", 10, 1);
    assert_eq!(poller.observe(&status_in("NeedsLogin")), PollStep::Converged);
    assert_eq!(poller.attempts, 0);
}

#[test]
fn poller_times_out_after_exactly_the_budget_of_polls() {
    let mut poller = wait_for_state_change("alpha", RUNNING_STATE);
    for poll in 1..1000u32 {
        assert_eq!(
            poller.observe(&status_in("NeedsLogin")),
            PollStep::Retry { sleep_ms: 500 },
            "poll {}",
            poll
        );
    }
    assert_eq!(
        poller.observe(&status_in("Stopped")),
        PollStep::TimedOut(ConvergenceTimeoutError {
            container_name: "alpha".to_string(),
            target_state: "Running".to_string(),
            attempts: 1000,
            last_state: "Stopped".to_string(),
        })
    );
}

#[test]
fn poller_with_a_small_budget() {
    let mut poller = ConvergencePoller::new("beta", "Running", 25, 3);
    assert_eq!(poller.observe(&status_in("a")), PollStep::Retry { sleep_ms: 25 });
    assert_eq!(poller.observe(&status_in("b")), PollStep::Retry { sleep_ms: 25 });
    assert_eq!(
        poller.observe(&status_in("c")),
        PollStep::TimedOut(ConvergenceTimeoutError {
            container_name: "beta".to_string(),
            target_state: "Running".to_string(),
            attempts: 3,
            last_state: "c".to_string(),
        })
    );
    let mut single = ConvergencePoller::new("beta", "Running", 25, 1);
    assert!(matches!(single.observe(&status_in("a")), PollStep::TimedOut(_)));
    let mut none = ConvergencePoller::new("beta", "Running", 25, 0);
    assert!(matches!(none.observe(&status_in("a")), PollStep::TimedOut(_)));
}

fn config() -> Config {
    let mut config = Config::default();
    config.ztclient_image = "ztclient:latest".to_string();
    config.docker_network_name = "ztnet".to_string();
    config
}

fn client_spec(name: &str) -> ContainerSpec {
    ContainerSpec {
        name: name.to_string(),
        image: "ztclient:latest".to_string(),
        hostname: name.to_string(),
        labels: vec![("com.docker.compose.project", "ztclient-test-tool")],
        env: texts(&["ZT_DEBUG_REGISTER=true", "ZT_DEBUG_MAP=true", "NETTY_PORT=80"]),
        cmd: texts(&["--tun", "userspace-networking", "--statedir", "/var/lib/ztclientd"]),
        cap_add: texts(&["NET_ADMIN", "NET_RAW"]),
    }
}

#[test]
fn provisioning_removes_creates_attaches_connects_and_starts() {
    assert_eq!(
        start_ztclientd(&config(), "alpha", false),
        vec![
            ProvisionStep::Remove(Removal { container_name: "alpha".to_string(), force: true }),
            ProvisionStep::Create(client_spec("alpha")),
            ProvisionStep::Attach {
                container: "alpha".to_string(),
                detach_keys: "ctrl-c".to_string()
            },
            ProvisionStep::ConnectNetwork {
                network: "ztnet".to_string(),
                container: "alpha".to_string()
            },
            ProvisionStep::Start { container: "alpha".to_string() },
        ]
    );
}

#[test]
fn provisioning_keeps_old_containers_while_debugging() {
    let plan = start_ztclientd(&config(), "alpha", true);
    assert_eq!(plan.len(), 4);
    assert_eq!(plan[0], ProvisionStep::Create(client_spec("alpha")));
}

#[test]
fn only_a_failed_removal_is_forgiven() {
    let plan = start_ztclientd(&config(), "alpha", false);
    assert_eq!(provision_failure(&plan[0]), None);
    assert_eq!(provision_failure(&plan[1]), Some(ProvisionError { stage: ProvisionStage::Create }));
    assert_eq!(provision_failure(&plan[2]), Some(ProvisionError { stage: ProvisionStage::Attach }));
    assert_eq!(
        provision_failure(&plan[3]),
        Some(ProvisionError { stage: ProvisionStage::ConnectNetwork })
    );
    assert_eq!(provision_failure(&plan[4]), Some(ProvisionError { stage: ProvisionStage::Start }));
}

#[test]
fn clients_are_numbered_in_three_digits() {
    assert_eq!(name_client("ztclienthost", 4), "ztclienthost004");
    assert_eq!(name_client("mdel01", 12), "mdel01012");
    assert_eq!(name_client("x", 1000), "x1000");
    assert_eq!(name_client("", 0), "000");
}

fn status_of_user(number: i64, key: &str, first_name: &str, last_name: &str) -> StatusResult {
    let mut status = StatusResult::default();
    status.self_field.user_id = number;
    let mut other = StatusUserInfo::default();
    other.first_name = "Somebody".to_string();
    other.last_name = "Else".to_string();
    let mut user = StatusUserInfo::default();
    user.first_name = first_name.to_string();
    user.last_name = last_name.to_string();
    status.user = Some(vec![("99".to_string(), other), (key.to_string(), user)]);
    status
}

#[test]
fn a_running_client_reports_its_synthetic_user() {
    assert!(registered_as(&status_of_user(7, "7", "User03", "Optm03"), 3));
    assert!(!registered_as(&status_of_user(7, "7", "User03", "Optm03"), 4));
    assert!(!registered_as(&status_of_user(7, "7", "User03", "Optm04"), 3));
    assert!(!registered_as(&status_of_user(7, "8", "User03", "Optm03"), 3));
    assert!(registered_as(&status_of_user(-2, "-2", "User00", "Optm00"), 0));
    assert!(!registered_as(&StatusResult::default(), 3));
}

#[test]
fn a_timeout_reports_client_state_polls_and_last_state() {
    let error = ConvergenceTimeoutError {
        container_name: "alpha".to_string(),
        target_state: "Running".to_string(),
        attempts: 1000,
        last_state: "NeedsLogin".to_string(),
    };
    assert_eq!(
        error.message(),
        "alpha: wait for state Running timed out after 1000 polls, last state NeedsLogin"
    );
}

#[test]
fn no_two_clients_of_a_fleet_share_a_name() {
    let mut seen = std::collections::HashSet::new();
    for number in 0..1200u64 {
        assert!(seen.insert(name_client("fleet", number)));
    }
    assert_ne!(name_client("f", 1), name_client("f", 10));
    assert_ne!(name_client("f", 100), name_client("f", 1000));
}
