//! Driving one client: provisioning its container, registering it with the
//! control plane and waiting until it reports an expected state.
//!
//! Every function here either describes what to run inside the container or
//! reads what the command wrote. Running the command is left to whoever owns
//! the connection to the container runtime.

use crate::containers::{
    all_text, decode_all, last_text, last_text_on, messages, messages_on, remove_container,
    removal_of, texts_of, ExecError, LogChunk, Removal, RemovalView, Streams,
};
use crate::text::{chain, find, find_in, join, joined, push_text, same_text, tail, to_chars};
use crate::{get_labels, Config, PROJECT_LABEL, PROJECT_NAME};
use crate::enrollment::{ClientEnrollment, Enrollment};
use crate::models::entry_index;
use crate::models::status::StatusResult;
use crate::text::{decimal, push_zero_padded, zero_padded};
use crate::api::PayloadView;
use crate::callback_request;
use crate::users::{get_user, synthetic_user, UserInfoView, MAX_USER_ID};
use vstd::prelude::*;

pub mod states;

verus! {

/// Name of the environment variable that selects the command words of old
/// clients when it holds `true`.
pub const OLD_MODE: &'static str = "USE_OLD_MODE";

/// Address under which the clients reach the control plane.
pub const NGINX_NP_URL: &'static str = "http://ztclient_nginx:80";

/// The words with which a client is told to connect: the name of the option
/// that carries the address of the control plane, and the name of the
/// command.
pub open spec fn connect_actions(old_mode: Seq<char>) -> (Seq<char>, Seq<char>) {
    if old_mode == "true"@ {
        ("login-server"@, "up"@)
    } else {
        ("url"@, "connect"@)
    }
}

/// Chooses the words with which a client is told to connect. `old_mode` is
/// what the variable [`OLD_MODE`] holds, or the empty text where it is not
/// set; only the exact text `true` selects the old words.
pub fn get_connect_actions(old_mode: &str) -> (actions: (&'static str, &'static str))
    ensures
        actions.0@ == connect_actions(old_mode@).0,
        actions.1@ == connect_actions(old_mode@).1,
{
    if same_text(old_mode, "true") {
        ("login-server", "up")
    } else {
        ("url", "connect")
    }
}

/// The option that tells a client where the control plane is.
pub open spec fn server_option(old_mode: Seq<char>, url: Seq<char>) -> Seq<char> {
    "--"@ + connect_actions(old_mode).0 + "="@ + url
}

/// The option that sets the hostname under which a client registers.
pub open spec fn hostname_option(hostname: Seq<char>) -> Seq<char> {
    "--hostname="@ + hostname
}

/// How a client is asked to register.
#[derive(Clone, Debug, PartialEq)]
pub enum RegistrationMode {
    /// Under the name of its container.
    Hostname,
    /// Without naming a hostname.
    NoHostname,
    /// Under the name of its container, giving up an earlier registration.
    ForceReauth,
    /// Under a hostname of the caller's choice.
    AlternateHostname(String),
}

/// The command that starts a registration: the connect command with the
/// address of the control plane and what the mode adds to it.
pub open spec fn registration_command(
    mode: RegistrationMode,
    container_name: Seq<char>,
    old_mode: Seq<char>,
) -> Seq<Seq<char>> {
    let start = seq![
        "ztclient"@,
        connect_actions(old_mode).1,
        server_option(old_mode, NGINX_NP_URL@),
    ];
    match mode {
        RegistrationMode::Hostname => start.push(hostname_option(container_name)),
        RegistrationMode::NoHostname => start,
        RegistrationMode::ForceReauth => start.push(hostname_option(container_name)).push(
            "--force-reauth"@,
        ),
        RegistrationMode::AlternateHostname(hostname) => start.push(hostname_option(hostname@)),
    }
}

/// The command that registers a client with a pre-authorization token.
pub open spec fn preauth_command(
    container_name: Seq<char>,
    preauth_token: Seq<char>,
    np_url: Seq<char>,
    old_mode: Seq<char>,
) -> Seq<Seq<char>> {
    seq![
        "ztclient"@,
        connect_actions(old_mode).1,
        server_option(old_mode, np_url),
        "--auth-token"@,
        preauth_token,
        hostname_option(container_name),
    ]
}

fn connect_start(old_mode: &str, url: &str) -> (command: Vec<String>)
    ensures
        command.deep_view() == seq![
            "ztclient"@,
            connect_actions(old_mode@).1,
            server_option(old_mode@, url@),
        ],
{
    let (url_arg_name, connect_arg_name) = get_connect_actions(old_mode);
    let mut server_url = chain("--", url_arg_name);
    server_url.append("=");
    server_url.append(url);
    let mut command: Vec<String> = Vec::new();
    push_text(&mut command, "ztclient");
    push_text(&mut command, connect_arg_name);
    push_text(&mut command, server_url.as_str());
    assert(command.deep_view() =~= seq![
        "ztclient"@,
        connect_actions(old_mode@).1,
        server_option(old_mode@, url@),
    ]);
    command
}

/// Describes how to start a registration in the given mode: the command to
/// run inside the container. What it writes goes to [`correlation_token`].
pub fn begin_registration(
    mode: &RegistrationMode,
    container_name: &str,
    old_mode: &str,
) -> (command: Vec<String>)
    ensures
        command.deep_view() == registration_command(*mode, container_name@, old_mode@),
{
    let mut command = connect_start(old_mode, NGINX_NP_URL);
    match mode {
        RegistrationMode::Hostname => {
            push_text(&mut command, chain("--hostname=", container_name).as_str());
        },
        RegistrationMode::NoHostname => {},
        RegistrationMode::ForceReauth => {
            push_text(&mut command, chain("--hostname=", container_name).as_str());
            push_text(&mut command, "--force-reauth");
        },
        RegistrationMode::AlternateHostname(hostname) => {
            push_text(&mut command, chain("--hostname=", hostname.as_str()).as_str());
        },
    }
    command
}

/// Describes the registration of a client under the name of its container.
pub fn ztclient_registration(container_name: &str, old_mode: &str) -> (command: Vec<String>)
    ensures
        command.deep_view() == registration_command(
            RegistrationMode::Hostname,
            container_name@,
            old_mode@,
        ),
{
    begin_registration(&RegistrationMode::Hostname, container_name, old_mode)
}

/// Describes the registration of a client that names no hostname.
pub fn ztclient_registration_nh(container_name: &str, old_mode: &str) -> (command: Vec<String>)
    ensures
        command.deep_view() == registration_command(
            RegistrationMode::NoHostname,
            container_name@,
            old_mode@,
        ),
{
    begin_registration(&RegistrationMode::NoHostname, container_name, old_mode)
}

/// Describes the registration of a client that gives up an earlier
/// registration.
pub fn ztclient_register_forcereauth(container_name: &str, old_mode: &str) -> (command: Vec<String>)
    ensures
        command.deep_view() == registration_command(
            RegistrationMode::ForceReauth,
            container_name@,
            old_mode@,
        ),
{
    begin_registration(&RegistrationMode::ForceReauth, container_name, old_mode)
}

/// Describes the registration of a client under a hostname that differs
/// from the name of its container.
pub fn ztclient_alternate_hostname_registration(
    container_name: &str,
    hostname: &str,
    old_mode: &str,
) -> (command: Vec<String>)
    ensures
        command.deep_view() == seq![
            "ztclient"@,
            connect_actions(old_mode@).1,
            server_option(old_mode@, NGINX_NP_URL@),
            hostname_option(hostname@),
        ],
{
    begin_registration(
        &RegistrationMode::AlternateHostname(hostname.to_owned()),
        container_name,
        old_mode,
    )
}

/// Describes the registration of a client with a pre-authorization token
/// against the control plane at `np_url`. What the command writes goes to
/// [`preauth_result`].
pub fn preauth_token_registration(
    container_name: &str,
    preauth_token: &str,
    np_url: &str,
    old_mode: &str,
) -> (command: Vec<String>)
    ensures
        command.deep_view() == preauth_command(
            container_name@,
            preauth_token@,
            np_url@,
            old_mode@,
        ),
{
    let mut command = connect_start(old_mode, np_url);
    push_text(&mut command, "--auth-token");
    push_text(&mut command, preauth_token);
    push_text(&mut command, chain("--hostname=", container_name).as_str());
    command
}

/// The text in front of the correlation token in what a client writes when
/// it is told to connect.
pub const TOKEN_MARKER: &'static str = "state=";

/// Why a registration failed. Neither failure is retried.
#[derive(Clone, Copy, Debug, PartialEq, Eq, Structural)]
pub enum RegistrationError {
    /// The client did not write a correlation token.
    TokenNotFound,
    /// The control plane answered the callback with another status code
    /// than 200, or with 200 and no machine.
    CallbackRejected { status: u16 },
}

/// The correlation token in a line: everything behind the first marker.
pub open spec fn token_in_line(line: Seq<char>) -> Option<Seq<char>> {
    match find(line, TOKEN_MARKER@) {
        Some(at) => Some(line.skip(at + TOKEN_MARKER@.len())),
        None => None,
    }
}

/// The correlation token in the output of a connect command: it stands in
/// the last piece that arrived on standard error.
pub open spec fn token_in(chunks: Seq<LogChunk>) -> Option<Seq<char>> {
    match last_text_on(chunks, Streams::StdErr) {
        Ok(Some(line)) => token_in_line(line),
        _ => None,
    }
}

/// Extracts the correlation token from the output of a connect command.
///
/// The token is looked for in the last piece on standard error only. The
/// registration fails with [`RegistrationError::TokenNotFound`] exactly when
/// nothing arrived on standard error, or that last piece is no text or does
/// not hold the marker. A token is used for one callback and has no life of
/// its own.
pub fn correlation_token(chunks: &Vec<LogChunk>) -> (token: Result<String, RegistrationError>)
    ensures
        match token {
            Ok(text) => token_in(chunks@) == Some(text@),
            Err(error) => token_in(chunks@) is None && error == RegistrationError::TokenNotFound,
        },
{
    match last_text(chunks, Streams::StdErr) {
        Ok(Some(line)) => {
            let chars = to_chars(line.as_str());
            let marker = to_chars(TOKEN_MARKER);
            match find_in(chars.as_slice(), marker.as_slice()) {
                Some(at) => {
                    proof {
                        crate::text::lemma_find_from(chars@, marker@, 0);
                    }
                    assert(at + marker.len() <= chars.len());
                    Ok(tail(chars.as_slice(), at + marker.len()))
                },
                None => Err(RegistrationError::TokenNotFound),
            }
        },
        _ => Err(RegistrationError::TokenNotFound),
    }
}

/// What a client reports when the control plane turns its
/// pre-authorization token down: the token is unknown, used up or expired.
pub const INVALID_AUTH_TOKEN_ERROR: &'static str = "backend error: Invalid preauth token\n";

/// Whether the report of a registration with a pre-authorization token says
/// that the control plane turned the token down: it is, letter for letter,
/// [`INVALID_AUTH_TOKEN_ERROR`].
pub fn token_was_rejected(report: &str) -> (rejected: bool)
    ensures
        rejected == (report@ == INVALID_AUTH_TOKEN_ERROR@),
{
    same_text(report, INVALID_AUTH_TOKEN_ERROR)
}

/// Whether the report of a registration with a pre-authorization token says
/// that the client registered: it is empty.
pub fn token_was_accepted(report: &str) -> (accepted: bool)
    ensures
        accepted == (report@.len() == 0),
{
    let empty = same_text(report, "");
    proof {
        reveal_strlit("");
        assert(report@.len() == 0 <==> report@ =~= ""@);
    }
    empty
}

/// What a registration with a pre-authorization token reported: the last
/// piece on standard error, or nothing. A client that registered writes
/// nothing; otherwise this is the complaint of the control plane.
pub open spec fn preauth_report(chunks: Seq<LogChunk>) -> Result<Seq<char>, ExecError> {
    match last_text_on(chunks, Streams::StdErr) {
        Ok(Some(line)) => Ok(line),
        Ok(None) => Ok(Seq::empty()),
        Err(error) => Err(error),
    }
}

/// What the control plane says of a token comes back letter for letter.
/// Where the last piece on standard error is the refusal of a token, the
/// report of the registration is that refusal, line feed included, and it
/// is not the report of a client that registered; where nothing arrived on
/// standard error, the report is empty. Whether the control plane refuses a
/// token, because it is unknown, used up or expired, is for the control
/// plane to say.
pub proof fn lemma_token_refusal_is_reported_verbatim(chunks: Seq<LogChunk>)
    ensures
        messages_on(chunks, Streams::StdErr).len() == 0 ==> preauth_report(chunks) == Ok::<
            Seq<char>,
            ExecError,
        >(Seq::empty()),
        messages_on(chunks, Streams::StdErr).len() > 0 && messages_on(
            chunks,
            Streams::StdErr,
        ).last() == vstd::utf8::encode_utf8(INVALID_AUTH_TOKEN_ERROR@) ==> preauth_report(chunks)
            == Ok::<Seq<char>, ExecError>(INVALID_AUTH_TOKEN_ERROR@),
        INVALID_AUTH_TOKEN_ERROR@.len() > 0,
{
    vstd::utf8::encode_utf8_valid_utf8(INVALID_AUTH_TOKEN_ERROR@);
    vstd::utf8::encode_utf8_decode_utf8(INVALID_AUTH_TOKEN_ERROR@);
    reveal_strlit("backend error: Invalid preauth token\n");
}

/// Reads what a registration with a pre-authorization token reported.
pub fn preauth_result(chunks: &Vec<LogChunk>) -> (report: Result<String, ExecError>)
    ensures
        match report {
            Ok(text) => preauth_report(chunks@) == Ok::<Seq<char>, ExecError>(text@),
            Err(error) => preauth_report(chunks@) == Err::<Seq<char>, ExecError>(error),
        },
{
    match last_text(chunks, Streams::StdErr) {
        Ok(Some(line)) => Ok(line),
        Ok(None) => Ok(String::new()),
        Err(error) => Err(error),
    }
}

/// The command that asks a client for its status as a JSON document.
pub open spec fn status_json_command() -> Seq<Seq<char>> {
    seq!["ztclient"@, "status"@, "--json"@]
}

/// Describes the query for the status of a client as a JSON document. What
/// the command writes goes to [`status_document`].
pub fn ztclient_status_json() -> (command: Vec<String>)
    ensures
        command.deep_view() == status_json_command(),
{
    let mut command: Vec<String> = Vec::new();
    push_text(&mut command, "ztclient");
    push_text(&mut command, "status");
    push_text(&mut command, "--json");
    assert(command.deep_view() =~= status_json_command());
    command
}

/// The status document in the output of a status query: the last piece on
/// standard output.
pub open spec fn status_document_in(chunks: Seq<LogChunk>) -> Result<Seq<char>, ExecError> {
    match last_text_on(chunks, Streams::StdOut) {
        Ok(Some(line)) => Ok(line),
        Ok(None) => Err(ExecError::NoOutput),
        Err(error) => Err(error),
    }
}

/// Picks the status document out of the output of a status query. Fails
/// with [`ExecError::NoOutput`] exactly when nothing arrived on standard
/// output, and with [`ExecError::NotText`] exactly when the last piece
/// there is not well-formed UTF-8.
pub fn status_document(chunks: &Vec<LogChunk>) -> (document: Result<String, ExecError>)
    ensures
        match document {
            Ok(text) => status_document_in(chunks@) == Ok::<Seq<char>, ExecError>(text@),
            Err(error) => status_document_in(chunks@) == Err::<Seq<char>, ExecError>(error),
        },
{
    match last_text(chunks, Streams::StdOut) {
        Ok(Some(line)) => Ok(line),
        Ok(None) => Err(ExecError::NoOutput),
        Err(error) => Err(error),
    }
}

/// The command that asks a client for its status in words.
pub open spec fn status_command() -> Seq<Seq<char>> {
    seq!["ztclient"@, "status"@]
}

/// Describes the query for the status of a client in words. What the command
/// writes goes to [`status_text`].
pub fn ztclient_status() -> (command: Vec<String>)
    ensures
        command.deep_view() == status_command(),
{
    let mut command: Vec<String> = Vec::new();
    push_text(&mut command, "ztclient");
    push_text(&mut command, "status");
    assert(command.deep_view() =~= status_command());
    command
}

/// Reads what a command wrote on the chosen streams as lines of text, in the
/// order of arrival. Fails with [`ExecError::NotText`] exactly when one of
/// the pieces is not well-formed UTF-8.
pub fn output_lines(
    chunks: &Vec<LogChunk>,
    streams: Streams,
) -> (lines: Result<Vec<String>, ExecError>)
    ensures
        match lines {
            Ok(texts) => all_text(messages_on(chunks@, streams)) && texts.deep_view() == texts_of(
                messages_on(chunks@, streams),
            ),
            Err(error) => !all_text(messages_on(chunks@, streams)) && error == ExecError::NotText,
        },
{
    let chosen = messages(chunks, streams);
    decode_all(&chosen)
}

/// Reads the status of a client in words: what arrived on standard output
/// and standard error, in the order of arrival, one piece per line.
pub fn status_text(chunks: &Vec<LogChunk>) -> (status: Result<String, ExecError>)
    ensures
        match status {
            Ok(text) => all_text(messages_on(chunks@, Streams::Output)) && text@ == joined(
                texts_of(messages_on(chunks@, Streams::Output)),
                "\n"@,
            ),
            Err(error) => !all_text(messages_on(chunks@, Streams::Output)) && error
                == ExecError::NotText,
        },
{
    match output_lines(chunks, Streams::Output) {
        Ok(lines) => Ok(join(&lines, "\n")),
        Err(error) => Err(error),
    }
}

/// The command that logs a client out.
pub open spec fn logout_command() -> Seq<Seq<char>> {
    seq!["ztclient"@, "logout"@]
}

/// Describes the logout of a client. What the command writes on standard
/// output and standard error is read with [`output_lines`].
pub fn ztclient_logout() -> (command: Vec<String>)
    ensures
        command.deep_view() == logout_command(),
{
    let mut command: Vec<String> = Vec::new();
    push_text(&mut command, "ztclient");
    push_text(&mut command, "logout");
    assert(command.deep_view() =~= logout_command());
    command
}

/// Reads everything that a command wrote, on whatever stream, as lines of
/// text in the order of arrival. The pieces are decoded and not interpreted
/// any further.
pub fn ztclient_execute(chunks: &Vec<LogChunk>) -> (lines: Result<Vec<String>, ExecError>)
    ensures
        match lines {
            Ok(texts) => all_text(messages_on(chunks@, Streams::All)) && texts.deep_view()
                == texts_of(messages_on(chunks@, Streams::All)),
            Err(error) => !all_text(messages_on(chunks@, Streams::All)) && error
                == ExecError::NotText,
        },
{
    output_lines(chunks, Streams::All)
}

/// The command that makes a client wait until it can reach a peer.
pub open spec fn wait_for_peer_command(peer_name: Seq<char>) -> Seq<Seq<char>> {
    seq!["ztclient"@, "examine"@, "wait-for-peer"@, "--peer"@, peer_name]
}

/// Describes the wait of a client for a peer. The first line that the
/// command writes, see [`first_line`], is the result as a JSON document.
pub fn wait_for_peer(peer_name: &str) -> (command: Vec<String>)
    ensures
        command.deep_view() == wait_for_peer_command(peer_name@),
{
    let mut command: Vec<String> = Vec::new();
    push_text(&mut command, "ztclient");
    push_text(&mut command, "examine");
    push_text(&mut command, "wait-for-peer");
    push_text(&mut command, "--peer");
    push_text(&mut command, peer_name);
    assert(command.deep_view() =~= wait_for_peer_command(peer_name@));
    command
}

/// The command that asks a client for its network map.
pub open spec fn netmap_command() -> Seq<Seq<char>> {
    seq!["ztclient"@, "examine"@, "netmap"@]
}

/// Describes the query for the network map of a client. The first line that
/// the command writes, see [`first_line`], is the map as a JSON document.
pub fn ztclient_netmap() -> (command: Vec<String>)
    ensures
        command.deep_view() == netmap_command(),
{
    let mut command: Vec<String> = Vec::new();
    push_text(&mut command, "ztclient");
    push_text(&mut command, "examine");
    push_text(&mut command, "netmap");
    assert(command.deep_view() =~= netmap_command());
    command
}

/// The first line of what a command wrote. Fails with
/// [`ExecError::NoOutput`] exactly when there is no line.
pub fn first_line(lines: Vec<String>) -> (line: Result<String, ExecError>)
    ensures
        match line {
            Ok(text) => lines@.len() > 0 && text@ == lines@[0]@,
            Err(error) => lines@.len() == 0 && error == ExecError::NoOutput,
        },
{
    let mut lines = lines;
    if lines.len() == 0 {
        Err(ExecError::NoOutput)
    } else {
        Ok(lines.swap_remove(0))
    }
}

/// How long a poller sleeps between two polls, in milliseconds, unless it
/// is told otherwise.
pub const DEFAULT_POLL_INTERVAL_MS: u64 = 500;

/// How many polls a poller makes before it gives up, unless it is told
/// otherwise.
pub const DEFAULT_MAX_ATTEMPTS: u32 = 1000;

/// A client that did not reach the expected state within its budget of
/// polls. It says which client, which state was expected, how many polls
/// were made and what the client reported last.
#[derive(Clone, Debug, PartialEq)]
pub struct ConvergenceTimeoutError {
    pub container_name: String,
    pub target_state: String,
    pub attempts: u32,
    pub last_state: String,
}

/// The mathematical value of a [`ConvergenceTimeoutError`].
pub struct ConvergenceTimeoutErrorView {
    pub container_name: Seq<char>,
    pub target_state: Seq<char>,
    pub attempts: nat,
    pub last_state: Seq<char>,
}

impl View for ConvergenceTimeoutError {
    type V = ConvergenceTimeoutErrorView;

    open spec fn view(&self) -> ConvergenceTimeoutErrorView {
        ConvergenceTimeoutErrorView {
            container_name: self.container_name@,
            target_state: self.target_state@,
            attempts: self.attempts as nat,
            last_state: self.last_state@,
        }
    }
}

/// What is reported of a wait that timed out: the client, the state that
/// was expected, the number of polls made and the state observed last.
pub open spec fn timeout_message(error: ConvergenceTimeoutErrorView) -> Seq<char> {
    error.container_name + ": wait for state "@ + error.target_state + " timed out after "@
        + decimal(error.attempts) + " polls, last state "@ + error.last_state
}

impl ConvergenceTimeoutError {
    /// The failure in words.
    pub fn message(&self) -> (message: String)
        ensures
            message@ == timeout_message(self@),
    {
        let mut message = self.container_name.clone();
        message.append(": wait for state ");
        message.append(self.target_state.as_str());
        message.append(" timed out after ");
        crate::text::push_decimal(&mut message, self.attempts as u128);
        message.append(" polls, last state ");
        message.append(self.last_state.as_str());
        message
    }
}

/// What to do after a poll.
#[derive(Clone, Debug, PartialEq)]
pub enum PollStep {
    /// The client reports the expected state: the wait is over.
    Converged,
    /// The client reports another state: sleep, then poll again.
    Retry { sleep_ms: u64 },
    /// The budget of polls is used up: the scenario cannot go on.
    TimedOut(ConvergenceTimeoutError),
}

/// The mathematical value of a [`PollStep`].
pub enum PollStepView {
    Converged,
    Retry { sleep_ms: u64 },
    TimedOut(ConvergenceTimeoutErrorView),
}

impl View for PollStep {
    type V = PollStepView;

    open spec fn view(&self) -> PollStepView {
        match self {
            PollStep::Converged => PollStepView::Converged,
            PollStep::Retry { sleep_ms } => PollStepView::Retry { sleep_ms: *sleep_ms },
            PollStep::TimedOut(error) => PollStepView::TimedOut(error@),
        }
    }
}

/// The wait of one client for one state. The poller never touches the
/// client: it is told what each poll observed and answers what to do next.
/// The interval between polls is fixed; there is no back-off.
#[derive(Clone, Debug, PartialEq)]
pub struct ConvergencePoller {
    pub container_name: String,
    pub target_state: String,
    pub poll_interval_ms: u64,
    pub max_attempts: u32,
    /// Polls so far that observed another state than the expected one.
    pub attempts: u32,
}

/// The mathematical value of a [`ConvergencePoller`].
pub struct ConvergencePollerView {
    pub container_name: Seq<char>,
    pub target_state: Seq<char>,
    pub poll_interval_ms: u64,
    pub max_attempts: nat,
    pub attempts: nat,
}

impl View for ConvergencePoller {
    type V = ConvergencePollerView;

    open spec fn view(&self) -> ConvergencePollerView {
        ConvergencePollerView {
            container_name: self.container_name@,
            target_state: self.target_state@,
            poll_interval_ms: self.poll_interval_ms,
            max_attempts: self.max_attempts as nat,
            attempts: self.attempts as nat,
        }
    }
}

impl ConvergencePollerView {
    /// The poller after one more poll that observed `observed`.
    pub open spec fn after(self, observed: Seq<char>) -> ConvergencePollerView {
        if observed == self.target_state || self.attempts >= u32::MAX {
            self
        } else {
            ConvergencePollerView { attempts: self.attempts + 1, ..self }
        }
    }

    /// What the poller answers to a poll that observed `observed`.
    pub open spec fn answer(self, observed: Seq<char>) -> PollStepView {
        if observed == self.target_state {
            PollStepView::Converged
        } else if self.attempts + 1 >= self.max_attempts {
            PollStepView::TimedOut(
                ConvergenceTimeoutErrorView {
                    container_name: self.container_name,
                    target_state: self.target_state,
                    attempts: self.after(observed).attempts,
                    last_state: observed,
                },
            )
        } else {
            PollStepView::Retry { sleep_ms: self.poll_interval_ms }
        }
    }

    /// The poller after the first `count` polls of `observations`.
    pub open spec fn after_all(
        self,
        observations: Seq<Seq<char>>,
        count: nat,
    ) -> ConvergencePollerView
        recommends
            count <= observations.len(),
        decreases count,
    {
        if count == 0 {
            self
        } else {
            self.after_all(observations, (count - 1) as nat).after(observations[count - 1])
        }
    }

    /// What the poller answers to poll number `index` of `observations`,
    /// counted from zero, after it was told of all the polls before.
    pub open spec fn answer_at(self, observations: Seq<Seq<char>>, index: nat) -> PollStepView
        recommends
            index < observations.len(),
    {
        self.after_all(observations, index).answer(observations[index as int])
    }
}

impl ConvergencePoller {
    /// A poller for the client in `container_name` that waits for
    /// `target_state`, sleeps `poll_interval_ms` between polls and gives up
    /// after `max_attempts` polls.
    pub fn new(
        container_name: &str,
        target_state: &str,
        poll_interval_ms: u64,
        max_attempts: u32,
    ) -> (poller: ConvergencePoller)
        ensures
            poller@ == (ConvergencePollerView {
                container_name: container_name@,
                target_state: target_state@,
                poll_interval_ms,
                max_attempts: max_attempts as nat,
                attempts: 0,
            }),
    {
        ConvergencePoller {
            container_name: container_name.to_owned(),
            target_state: target_state.to_owned(),
            poll_interval_ms,
            max_attempts,
            attempts: 0,
        }
    }

    /// Takes note of what a poll observed and answers what to do next.
    ///
    /// A status in the expected state ends the wait. Any other status counts
    /// as a failed poll: while the budget allows another poll the answer is
    /// to sleep for the fixed interval and poll again, and with the poll
    /// that uses the budget up the answer is the timeout, with the number of
    /// polls made and the state observed last.
    pub fn observe(&mut self, status: &StatusResult) -> (step: PollStep)
        ensures
            final(self)@ == old(self)@.after(status.backend_state@),
            step@ == old(self)@.answer(status.backend_state@),
    {
        if status.in_state(self.target_state.as_str()) {
            return PollStep::Converged;
        }
        if self.attempts < u32::MAX {
            self.attempts = self.attempts + 1;
        }
        if self.attempts >= self.max_attempts {
            PollStep::TimedOut(
                ConvergenceTimeoutError {
                    container_name: self.container_name.clone(),
                    target_state: self.target_state.clone(),
                    attempts: self.attempts,
                    last_state: status.backend_state.clone(),
                },
            )
        } else {
            PollStep::Retry { sleep_ms: self.poll_interval_ms }
        }
    }
}

/// Describes the wait for `new_state`: a fresh poller with the default
/// interval and the default budget of polls.
pub fn wait_for_state_change(container_name: &str, new_state: &str) -> (poller: ConvergencePoller)
    ensures
        poller@ == (ConvergencePollerView {
            container_name: container_name@,
            target_state: new_state@,
            poll_interval_ms: DEFAULT_POLL_INTERVAL_MS,
            max_attempts: DEFAULT_MAX_ATTEMPTS as nat,
            attempts: 0,
        }),
{
    ConvergencePoller::new(
        container_name,
        new_state,
        DEFAULT_POLL_INTERVAL_MS,
        DEFAULT_MAX_ATTEMPTS,
    )
}

/// While every poll observes another state than the expected one, a fresh
/// poller has counted each of them.
pub proof fn lemma_failed_polls_are_counted(
    poller: ConvergencePollerView,
    observations: Seq<Seq<char>>,
    count: nat,
)
    requires
        poller.attempts == 0,
        count <= observations.len(),
        count <= u32::MAX,
        forall|i: int| 0 <= i < count ==> observations[i] != poller.target_state,
    ensures
        poller.after_all(observations, count) == (ConvergencePollerView {
            attempts: count,
            ..poller
        }),
    decreases count,
{
    if count > 0 {
        lemma_failed_polls_are_counted(poller, observations, (count - 1) as nat);
    }
}

/// A client that never reaches the expected state times the wait out with
/// exactly the poll that uses the budget up: every earlier poll is answered
/// with a retry after the fixed interval, and poll number `max_attempts` is
/// answered with the timeout, which reports `max_attempts` polls and the
/// state observed last.
pub proof fn lemma_timeout_after_exactly_max_attempts(
    poller: ConvergencePollerView,
    observations: Seq<Seq<char>>,
)
    requires
        poller.attempts == 0,
        1 <= poller.max_attempts <= u32::MAX,
        observations.len() >= poller.max_attempts,
        forall|i: int| 0 <= i < poller.max_attempts ==> observations[i] != poller.target_state,
    ensures
        forall|k: nat|
            k + 1 < poller.max_attempts ==> #[trigger] poller.answer_at(observations, k) == (
            PollStepView::Retry { sleep_ms: poller.poll_interval_ms }),
        poller.answer_at(observations, (poller.max_attempts - 1) as nat) == PollStepView::TimedOut(
            ConvergenceTimeoutErrorView {
                container_name: poller.container_name,
                target_state: poller.target_state,
                attempts: poller.max_attempts,
                last_state: observations[poller.max_attempts - 1],
            },
        ),
{
    assert forall|k: nat| k + 1 < poller.max_attempts implies #[trigger] poller.answer_at(
        observations,
        k,
    ) == (PollStepView::Retry { sleep_ms: poller.poll_interval_ms }) by {
        lemma_failed_polls_are_counted(poller, observations, k);
    }
    lemma_failed_polls_are_counted(poller, observations, (poller.max_attempts - 1) as nat);
}

/// A client that reaches the expected state within the budget ends the wait
/// with the first poll that observes it, and every poll before that one is
/// answered with a retry.
pub proof fn lemma_converges_at_first_match(
    poller: ConvergencePollerView,
    observations: Seq<Seq<char>>,
    index: nat,
)
    requires
        poller.attempts == 0,
        index < observations.len(),
        index < poller.max_attempts <= u32::MAX,
        observations[index as int] == poller.target_state,
        forall|i: int| 0 <= i < index ==> observations[i] != poller.target_state,
    ensures
        forall|k: nat|
            k < index ==> #[trigger] poller.answer_at(observations, k) == (PollStepView::Retry {
                sleep_ms: poller.poll_interval_ms,
            }),
        poller.answer_at(observations, index) == PollStepView::Converged,
{
    assert forall|k: nat| k < index implies #[trigger] poller.answer_at(observations, k) == (
    PollStepView::Retry { sleep_ms: poller.poll_interval_ms }) by {
        lemma_failed_polls_are_counted(poller, observations, k);
    }
    lemma_failed_polls_are_counted(poller, observations, index);
}

/// What the container of a client is created with.
#[derive(Clone, Debug, PartialEq)]
pub struct ContainerSpec {
    pub name: String,
    pub image: String,
    pub hostname: String,
    pub labels: Vec<(&'static str, &'static str)>,
    pub env: Vec<String>,
    pub cmd: Vec<String>,
    pub cap_add: Vec<String>,
}

/// The mathematical value of a [`ContainerSpec`].
pub struct ContainerSpecView {
    pub name: Seq<char>,
    pub image: Seq<char>,
    pub hostname: Seq<char>,
    pub labels: Seq<(Seq<char>, Seq<char>)>,
    pub env: Seq<Seq<char>>,
    pub cmd: Seq<Seq<char>>,
    pub cap_add: Seq<Seq<char>>,
}

impl View for ContainerSpec {
    type V = ContainerSpecView;

    open spec fn view(&self) -> ContainerSpecView {
        ContainerSpecView {
            name: self.name@,
            image: self.image@,
            hostname: self.hostname@,
            labels: self.labels.deep_view(),
            env: self.env.deep_view(),
            cmd: self.cmd.deep_view(),
            cap_add: self.cap_add.deep_view(),
        }
    }
}

/// One step of provisioning a client, for the container runtime to carry
/// out.
#[derive(Clone, Debug, PartialEq)]
pub enum ProvisionStep {
    /// Remove a container of the same name that an earlier run left behind.
    /// A failure of this step is ignored.
    Remove(Removal),
    /// Create the container.
    Create(ContainerSpec),
    /// Attach to its output and its logs.
    Attach { container: String, detach_keys: String },
    /// Connect it to the network that all containers share.
    ConnectNetwork { network: String, container: String },
    /// Start it.
    Start { container: String },
}

/// The mathematical value of a [`ProvisionStep`].
pub enum ProvisionStepView {
    Remove(RemovalView),
    Create(ContainerSpecView),
    Attach { container: Seq<char>, detach_keys: Seq<char> },
    ConnectNetwork { network: Seq<char>, container: Seq<char> },
    Start { container: Seq<char> },
}

impl View for ProvisionStep {
    type V = ProvisionStepView;

    open spec fn view(&self) -> ProvisionStepView {
        match self {
            ProvisionStep::Remove(removal) => ProvisionStepView::Remove(removal@),
            ProvisionStep::Create(spec) => ProvisionStepView::Create(spec@),
            ProvisionStep::Attach { container, detach_keys } => ProvisionStepView::Attach {
                container: container@,
                detach_keys: detach_keys@,
            },
            ProvisionStep::ConnectNetwork { network, container } => {
                ProvisionStepView::ConnectNetwork { network: network@, container: container@ }
            },
            ProvisionStep::Start { container } => ProvisionStepView::Start {
                container: container@,
            },
        }
    }
}

impl DeepView for ProvisionStep {
    type V = ProvisionStepView;

    open spec fn deep_view(&self) -> ProvisionStepView {
        self@
    }
}

/// The container of a client: the image of the environment, the name of the
/// container as hostname, the labels of the harness, the daemon in
/// userspace networking with its state directory, and the two capabilities
/// that raw networking needs.
pub open spec fn client_container(config: Config, container_name: Seq<char>) -> ContainerSpecView {
    ContainerSpecView {
        name: container_name,
        image: config.ztclient_image@,
        hostname: container_name,
        labels: seq![(PROJECT_LABEL@, PROJECT_NAME@)],
        env: seq!["ZT_DEBUG_REGISTER=true"@, "ZT_DEBUG_MAP=true"@, "NETTY_PORT=80"@],
        cmd: seq!["--tun"@, "userspace-networking"@, "--statedir"@, "/var/lib/ztclientd"@],
        cap_add: seq!["NET_ADMIN"@, "NET_RAW"@],
    }
}

/// The steps that bring a client up, in the order in which they are carried
/// out: what is left of an earlier container of that name is removed, unless
/// containers are kept for inspection; then the container is created,
/// attached to, connected to the shared network and started.
pub open spec fn provision_plan(
    config: Config,
    container_name: Seq<char>,
    debug_containers: bool,
) -> Seq<ProvisionStepView> {
    let bring_up = seq![
        ProvisionStepView::Create(client_container(config, container_name)),
        ProvisionStepView::Attach { container: container_name, detach_keys: "ctrl-c"@ },
        ProvisionStepView::ConnectNetwork {
            network: config.docker_network_name@,
            container: container_name,
        },
        ProvisionStepView::Start { container: container_name },
    ];
    match removal_of(container_name, debug_containers) {
        Some(removal) => seq![ProvisionStepView::Remove(removal)] + bring_up,
        None => bring_up,
    }
}

fn client_spec(config: &Config, container_name: &str) -> (spec: ContainerSpec)
    ensures
        spec@ == client_container(*config, container_name@),
{
    let mut env: Vec<String> = Vec::new();
    push_text(&mut env, "ZT_DEBUG_REGISTER=true");
    push_text(&mut env, "ZT_DEBUG_MAP=true");
    push_text(&mut env, "NETTY_PORT=80");
    let mut cmd: Vec<String> = Vec::new();
    push_text(&mut cmd, "--tun");
    push_text(&mut cmd, "userspace-networking");
    push_text(&mut cmd, "--statedir");
    push_text(&mut cmd, "/var/lib/ztclientd");
    let mut cap_add: Vec<String> = Vec::new();
    push_text(&mut cap_add, "NET_ADMIN");
    push_text(&mut cap_add, "NET_RAW");
    let spec = ContainerSpec {
        name: container_name.to_owned(),
        image: config.ztclient_image.clone(),
        hostname: container_name.to_owned(),
        labels: get_labels(),
        env,
        cmd,
        cap_add,
    };
    proof {
        let want = client_container(*config, container_name@);
        assert(spec@.labels =~= want.labels);
        assert(spec@.env =~= want.env);
        assert(spec@.cmd =~= want.cmd);
        assert(spec@.cap_add =~= want.cap_add);
    }
    spec
}

/// Describes how to bring a client up in a container of the given name.
/// The steps are carried out in order and none is retried: with the first
/// step that fails, see [`provision_failure`], the provisioning is over.
pub fn start_ztclientd(
    config: &Config,
    container_name: &str,
    debug_containers: bool,
) -> (plan: Vec<ProvisionStep>)
    ensures
        plan.deep_view() == provision_plan(*config, container_name@, debug_containers),
{
    let mut plan: Vec<ProvisionStep> = Vec::new();
    match remove_container(container_name, debug_containers) {
        Some(removal) => {
            plan.push(ProvisionStep::Remove(removal));
        },
        None => {},
    }
    plan.push(ProvisionStep::Create(client_spec(config, container_name)));
    plan.push(
        ProvisionStep::Attach {
            container: container_name.to_owned(),
            detach_keys: "ctrl-c".to_owned(),
        },
    );
    plan.push(
        ProvisionStep::ConnectNetwork {
            network: config.docker_network_name.clone(),
            container: container_name.to_owned(),
        },
    );
    plan.push(ProvisionStep::Start { container: container_name.to_owned() });
    assert(plan.deep_view() =~= provision_plan(*config, container_name@, debug_containers));
    plan
}

/// The step of provisioning that failed.
#[derive(Clone, Copy, Debug, PartialEq, Eq, Structural)]
pub enum ProvisionStage {
    Create,
    Attach,
    ConnectNetwork,
    Start,
}

/// A client that could not be brought up: the step that the container
/// runtime refused.
#[derive(Clone, Copy, Debug, PartialEq, Eq, Structural)]
pub struct ProvisionError {
    pub stage: ProvisionStage,
}

impl ProvisionStage {
    /// The name of the step in reports.
    pub open spec fn name(self) -> Seq<char> {
        match self {
            ProvisionStage::Create => "create container"@,
            ProvisionStage::Attach => "attach to container"@,
            ProvisionStage::ConnectNetwork => "connect container to network"@,
            ProvisionStage::Start => "start container"@,
        }
    }

    /// The name of the step in reports.
    pub fn describe(self) -> (name: &'static str)
        ensures
            name@ == self.name(),
    {
        match self {
            ProvisionStage::Create => "create container",
            ProvisionStage::Attach => "attach to container",
            ProvisionStage::ConnectNetwork => "connect container to network",
            ProvisionStage::Start => "start container",
        }
    }
}

/// What the failure of a step means for the provisioning.
pub open spec fn failure_of(step: ProvisionStepView) -> Option<ProvisionError> {
    match step {
        ProvisionStepView::Remove(_) => None,
        ProvisionStepView::Create(_) => Some(ProvisionError { stage: ProvisionStage::Create }),
        ProvisionStepView::Attach { .. } => Some(ProvisionError { stage: ProvisionStage::Attach }),
        ProvisionStepView::ConnectNetwork { .. } => Some(
            ProvisionError { stage: ProvisionStage::ConnectNetwork },
        ),
        ProvisionStepView::Start { .. } => Some(ProvisionError { stage: ProvisionStage::Start }),
    }
}

/// Judges the failure of a step. A container that could not be removed is
/// no reason to stop; the failure of any other step ends the provisioning
/// with the error that names the step.
pub fn provision_failure(step: &ProvisionStep) -> (error: Option<ProvisionError>)
    ensures
        error == failure_of(step@),
{
    match step {
        ProvisionStep::Remove(_) => None,
        ProvisionStep::Create(_) => Some(ProvisionError { stage: ProvisionStage::Create }),
        ProvisionStep::Attach { .. } => Some(ProvisionError { stage: ProvisionStage::Attach }),
        ProvisionStep::ConnectNetwork { .. } => Some(
            ProvisionError { stage: ProvisionStage::ConnectNetwork },
        ),
        ProvisionStep::Start { .. } => Some(ProvisionError { stage: ProvisionStage::Start }),
    }
}

/// Describes the enrollment of a client through the callback of the
/// control plane, under the name of its container.
pub fn create_and_register_client(
    container_name: &str,
    namespace_name: &str,
    user_info_id: usize,
) -> (flow: ClientEnrollment)
    requires
        user_info_id <= MAX_USER_ID,
    ensures
        flow.well_formed(),
        flow.stage is Created,
        flow.container_name@ == container_name@,
        flow.enrollment matches Enrollment::Callback { mode, namespace, user_info_id: id }
            && mode is Hostname && namespace@ == namespace_name@ && id == user_info_id,
{
    ClientEnrollment::by_callback(
        container_name,
        RegistrationMode::Hostname,
        namespace_name,
        user_info_id,
    )
}

/// Describes the enrollment of a client with a pre-authorization token
/// against the control plane at [`NGINX_NP_URL`].
pub fn create_client_with_preauth_token(
    container_name: &str,
    preauth_token: &str,
) -> (flow: ClientEnrollment)
    ensures
        flow.well_formed(),
        flow.stage is Created,
        flow.container_name@ == container_name@,
        flow.enrollment matches Enrollment::Token { preauth_token: token, np_url }
            && token@ == preauth_token@ && np_url@ == NGINX_NP_URL@,
{
    ClientEnrollment::by_token(container_name, preauth_token, NGINX_NP_URL)
}

/// How many synthetic users a fleet of clients is spread over.
pub const FLEET_USERS: usize = 9;

/// The name of client `number` of a fleet: the prefix and the number in at
/// least three digits.
pub open spec fn client_name(prefix: Seq<char>, number: nat) -> Seq<char> {
    prefix + zero_padded(decimal(number), 3)
}

/// The index of the synthetic user of client `number` of a fleet.
pub open spec fn fleet_user(number: nat) -> nat {
    number % (FLEET_USERS as nat)
}

/// No two clients of a fleet share a name: under one prefix, different
/// numbers give different names. The name is what every later step finds
/// the client by.
pub proof fn lemma_fleet_names_are_distinct(prefix: Seq<char>, first: nat, second: nat)
    requires
        first != second,
    ensures
        client_name(prefix, first) != client_name(prefix, second),
{
    let left = zero_padded(decimal(first), 3);
    let right = zero_padded(decimal(second), 3);
    if client_name(prefix, first) == client_name(prefix, second) {
        assert(left =~= (prefix + left).skip(prefix.len() as int));
        assert(right =~= (prefix + right).skip(prefix.len() as int));
        crate::text::lemma_zero_padded_is_injective(first, second, 3);
    }
}

/// Names client `number` of a fleet.
pub fn name_client(prefix: &str, number: u64) -> (name: String)
    ensures
        name@ == client_name(prefix@, number as nat),
{
    let mut name = prefix.to_owned();
    push_zero_padded(&mut name, number as u128, 3);
    name
}

/// Whether `flow` is the untouched enrollment of client `number` of the
/// fleet with the given prefix in `namespace_name`.
pub open spec fn is_fleet_member(
    flow: ClientEnrollment,
    prefix: Seq<char>,
    number: nat,
    namespace_name: Seq<char>,
) -> bool {
    &&& flow.well_formed()
    &&& flow.stage is Created
    &&& flow.container_name@ == client_name(prefix, number)
    &&& flow.enrollment matches Enrollment::Callback { mode, namespace, user_info_id }
    &&& mode is Hostname
    &&& namespace@ == namespace_name
    &&& user_info_id == fleet_user(number)
}

/// Describes a fleet of `num_clients` clients in one namespace: client
/// number `n`, counted from one, is named by the prefix and `n` and belongs
/// to synthetic user `n % 9`. The namespace has to exist before the first
/// enrollment begins. Once a client runs, [`registered_as`] checks that it
/// got its user.
pub fn create_running_clients(
    hostname_prefix: &str,
    num_clients: usize,
    namespace_name: &str,
) -> (fleet: Vec<ClientEnrollment>)
    ensures
        fleet@.len() == num_clients,
        forall|i: int|
            0 <= i < num_clients ==> is_fleet_member(
                #[trigger] fleet@[i],
                hostname_prefix@,
                (i + 1) as nat,
                namespace_name@,
            ),
{
    let mut fleet: Vec<ClientEnrollment> = Vec::new();
    let mut i: usize = 0;
    while i < num_clients
        invariant
            i <= num_clients,
            fleet@.len() == i,
            forall|k: int|
                0 <= k < i ==> is_fleet_member(
                    #[trigger] fleet@[k],
                    hostname_prefix@,
                    (k + 1) as nat,
                    namespace_name@,
                ),
        decreases num_clients - i,
    {
        let number: usize = i + 1;
        let name = name_client(hostname_prefix, number as u64);
        let flow = ClientEnrollment::by_callback(
            name.as_str(),
            RegistrationMode::Hostname,
            namespace_name,
            number % FLEET_USERS,
        );
        fleet.push(flow);
        i += 1;
    }
    fleet
}

/// Whether a status report names `user` as the user of the client: the
/// user table holds an entry for the user number of the client, and its
/// first and last name are those of `user`.
pub open spec fn reports_user(status: StatusResult, user: UserInfoView) -> bool {
    &&& status.user is Some
    &&& entry_index(status.user->0@, status.assigned_user_key()) matches Some(at)
    &&& status.user->0@[at].1.first_name@ == user.first_name
    &&& status.user->0@[at].1.last_name@ == user.last_name
}

/// Whether a status report names the synthetic user with index
/// `user_info_id` as the user of the client.
pub fn registered_as(status: &StatusResult, user_info_id: usize) -> (yes: bool)
    requires
        user_info_id <= MAX_USER_ID,
    ensures
        yes == reports_user(*status, synthetic_user(user_info_id as nat)),
{
    let expected = get_user(user_info_id);
    match status.assigned_user() {
        Some(user) => user.matches(&expected),
        None => false,
    }
}

/// A client is checked against the user that was sent for it. The callback
/// that registers a client for the index `user_info_id` carries the
/// synthetic user of that index, and a status report passes the check for
/// that index exactly when it names the first and the last name of the user
/// that the callback carried. What the control plane makes of the callback
/// in between is not part of this.
pub proof fn lemma_checked_user_is_the_registered_one(
    status: StatusResult,
    correlation_id: Seq<char>,
    api_key: Seq<char>,
    namespace_name: Seq<char>,
    ninja_panda_api_url: Seq<char>,
    user_info_id: nat,
)
    requires
        user_info_id <= MAX_USER_ID,
    ensures
        callback_request(
            correlation_id,
            api_key,
            namespace_name,
            ninja_panda_api_url,
            user_info_id,
        ).payload matches PayloadView::Callback(body) && body.namespace == namespace_name && (
        reports_user(status, body.user_info) <==> reports_user(
            status,
            synthetic_user(user_info_id),
        )),
{
}

} // verus!
