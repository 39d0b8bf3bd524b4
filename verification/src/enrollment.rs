//! The enrollment of one client, from an empty container name to a machine
//! of the control plane, as a state machine.
//!
//! An enrollment alternates between work that only the outside world can do
//! (bring a container up, run a command in it, send a request) and decisions
//! about what that work brought. The decisions are made here: the owner of
//! the connections carries out the [`Action`] it is given and reports what
//! happened as an [`Event`]. Actions are issued one at a time and in a fixed
//! order, and nothing is retried.

use crate::api::{describe_rejection, rejection_message, ApiRequest, Operation};
use crate::containers::{ExecError, LogChunk};
use crate::models::ExecuteCallbackResponse;
use crate::users::MAX_USER_ID;
use crate::ztclient::{
    begin_registration, correlation_token, preauth_command, preauth_report, preauth_result,
    preauth_token_registration, provision_plan, registration_command, start_ztclientd, token_in,
    ProvisionError, ProvisionStep, RegistrationError, RegistrationMode,
};
use crate::{
    callback_request, execute_callback, registered_machine, Config, ExecuteCallbackRequest,
    MachineIdentity, RuntimeInformation,
};
use vstd::prelude::*;

verus! {

/// How a client gets its identity.
#[derive(Clone, Debug, PartialEq)]
pub enum Enrollment {
    /// The client asks to be registered and writes a correlation token; the
    /// harness hands the token to the control plane with the namespace and
    /// the synthetic user of the client.
    Callback { mode: RegistrationMode, namespace: String, user_info_id: usize },
    /// The client registers itself with a pre-authorization token against
    /// the control plane at `np_url`.
    Token { preauth_token: String, np_url: String },
}

/// Where an enrollment stands.
#[derive(Clone, Debug, PartialEq)]
pub enum Stage {
    /// Nothing was asked for yet.
    Created,
    /// The container is being brought up.
    Provisioning,
    /// The client was told to connect.
    Connecting,
    /// The callback with the given correlation token was sent.
    Calling { token: String },
    /// The enrollment reached its end.
    Done,
    /// The enrollment failed.
    Failed,
}

/// What the outside world reports.
#[derive(Clone, Debug, PartialEq)]
pub enum Event {
    /// The enrollment is to begin.
    Begin,
    /// The container was brought up, or the given step failed.
    Provisioned(Option<ProvisionError>),
    /// The command ran, and this is what it wrote.
    Output(Vec<LogChunk>),
    /// The container runtime could not run the command.
    NotRun,
    /// The control plane answered the callback.
    Answer { status: u16, response: Option<ExecuteCallbackResponse> },
    /// The callback did not reach the control plane, or no answer came
    /// back.
    NoAnswer,
}

/// Why an enrollment failed.
#[derive(Clone, Copy, Debug, PartialEq, Eq, Structural)]
pub enum EnrollmentError {
    Provision(ProvisionError),
    Exec(ExecError),
    Registration(RegistrationError),
    /// The callback did not reach the control plane.
    Unreachable,
    /// An event arrived that does not answer the action that was issued.
    OutOfOrder,
}

/// The operation that failed and how, in words.
pub open spec fn failure_in_words(error: EnrollmentError) -> Seq<char> {
    match error {
        EnrollmentError::Provision(failure) => "provision: could not "@ + failure.stage.name(),
        EnrollmentError::Exec(failure) => "execute: "@ + failure.name(),
        EnrollmentError::Registration(RegistrationError::TokenNotFound) => {
            "begin registration: the client wrote no correlation token"@
        },
        EnrollmentError::Registration(RegistrationError::CallbackRejected { status }) => {
            rejection_message(Operation::RegisterMachine, status)
        },
        EnrollmentError::Unreachable => "register machine: no answer from the control plane"@,
        EnrollmentError::OutOfOrder => "an event arrived out of order"@,
    }
}

impl EnrollmentError {
    /// The operation that failed and how, in words.
    pub fn message(&self) -> (message: String)
        ensures
            message@ == failure_in_words(*self),
    {
        match self {
            EnrollmentError::Provision(failure) => {
                let mut message = "provision: could not ".to_owned();
                message.append(failure.stage.describe());
                message
            },
            EnrollmentError::Exec(failure) => {
                let mut message = "execute: ".to_owned();
                message.append(failure.describe());
                message
            },
            EnrollmentError::Registration(RegistrationError::TokenNotFound) => {
                "begin registration: the client wrote no correlation token".to_owned()
            },
            EnrollmentError::Registration(RegistrationError::CallbackRejected { status }) => {
                describe_rejection(Operation::RegisterMachine, *status)
            },
            EnrollmentError::Unreachable => {
                "register machine: no answer from the control plane".to_owned()
            },
            EnrollmentError::OutOfOrder => "an event arrived out of order".to_owned(),
        }
    }
}

/// What the outside world has to do next, or how the enrollment ended.
#[derive(Clone, Debug, PartialEq)]
pub enum Action {
    /// Carry out the steps that bring the container up.
    Provision(Vec<ProvisionStep>),
    /// Run the command inside the container and capture what it writes.
    Run(Vec<String>),
    /// Send the request to the control plane.
    Send(ApiRequest),
    /// The client is registered under this identity. Nothing is left to do.
    Registered(MachineIdentity),
    /// The client ran its registration with a pre-authorization token and
    /// reported this; an empty report means that it registered. Nothing is
    /// left to do.
    Joined(String),
    /// The enrollment failed. Nothing is left to do.
    Failed(EnrollmentError),
}

/// A stage without what it carries.
#[derive(Clone, Copy, Debug, PartialEq, Eq, Structural)]
pub enum StageKind {
    Created,
    Provisioning,
    Connecting,
    Calling,
    Done,
    Failed,
}

/// An event, reduced to what it means for the course of an enrollment.
#[derive(Clone, Copy, Debug, PartialEq, Eq, Structural)]
pub enum Report {
    /// The enrollment is to begin.
    Begin,
    /// The container is up.
    BroughtUp,
    /// A step of provisioning failed.
    NotBroughtUp,
    /// The command wrote what the enrollment needs: the correlation token,
    /// or a report of the registration with a pre-authorization token.
    Usable,
    /// The command did not write what the enrollment needs, or did not run.
    Unusable,
    /// The control plane answered the callback with 200 and a machine.
    Accepted,
    /// The control plane answered the callback with anything else, or not
    /// at all.
    Rejected,
}

impl Stage {
    /// The stage without what it carries.
    pub open spec fn kind(self) -> StageKind {
        match self {
            Stage::Created => StageKind::Created,
            Stage::Provisioning => StageKind::Provisioning,
            Stage::Connecting => StageKind::Connecting,
            Stage::Calling { .. } => StageKind::Calling,
            Stage::Done => StageKind::Done,
            Stage::Failed => StageKind::Failed,
        }
    }
}

/// What an event means for the course of an enrollment.
pub open spec fn report_of(event: Event, enrollment: Enrollment) -> Report {
    match event {
        Event::Begin => Report::Begin,
        Event::Provisioned(None) => Report::BroughtUp,
        Event::Provisioned(Some(_)) => Report::NotBroughtUp,
        Event::Output(chunks) => match enrollment {
            Enrollment::Callback { .. } => if token_in(chunks@) is Some {
                Report::Usable
            } else {
                Report::Unusable
            },
            Enrollment::Token { .. } => if preauth_report(chunks@) is Ok {
                Report::Usable
            } else {
                Report::Unusable
            },
        },
        Event::NotRun => Report::Unusable,
        Event::Answer { status, response } => if status == 200 && response is Some {
            Report::Accepted
        } else {
            Report::Rejected
        },
        Event::NoAnswer => Report::Rejected,
    }
}

/// The stage that follows `stage` on `report`. Only the report that answers
/// the action of the stage leads on; everything else leads to failure, also
/// from the end.
pub open spec fn advance(stage: StageKind, by_callback: bool, report: Report) -> StageKind {
    match (stage, report) {
        (StageKind::Created, Report::Begin) => StageKind::Provisioning,
        (StageKind::Provisioning, Report::BroughtUp) => StageKind::Connecting,
        (StageKind::Connecting, Report::Usable) => if by_callback {
            StageKind::Calling
        } else {
            StageKind::Done
        },
        (StageKind::Calling, Report::Accepted) => StageKind::Done,
        _ => StageKind::Failed,
    }
}

/// The stage of a fresh enrollment after the given reports, in order.
pub open spec fn stage_after(by_callback: bool, reports: Seq<Report>) -> StageKind
    decreases reports.len(),
{
    if reports.len() == 0 {
        StageKind::Created
    } else {
        advance(stage_after(by_callback, reports.drop_last()), by_callback, reports.last())
    }
}

/// The one course of events that completes an enrollment.
pub open spec fn successful_course(by_callback: bool) -> Seq<Report> {
    if by_callback {
        seq![Report::Begin, Report::BroughtUp, Report::Usable, Report::Accepted]
    } else {
        seq![Report::Begin, Report::BroughtUp, Report::Usable]
    }
}

/// How far a stage is from the start, counted in actions.
pub open spec fn progress(stage: StageKind) -> nat {
    match stage {
        StageKind::Created => 0,
        StageKind::Provisioning => 1,
        StageKind::Connecting => 2,
        StageKind::Calling => 3,
        StageKind::Done => 4,
        StageKind::Failed => 5,
    }
}

/// An enrollment that has not ended has seen exactly the start of the
/// successful course.
pub proof fn lemma_course_so_far(by_callback: bool, reports: Seq<Report>)
    requires
        stage_after(by_callback, reports) != StageKind::Failed,
        stage_after(by_callback, reports) != StageKind::Done,
    ensures
        reports.len() == progress(stage_after(by_callback, reports)),
        reports.len() <= successful_course(by_callback).len(),
        reports == successful_course(by_callback).take(reports.len() as int),
    decreases reports.len(),
{
    if reports.len() > 0 {
        let before = reports.drop_last();
        lemma_course_so_far(by_callback, before);
        assert(reports == before.push(reports.last()));
    }
}

/// An enrollment is complete only after the one successful course: the
/// container was brought up, then the client was told to connect and wrote
/// what was needed, then, for an enrollment through the callback, the
/// control plane accepted the callback. No other order of events, and no
/// longer or shorter one, completes it.
pub proof fn lemma_completion_has_one_course(by_callback: bool, reports: Seq<Report>)
    ensures
        stage_after(by_callback, reports) == StageKind::Done <==> reports == successful_course(
            by_callback,
        ),
{
    let course = successful_course(by_callback);
    if stage_after(by_callback, reports) == StageKind::Done {
        let before = reports.drop_last();
        lemma_course_so_far(by_callback, before);
        assert(reports == before.push(reports.last()));
        assert(reports =~= course);
    }
    if reports == course {
        lemma_stage_after_course(by_callback);
    }
}

/// The successful course leads to the end.
proof fn lemma_stage_after_course(by_callback: bool)
    ensures
        stage_after(by_callback, successful_course(by_callback)) == StageKind::Done,
{
    let first = seq![Report::Begin];
    let second = seq![Report::Begin, Report::BroughtUp];
    let third = seq![Report::Begin, Report::BroughtUp, Report::Usable];
    let fourth = seq![Report::Begin, Report::BroughtUp, Report::Usable, Report::Accepted];
    assert(first.drop_last() =~= Seq::<Report>::empty());
    assert(stage_after(by_callback, first.drop_last()) == StageKind::Created);
    assert(stage_after(by_callback, first) == StageKind::Provisioning);
    assert(second.drop_last() =~= first);
    assert(stage_after(by_callback, second) == StageKind::Connecting);
    assert(third.drop_last() =~= second);
    assert(fourth.drop_last() =~= third);
    if by_callback {
        assert(stage_after(by_callback, third) == StageKind::Calling);
        assert(stage_after(by_callback, fourth) == StageKind::Done);
    } else {
        assert(stage_after(by_callback, third) == StageKind::Done);
    }
}

/// The enrollment of the client in the container `container_name`.
#[derive(Clone, Debug, PartialEq)]
pub struct ClientEnrollment {
    pub container_name: String,
    pub enrollment: Enrollment,
    pub stage: Stage,
}

impl ClientEnrollment {
    /// Whether the enrollment can be carried out: a synthetic user exists
    /// for the index it names, and only an enrollment through the callback
    /// waits for an answer to one.
    pub open spec fn well_formed(&self) -> bool {
        match self.enrollment {
            Enrollment::Callback { user_info_id, .. } => user_info_id <= MAX_USER_ID,
            Enrollment::Token { .. } => !(self.stage is Calling),
        }
    }

    /// Whether the enrollment reached an end, good or bad.
    pub open spec fn is_over(&self) -> bool {
        self.stage is Done || self.stage is Failed
    }

    /// The command that tells the client to connect.
    pub open spec fn connect_command(&self, old_mode: Seq<char>) -> Seq<Seq<char>> {
        match self.enrollment {
            Enrollment::Callback { mode, .. } => registration_command(
                mode,
                self.container_name@,
                old_mode,
            ),
            Enrollment::Token { preauth_token, np_url } => preauth_command(
                self.container_name@,
                preauth_token@,
                np_url@,
                old_mode,
            ),
        }
    }

    /// An enrollment that registers the client through the callback of the
    /// control plane.
    pub fn by_callback(
        container_name: &str,
        mode: RegistrationMode,
        namespace_name: &str,
        user_info_id: usize,
    ) -> (flow: ClientEnrollment)
        requires
            user_info_id <= MAX_USER_ID,
        ensures
            flow.well_formed(),
            flow.container_name@ == container_name@,
            flow.stage is Created,
            flow.enrollment matches Enrollment::Callback { mode: m, namespace, user_info_id: id }
                && m == mode && namespace@ == namespace_name@ && id == user_info_id,
    {
        ClientEnrollment {
            container_name: container_name.to_owned(),
            enrollment: Enrollment::Callback {
                mode,
                namespace: namespace_name.to_owned(),
                user_info_id,
            },
            stage: Stage::Created,
        }
    }

    /// An enrollment that registers the client with a pre-authorization
    /// token.
    pub fn by_token(
        container_name: &str,
        preauth_token: &str,
        np_url: &str,
    ) -> (flow: ClientEnrollment)
        ensures
            flow.well_formed(),
            flow.container_name@ == container_name@,
            flow.stage is Created,
            flow.enrollment matches Enrollment::Token { preauth_token: token, np_url: url }
                && token@ == preauth_token@ && url@ == np_url@,
    {
        ClientEnrollment {
            container_name: container_name.to_owned(),
            enrollment: Enrollment::Token {
                preauth_token: preauth_token.to_owned(),
                np_url: np_url.to_owned(),
            },
            stage: Stage::Created,
        }
    }

    /// What is reported of a failure of this enrollment: the name of the
    /// client, the operation that failed and how.
    pub fn failure_message(&self, error: EnrollmentError) -> (message: String)
        ensures
            message@ == self.container_name@ + ": "@ + failure_in_words(error),
    {
        let mut message = self.container_name.clone();
        message.append(": ");
        message.append(error.message().as_str());
        message
    }

    fn fail(&mut self, error: EnrollmentError) -> (action: Action)
        ensures
            final(self).stage is Failed,
            final(self).container_name == old(self).container_name,
            final(self).enrollment == old(self).enrollment,
            action == Action::Failed(error),
    {
        self.stage = Stage::Failed;
        Action::Failed(error)
    }

    /// Takes note of an event and answers what to do next.
    ///
    /// The actions come in one order only: bring the container up, tell the
    /// client to connect, and, for an enrollment through the callback, send
    /// the callback with the token that the client wrote. Each action is
    /// issued in answer to the event that reports the success of the one
    /// before. A failure that an event reports ends the enrollment with that
    /// failure, and so does an event that does not answer the action that
    /// was issued last; an enrollment that is over answers every event with
    /// [`EnrollmentError::OutOfOrder`]. The error tells the operation that
    /// failed, and the enrollment itself names the client.
    pub fn step(
        &mut self,
        event: Event,
        config: &Config,
        runtime_info: &RuntimeInformation,
        old_mode: &str,
        debug_containers: bool,
    ) -> (action: Action)
        requires
            old(self).well_formed(),
        ensures
            final(self).well_formed(),
            final(self).container_name == old(self).container_name,
            final(self).enrollment == old(self).enrollment,
            final(self).stage.kind() == advance(
                old(self).stage.kind(),
                old(self).enrollment is Callback,
                report_of(event, old(self).enrollment),
            ),
            match (old(self).stage, event) {
                (Stage::Created, Event::Begin) => {
                    &&& final(self).stage is Provisioning
                    &&& action matches Action::Provision(plan)
                    &&& plan.deep_view() == provision_plan(
                        *config,
                        old(self).container_name@,
                        debug_containers,
                    )
                },
                (Stage::Provisioning, Event::Provisioned(None)) => {
                    &&& final(self).stage is Connecting
                    &&& action matches Action::Run(command)
                    &&& command.deep_view() == old(self).connect_command(old_mode@)
                },
                (Stage::Provisioning, Event::Provisioned(Some(error))) => {
                    &&& final(self).stage is Failed
                    &&& action == Action::Failed(EnrollmentError::Provision(error))
                },
                (Stage::Connecting, Event::Output(chunks)) => match old(self).enrollment {
                    Enrollment::Callback { namespace, user_info_id, .. } => match token_in(
                        chunks@,
                    ) {
                        Some(token) => {
                            &&& final(self).stage matches Stage::Calling { token: kept }
                            &&& kept@ == token
                            &&& action matches Action::Send(request)
                            &&& request@ == callback_request(
                                token,
                                runtime_info.ninja_panda_api_key@,
                                namespace@,
                                runtime_info.ninja_panda_api_url@,
                                user_info_id as nat,
                            )
                        },
                        None => {
                            &&& final(self).stage is Failed
                            &&& action == Action::Failed(
                                EnrollmentError::Registration(RegistrationError::TokenNotFound),
                            )
                        },
                    },
                    Enrollment::Token { .. } => match preauth_report(chunks@) {
                        Ok(report) => {
                            &&& final(self).stage is Done
                            &&& action matches Action::Joined(text)
                            &&& text@ == report
                        },
                        Err(error) => {
                            &&& final(self).stage is Failed
                            &&& action == Action::Failed(EnrollmentError::Exec(error))
                        },
                    },
                },
                (Stage::Connecting, Event::NotRun) => {
                    &&& final(self).stage is Failed
                    &&& action == Action::Failed(EnrollmentError::Exec(ExecError::NotRun))
                },
                (Stage::Calling { token }, Event::NoAnswer) => {
                    &&& final(self).stage is Failed
                    &&& action == Action::Failed(EnrollmentError::Unreachable)
                },
                (Stage::Calling { token }, Event::Answer { status, response }) => {
                    if status == 200 && response is Some {
                        &&& final(self).stage is Done
                        &&& action matches Action::Registered(identity)
                        &&& identity.machine_id@ == response->0.machine.machine_id@
                        &&& old(self).enrollment matches Enrollment::Callback {
                            namespace,
                            user_info_id,
                            ..
                        }
                        &&& identity.namespace@ == namespace@
                        &&& identity.user_id == user_info_id
                    } else {
                        &&& final(self).stage is Failed
                        &&& action == Action::Failed(
                            EnrollmentError::Registration(
                                RegistrationError::CallbackRejected { status },
                            ),
                        )
                    }
                },
                _ => {
                    &&& final(self).stage is Failed
                    &&& action == Action::Failed(EnrollmentError::OutOfOrder)
                },
            },
    {
        match (&self.stage, event) {
            (Stage::Created, Event::Begin) => {
                self.stage = Stage::Provisioning;
                Action::Provision(
                    start_ztclientd(config, self.container_name.as_str(), debug_containers),
                )
            },
            (Stage::Provisioning, Event::Provisioned(None)) => {
                self.stage = Stage::Connecting;
                match &self.enrollment {
                    Enrollment::Callback { mode, .. } => Action::Run(
                        begin_registration(mode, self.container_name.as_str(), old_mode),
                    ),
                    Enrollment::Token { preauth_token, np_url } => Action::Run(
                        preauth_token_registration(
                            self.container_name.as_str(),
                            preauth_token.as_str(),
                            np_url.as_str(),
                            old_mode,
                        ),
                    ),
                }
            },
            (Stage::Provisioning, Event::Provisioned(Some(error))) => self.fail(
                EnrollmentError::Provision(error),
            ),
            (Stage::Connecting, Event::Output(chunks)) => match &self.enrollment {
                Enrollment::Callback { namespace, user_info_id, .. } => {
                    match correlation_token(&chunks) {
                        Ok(token) => {
                            let request = ExecuteCallbackRequest {
                                correlation_id: token.as_str(),
                                api_key: runtime_info.ninja_panda_api_key.as_str(),
                                namespace_name: namespace.as_str(),
                                ninja_panda_api_url: runtime_info.ninja_panda_api_url.as_str(),
                                user_info_id: *user_info_id,
                            };
                            let call = execute_callback(&request);
                            self.stage = Stage::Calling { token };
                            Action::Send(call)
                        },
                        Err(error) => self.fail(EnrollmentError::Registration(error)),
                    }
                },
                Enrollment::Token { .. } => match preauth_result(&chunks) {
                    Ok(report) => {
                        self.stage = Stage::Done;
                        Action::Joined(report)
                    },
                    Err(error) => self.fail(EnrollmentError::Exec(error)),
                },
            },
            (Stage::Connecting, Event::NotRun) => self.fail(
                EnrollmentError::Exec(ExecError::NotRun),
            ),
            (Stage::Calling { .. }, Event::NoAnswer) => self.fail(EnrollmentError::Unreachable),
            (Stage::Calling { token }, Event::Answer { status, response }) => {
                match &self.enrollment {
                    Enrollment::Callback { namespace, user_info_id, .. } => {
                        let request = ExecuteCallbackRequest {
                            correlation_id: token.as_str(),
                            api_key: runtime_info.ninja_panda_api_key.as_str(),
                            namespace_name: namespace.as_str(),
                            ninja_panda_api_url: runtime_info.ninja_panda_api_url.as_str(),
                            user_info_id: *user_info_id,
                        };
                        match registered_machine(&request, status, response) {
                            Ok(identity) => {
                                self.stage = Stage::Done;
                                Action::Registered(identity)
                            },
                            Err(error) => self.fail(EnrollmentError::Registration(error)),
                        }
                    },
                    Enrollment::Token { .. } => self.fail(EnrollmentError::OutOfOrder),
                }
            },
            _ => self.fail(EnrollmentError::OutOfOrder),
        }
    }
}

} // verus!
