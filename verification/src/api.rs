//! Requests to the control plane, described as plain values.
//!
//! Nothing in this crate opens a connection. An operation against the control
//! plane is a value of [`ApiRequest`], which says what has to be sent; whoever
//! owns the connection sends it and hands the status code of the answer back
//! to the function that interprets it.

use crate::models::routes::{CreateRouteRequest, CreateRouteRequestView};
use crate::models::{
    CreateAclPolicyRequest, CreateAclPolicyRequestView, CreateNamespaceRequest,
    CreateNamespaceRequestView, CreatePreauthTokenRequest, CreatePreauthTokenRequestView,
    UpdateAclPolicyRequest, UpdateAclPolicyRequestView,
};
use crate::{RegisterCallbackRequest, RegisterCallbackRequestView, RuntimeInformation};
use vstd::prelude::*;

verus! {

/// The operations of the control plane that a scenario uses.
#[derive(Clone, Copy, Debug, PartialEq, Eq, Structural)]
pub enum Operation {
    CreateNamespace,
    RegisterMachine,
    ListMachines,
    DeleteMachine,
    SetRoutes,
    CreatePolicy,
    UpdatePolicy,
    DeletePolicy,
    CreatePreauthToken,
}

/// Whether a status code lies in the range of success, 200 to 299.
pub open spec fn is_success(status: u16) -> bool {
    200 <= status < 300
}

impl Operation {
    /// The name of the operation in reports.
    pub open spec fn name(self) -> Seq<char> {
        match self {
            Operation::CreateNamespace => "create namespace"@,
            Operation::RegisterMachine => "register machine"@,
            Operation::ListMachines => "list machines"@,
            Operation::DeleteMachine => "delete machine"@,
            Operation::SetRoutes => "set routes"@,
            Operation::CreatePolicy => "create policy"@,
            Operation::UpdatePolicy => "update policy"@,
            Operation::DeletePolicy => "delete policy"@,
            Operation::CreatePreauthToken => "create pre-authorization token"@,
        }
    }

    /// The name of the operation in reports.
    pub fn describe(self) -> (name: &'static str)
        ensures
            name@ == self.name(),
    {
        match self {
            Operation::CreateNamespace => "create namespace",
            Operation::RegisterMachine => "register machine",
            Operation::ListMachines => "list machines",
            Operation::DeleteMachine => "delete machine",
            Operation::SetRoutes => "set routes",
            Operation::CreatePolicy => "create policy",
            Operation::UpdatePolicy => "update policy",
            Operation::DeletePolicy => "delete policy",
            Operation::CreatePreauthToken => "create pre-authorization token",
        }
    }

    /// Whether an answer with the given status code lets the scenario go on.
    ///
    /// Registering a machine and issuing a pre-authorization token demand
    /// exactly 200. Creating and deleting a policy demand a code in the range
    /// of success. Everything else goes on whatever the control plane
    /// answered: creating a namespace that exists is no failure, and neither
    /// is emptying a policy or deleting a machine that is gone.
    pub open spec fn accepts(self, status: u16) -> bool {
        match self {
            Operation::RegisterMachine | Operation::CreatePreauthToken => status == 200,
            Operation::CreatePolicy | Operation::DeletePolicy => is_success(status),
            _ => true,
        }
    }

    /// Whether an answer with the given status code lets the scenario go on.
    pub fn accepted(self, status: u16) -> (ok: bool)
        ensures
            ok == self.accepts(status),
    {
        match self {
            Operation::RegisterMachine | Operation::CreatePreauthToken => status == 200,
            Operation::CreatePolicy | Operation::DeletePolicy => 200 <= status && status < 300,
            _ => true,
        }
    }
}

/// What is reported of a request that the control plane turned down: the
/// operation and the status code of the answer.
pub open spec fn rejection_message(operation: Operation, status: u16) -> Seq<char> {
    operation.name() + ": the control plane answered with status "@ + crate::text::decimal(
        status as nat,
    )
}

/// Words the report of a request that the control plane turned down.
pub fn describe_rejection(operation: Operation, status: u16) -> (message: String)
    ensures
        message@ == rejection_message(operation, status),
{
    let mut message = operation.describe().to_owned();
    message.append(": the control plane answered with status ");
    crate::text::push_decimal(&mut message, status as u128);
    message
}

/// What is reported of a request that got no answer: the request did not
/// reach the control plane, or nothing came back.
pub open spec fn silence_message(operation: Operation) -> Seq<char> {
    operation.name() + ": no answer from the control plane"@
}

/// What is reported of a request that failed: the operation, and either the
/// status code of the answer or that no answer came.
pub open spec fn failure_message(operation: Operation, answer: Option<u16>) -> Seq<char> {
    match answer {
        Some(status) => rejection_message(operation, status),
        None => silence_message(operation),
    }
}

/// Words the report of a request that failed.
pub fn describe_failure(operation: Operation, answer: Option<u16>) -> (message: String)
    ensures
        message@ == failure_message(operation, answer),
{
    match answer {
        Some(status) => describe_rejection(operation, status),
        None => {
            let mut message = operation.describe().to_owned();
            message.append(": no answer from the control plane");
            message
        },
    }
}

/// The verb of a request.
#[derive(Clone, Copy, Debug, PartialEq, Eq, Structural)]
pub enum Method {
    Get,
    Post,
    Put,
    Delete,
}

/// What a request carries in its body. Every variant but `Empty` is sent as
/// a JSON document.
#[derive(Clone, Debug, PartialEq)]
pub enum Payload {
    Empty,
    Namespace(CreateNamespaceRequest),
    Callback(RegisterCallbackRequest),
    CreatePolicy(CreateAclPolicyRequest),
    UpdatePolicy(UpdateAclPolicyRequest),
    PreauthToken(CreatePreauthTokenRequest),
    Routes(CreateRouteRequest),
    ExitRoutes(crate::intgates::CreateRouteRequest),
}

/// The mathematical value of a [`Payload`].
pub enum PayloadView {
    Empty,
    Namespace(CreateNamespaceRequestView),
    Callback(RegisterCallbackRequestView),
    CreatePolicy(CreateAclPolicyRequestView),
    UpdatePolicy(UpdateAclPolicyRequestView),
    PreauthToken(CreatePreauthTokenRequestView),
    Routes(CreateRouteRequestView),
    ExitRoutes(crate::intgates::CreateRouteRequestView),
}

impl View for Payload {
    type V = PayloadView;

    open spec fn view(&self) -> PayloadView {
        match self {
            Payload::Empty => PayloadView::Empty,
            Payload::Namespace(body) => PayloadView::Namespace(body@),
            Payload::Callback(body) => PayloadView::Callback(body@),
            Payload::CreatePolicy(body) => PayloadView::CreatePolicy(body@),
            Payload::UpdatePolicy(body) => PayloadView::UpdatePolicy(body@),
            Payload::PreauthToken(body) => PayloadView::PreauthToken(body@),
            Payload::Routes(body) => PayloadView::Routes(body@),
            Payload::ExitRoutes(body) => PayloadView::ExitRoutes(body@),
        }
    }
}

/// One request to the control plane: the operation it performs, verb,
/// address, the API key that authenticates it as a bearer token, and the
/// body.
#[derive(Clone, Debug, PartialEq)]
pub struct ApiRequest {
    pub operation: Operation,
    pub method: Method,
    pub url: String,
    pub bearer: String,
    pub payload: Payload,
}

/// The mathematical value of an [`ApiRequest`].
pub struct ApiRequestView {
    pub operation: Operation,
    pub method: Method,
    pub url: Seq<char>,
    pub bearer: Seq<char>,
    pub payload: PayloadView,
}

impl View for ApiRequest {
    type V = ApiRequestView;

    open spec fn view(&self) -> ApiRequestView {
        ApiRequestView {
            operation: self.operation,
            method: self.method,
            url: self.url@,
            bearer: self.bearer@,
            payload: self.payload@,
        }
    }
}

impl DeepView for ApiRequest {
    type V = ApiRequestView;

    open spec fn deep_view(&self) -> ApiRequestView {
        self@
    }
}

/// The request with the given verb and body for `path` below the API of the
/// control plane that `runtime_info` names, authenticated with its key.
pub open spec fn request_to(
    runtime_info: RuntimeInformation,
    operation: Operation,
    method: Method,
    path: Seq<char>,
    payload: PayloadView,
) -> ApiRequestView {
    ApiRequestView {
        operation,
        method,
        url: runtime_info.ninja_panda_api_url@ + path,
        bearer: runtime_info.ninja_panda_api_key@,
        payload,
    }
}

/// Builds the request with the given verb and body for `path` below the API
/// of the control plane.
pub fn build_request(
    runtime_info: &RuntimeInformation,
    operation: Operation,
    method: Method,
    path: &str,
    payload: Payload,
) -> (request: ApiRequest)
    ensures
        request@ == request_to(*runtime_info, operation, method, path@, payload@),
{
    let mut url = runtime_info.ninja_panda_api_url.clone();
    url.append(path);
    ApiRequest {
        operation,
        method,
        url,
        bearer: runtime_info.ninja_panda_api_key.clone(),
        payload,
    }
}

} // verus!
