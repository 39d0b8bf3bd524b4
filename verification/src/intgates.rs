//! Internet gateways: machines that route all traffic of the mesh.

use crate::api::{ApiRequest, ApiRequestView, Method, Operation, Payload, PayloadView};
use vstd::prelude::*;
use vstd::utf8::{decode_utf8, encode_utf8, is_char_boundary};

verus! {

/// Body of the request that sets the routes a machine offers.
#[derive(Default, Debug, Clone, PartialEq)]
pub struct CreateRouteRequest {
    pub routes: Vec<Route>,
}

/// A route that a machine offers to the mesh.
#[derive(Default, Debug, Clone, PartialEq)]
pub struct Route {
    pub prefix: String,
    pub enabled: bool,
    pub advertised: bool,
    pub is_primary: bool,
}

/// The mathematical value of a [`Route`].
pub struct RouteView {
    pub prefix: Seq<char>,
    pub enabled: bool,
    pub advertised: bool,
    pub is_primary: bool,
}

impl View for Route {
    type V = RouteView;

    open spec fn view(&self) -> RouteView {
        RouteView {
            prefix: self.prefix@,
            enabled: self.enabled,
            advertised: self.advertised,
            is_primary: self.is_primary,
        }
    }
}

impl DeepView for Route {
    type V = RouteView;

    open spec fn deep_view(&self) -> RouteView {
        self@
    }
}

/// The mathematical value of a [`CreateRouteRequest`].
pub struct CreateRouteRequestView {
    pub routes: Seq<RouteView>,
}

impl View for CreateRouteRequest {
    type V = CreateRouteRequestView;

    open spec fn view(&self) -> CreateRouteRequestView {
        CreateRouteRequestView { routes: self.routes.deep_view() }
    }
}

impl DeepView for CreateRouteRequest {
    type V = CreateRouteRequestView;

    open spec fn deep_view(&self) -> CreateRouteRequestView {
        self@
    }
}

/// An enabled, advertised, primary route for `prefix`.
pub open spec fn exit_route(prefix: Seq<char>) -> RouteView {
    RouteView { prefix, enabled: true, advertised: true, is_primary: true }
}

/// The routes of an exit node: all of IPv4, then all of IPv6.
pub open spec fn exit_routes() -> CreateRouteRequestView {
    CreateRouteRequestView { routes: seq![exit_route("0.0.0.0/0"@), exit_route("::/0"@)] }
}

/// The routes that turn a machine into an exit node.
pub fn create_exit_route_request() -> (request: CreateRouteRequest)
    ensures
        request@ == exit_routes(),
{
    let mut routes: Vec<Route> = Vec::new();
    routes.push(
        Route { prefix: "0.0.0.0/0".to_owned(), enabled: true, advertised: true, is_primary: true },
    );
    routes.push(
        Route { prefix: "::/0".to_owned(), enabled: true, advertised: true, is_primary: true },
    );
    let request = CreateRouteRequest { routes };
    assert(request@.routes =~= exit_routes().routes);
    request
}

/// Number of bytes that the tag in front of a machine reference takes
/// (`machine:`).
pub const MACHINE_TAG_BYTES: usize = 8;

/// Whether a machine reference is long enough to carry a tag, and the tag
/// ends between two characters.
pub open spec fn has_machine_tag(machine_id: Seq<char>) -> bool {
    &&& encode_utf8(machine_id).len() >= MACHINE_TAG_BYTES
    &&& is_char_boundary(encode_utf8(machine_id), MACHINE_TAG_BYTES as int)
}

/// What follows the tag of a machine reference.
pub open spec fn untagged(machine_id: Seq<char>) -> Seq<char> {
    let bytes = encode_utf8(machine_id);
    decode_utf8(bytes.subrange(MACHINE_TAG_BYTES as int, bytes.len() as int))
}

/// The address at which the routes of a machine are set.
pub open spec fn routes_url(api_url: Seq<char>, machine: Seq<char>) -> Seq<char> {
    api_url + "/api/v1/machine/"@ + machine + "/routes"@
}

/// The request that turns a machine into an internet gateway.
pub open spec fn internet_gateway_request(
    machine_id: Seq<char>,
    api_url: Seq<char>,
    api_key: Seq<char>,
) -> ApiRequestView {
    ApiRequestView {
        operation: Operation::SetRoutes,
        method: Method::Post,
        url: routes_url(api_url, untagged(machine_id)),
        bearer: api_key,
        payload: PayloadView::ExitRoutes(exit_routes()),
    }
}

/// Describes the request that turns the machine behind a tagged reference
/// (`machine:` and an identifier) into an internet gateway. The tag is cut
/// off by its length, whatever it holds.
pub fn make_internet_gateway(
    machine_id: &str,
    ninja_panda_api_url: &str,
    api_key: &str,
) -> (request: ApiRequest)
    requires
        has_machine_tag(machine_id@),
    ensures
        request@ == internet_gateway_request(machine_id@, ninja_panda_api_url@, api_key@),
{
    let (_, mid) = machine_id.split_at(MACHINE_TAG_BYTES);
    proof {
        vstd::utf8::encode_utf8_decode_utf8(mid@);
    }
    let mut url = ninja_panda_api_url.to_owned();
    url.append("/api/v1/machine/");
    url.append(mid);
    url.append("/routes");
    ApiRequest {
        operation: Operation::SetRoutes,
        method: Method::Post,
        url,
        bearer: api_key.to_owned(),
        payload: Payload::ExitRoutes(create_exit_route_request()),
    }
}

/// Whether [`make_internet_gateway`] accepts `machine_id`.
pub fn carries_machine_tag(machine_id: &str) -> (ok: bool)
    ensures
        ok == has_machine_tag(machine_id@),
{
    machine_id.as_bytes().len() >= MACHINE_TAG_BYTES && machine_id.is_char_boundary(
        MACHINE_TAG_BYTES,
    )
}

} // verus!
