//! Routes of a machine as the control plane holds them.

use vstd::prelude::*;

verus! {

/// Body of the request that sets the routes of a machine.
#[derive(Clone, Debug, PartialEq, Default)]
pub struct CreateRouteRequest {
    pub routes: Vec<Route>,
}

/// The mathematical value of a [`CreateRouteRequest`].
pub struct CreateRouteRequestView {
    pub routes: Seq<RouteView>,
}

impl View for CreateRouteRequest {
    type V = CreateRouteRequestView;

    open spec fn view(&self) -> CreateRouteRequestView {
        CreateRouteRequestView {
            routes: self.routes.deep_view(),
        }
    }
}

impl DeepView for CreateRouteRequest {
    type V = CreateRouteRequestView;

    open spec fn deep_view(&self) -> CreateRouteRequestView {
        self@
    }
}

/// Answer to the request that sets the routes of a machine.
#[derive(Clone, Debug, PartialEq, Default)]
pub struct CreateRouteResponse {
    pub routes: Vec<Route>,
}

/// A route of a machine.
#[derive(Clone, Debug, PartialEq, Default)]
pub struct Route {
    pub route_id: Option<String>,
    pub machine_id: Option<String>,
    pub prefix: String,
    pub enabled: bool,
    pub advertised: bool,
    pub is_primary: bool,
}

/// The mathematical value of a [`Route`].
pub struct RouteView {
    pub route_id: Option<Seq<char>>,
    pub machine_id: Option<Seq<char>>,
    pub prefix: Seq<char>,
    pub enabled: bool,
    pub advertised: bool,
    pub is_primary: bool,
}

impl View for Route {
    type V = RouteView;

    open spec fn view(&self) -> RouteView {
        RouteView {
            route_id: self.route_id.deep_view(),
            machine_id: self.machine_id.deep_view(),
            prefix: self.prefix@,
            enabled: self.enabled,
            advertised: self.advertised,
            is_primary: self.is_primary,
        }
    }
}

impl DeepView for Route {
    type V = RouteView;

    open spec fn deep_view(&self) -> RouteView {
        self@
    }
}

} // verus!
