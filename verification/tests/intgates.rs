use ztclient_common::api::{ApiRequest, Method, Operation, Payload};
use ztclient_common::intgates::{
    carries_machine_tag, create_exit_route_request, make_internet_gateway, CreateRouteRequest,
    Route,
};

fn exit_routes() -> CreateRouteRequest {
    CreateRouteRequest {
        routes: vec![
            Route {
                prefix: "0.0.0.0/0".to_string(),
                enabled: true,
                advertised: true,
                is_primary: true,
            },
            Route { prefix: "::/0".to_string(), enabled: true, advertised: true, is_primary: true },
        ],
    }
}

#[test]
fn exit_routes_cover_both_address_families() {
    assert_eq!(create_exit_route_request(), exit_routes());
}

#[test]
fn gateway_request_cuts_the_tag_off() {
    let request = make_internet_gateway("machine:abc-123", "http://localhost:15000", "secret");
    assert_eq!(
        request,
        ApiRequest {
            operation: Operation::SetRoutes,
            method: Method::Post,
            url: "http://localhost:15000/api/v1/machine/abc-123/routes".to_string(),
            bearer: "secret".to_string(),
            payload: Payload::ExitRoutes(exit_routes()),
        }
    );
}

#[test]
fn gateway_request_cuts_eight_bytes_whatever_they_hold() {
    let request = make_internet_gateway("12345678", "http://np", "k");
    assert_eq!(request.url, "http://np/api/v1/machine//routes");
    let request = make_internet_gateway("abcdefghij", "http://np", "k");
    assert_eq!(request.url, "http://np/api/v1/machine/ij/routes");
}

#[test]
fn machine_tag_needs_eight_bytes_and_a_character_boundary() {
    assert!(carries_machine_tag("machine:5"));
    assert!(carries_machine_tag("machine:"));
    assert!(!carries_machine_tag("machine"));
    assert!(!carries_machine_tag(""));
    // the eighth byte lies inside the two-byte character
    assert!(!carries_machine_tag("machineé5"));
    assert!(carries_machine_tag("machinéx"));
}
