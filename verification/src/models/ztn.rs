//! The network map of a client and the notifications that carry it.

use vstd::prelude::*;

verus! {

/// A notification from the client daemon. Only the fields with a fixed
/// shape are carried.
#[derive(Clone, Debug, PartialEq, Default)]
pub struct ZtnMessage {
    pub version: String,
    pub state: Option<i64>,
    pub prefs: Option<Prefs>,
    pub net_map: Option<NetMap>,
}

/// Preferences of a client. Advertised tags and routes are not carried.
#[derive(Clone, Debug, PartialEq, Default)]
pub struct Prefs {
    pub control_url: String,
    pub route_all: bool,
    pub allow_single_hosts: bool,
    pub exit_node_id: String,
    pub exit_node_ip: String,
    pub exit_node_allow_lanaccess: bool,
    pub corp_dns: bool,
    pub run_ssh: bool,
    pub want_running: bool,
    pub logged_out: bool,
    pub client_only: bool,
    pub hostname: String,
    pub notepad_urls: bool,
    pub no_snat: bool,
    pub netfilter_mode: i64,
    pub auto_connect: bool,
    pub config: Config,
}

/// Persistent identity of a client.
#[derive(Clone, Debug, PartialEq, Default)]
pub struct Config {
    pub private_machine_key: String,
    pub private_node_key: String,
    pub old_private_node_key: String,
    pub provider: String,
    pub login_name: String,
    pub user_profile: UserProfile,
    pub network_lock_key: String,
    pub node_id: String,
    pub key_sign_authority: KeySignAuthority,
}

/// A user profile in a network map. Roles are not carried.
#[derive(Clone, Debug, PartialEq, Default)]
pub struct UserProfile {
    pub id: i64,
    pub login_name: String,
    pub display_name: String,
    pub first_name: String,
    pub last_name: String,
    pub profile_pic_url: String,
}

/// Where a client gets its keys signed.
#[derive(Clone, Debug, PartialEq, Default)]
pub struct KeySignAuthority {
    pub key_server_url: String,
}

/// The network map of a client: itself, its peers and the packet filter that
/// applies to it. SSH policy and control health are not carried.
#[derive(Clone, Debug, PartialEq, Default)]
pub struct NetMap {
    pub self_node: SelfNode,
    pub node_key: String,
    pub private_key: String,
    pub expiry: String,
    pub name: String,
    pub addresses: Vec<String>,
    pub machine_status: String,
    pub machine_key: String,
    pub peers: Option<Vec<SelfNode>>,
    pub dns: Dns,
    pub hostinfo: Option<Hostinfo>,
    pub packet_filter: Option<Vec<PacketFilter>>,
    pub collect_services: bool,
    pub relaymap: Relaymap,
    pub debug: Option<Debug>,
    pub tkaenabled: bool,
    pub tkahead: String,
    pub user: i64,
    pub domain: String,
    pub domain_audit_log_id: String,
    pub user_profiles: Vec<(String, UserProfile)>,
}

/// A node in a network map: the client itself or one of its peers.
#[derive(Clone, Debug, PartialEq, Default)]
pub struct SelfNode {
    pub id: i64,
    pub stable_id: String,
    pub name: String,
    pub user: i64,
    pub key: String,
    pub key_expiry: String,
    pub machine: String,
    pub session_key: String,
    pub addresses: Vec<String>,
    pub allowed_ips: Vec<String>,
    pub relay: String,
    pub hostinfo: Hostinfo,
    pub created: String,
    pub primary_routes: Option<Vec<String>>,
    pub last_seen: Option<String>,
    pub online: bool,
    pub keep_alive: bool,
    pub machine_authorized: bool,
    pub capabilities: Vec<String>,
    pub computed_name: String,
    pub computed_name_with_host: String,
}

/// What a node reports about the host it runs on.
#[derive(Clone, Debug, PartialEq, Default)]
pub struct Hostinfo {
    pub ztmversion: String,
    pub backend_log_id: String,
    pub os: String,
    pub osversion: String,
    pub container: bool,
    pub distro: String,
    pub distro_version: String,
    pub desktop: bool,
    pub hostname: String,
    pub go_arch: String,
    pub go_version: String,
    pub services: Vec<Service>,
    pub userspace: bool,
    pub userspace_router: bool,
}

/// A service that a node offers.
#[derive(Clone, Debug, PartialEq, Default)]
pub struct Service {
    pub proto: String,
    pub port: i64,
}

/// What a node found out about the network it sits in. Whether the mapping
/// varies by destination and the relay latencies are not carried.
#[derive(Clone, Debug, PartialEq, Default)]
pub struct NetInfo {
    pub hair_pinning: bool,
    pub working_ipv6: bool,
    pub oshas_ipv6: bool,
    pub working_udp: bool,
    pub working_icmpv4: bool,
    pub upn_p: bool,
    pub pmp: bool,
    pub pcp: bool,
    pub preferred_relay: i64,
}

/// DNS configuration in a network map. The exit-node filter set is not carried.
#[derive(Clone, Debug, PartialEq, Default)]
pub struct Dns {
    pub resolvers: Vec<Resolver>,
    pub routes: Routes,
    pub domains: Vec<String>,
    pub proxied: bool,
    pub nameservers: Vec<String>,
}

/// One packet filter entry: who may reach which destinations. Capabilities
/// are not carried.
#[derive(Clone, Debug, PartialEq, Default)]
pub struct PacketFilter {
    pub ipproto: String,
    pub srcs: Vec<String>,
    pub dsts: Vec<Dst>,
}

/// A destination of a packet filter entry.
#[derive(Clone, Debug, PartialEq, Default)]
pub struct Dst {
    pub net: String,
    pub ports: Ports,
}

/// An inclusive port range.
#[derive(Clone, Debug, PartialEq, Default)]
pub struct Ports {
    pub first: i64,
    pub last: i64,
}

/// A DNS resolver.
#[derive(Clone, Debug, PartialEq, Default)]
pub struct Resolver {
    pub addr: String,
}

/// DNS routes; the client sends an empty object.
#[derive(Clone, Debug, PartialEq, Default)]
pub struct Routes {
}

/// The relay regions known to a client, by region key.
#[derive(Clone, Debug, PartialEq, Default)]
pub struct Relaymap {
    pub regions: Vec<(String, Region)>,
}

/// An empty table of regions.
#[derive(Clone, Debug, PartialEq, Default)]
pub struct Regions {
}

/// One relay region.
#[derive(Clone, Debug, PartialEq, Default)]
pub struct Region {
    pub region_id: i64,
    pub region_code: String,
    pub region_name: String,
    pub nodes: Vec<Node>,
}

/// One relay node of a region.
#[derive(Clone, Debug, PartialEq, Default)]
pub struct Node {
    pub name: String,
    pub region_id: i64,
    pub host_name: String,
    pub ipv4: String,
}

/// Debug switches in a network map.
#[derive(Clone, Debug, PartialEq, Default)]
pub struct Debug {
    pub disable_ztm_log: Option<bool>,
}

/// An empty table of user profiles.
#[derive(Clone, Debug, PartialEq, Default)]
pub struct UserProfiles {
}

} // verus!
