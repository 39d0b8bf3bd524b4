//! The commands of the harness: setting an environment up, and launching
//! fleets of clients into it.

use crate::enrollment::{ClientEnrollment, Enrollment};
use crate::text::{decimal, push_decimal};
use crate::ztclient::{client_name, fleet_user, name_client, RegistrationMode, FLEET_USERS};
use crate::RuntimeInformation;
use vstd::prelude::*;

verus! {

/// The command line of the harness.
#[derive(Debug)]
pub struct Cli {
    pub command: Command,
}

/// What the harness is asked to do.
#[derive(Debug)]
pub enum Command {
    /// Creates an environment.
    CreateEnvironment(CreateEnvironmentArgs),
    /// Launches clients and registers them through the callback of the
    /// control plane.
    RegisterClients(RegisterClientsArgs),
    /// Launches clients and registers them with a pre-authorization token.
    LaunchClients(LaunchClientsArgs),
}

/// What an environment is created with.
#[derive(Debug, Default)]
pub struct CreateEnvironmentArgs {
    /// Number of clients to start.
    pub num_clients: u32,
    /// Port at which the API of the control plane is exposed.
    pub ninja_panda_port: u32,
    /// Seconds to sleep between starting the backends and starting the
    /// control plane.
    pub sleep_time: u64,
    /// Port at which the database is exposed.
    pub database_port: u32,
    /// Prefix of the hostnames of the machines.
    pub hostname_prefix: String,
}

/// The address of the API of a control plane that listens on `port` of the
/// local host.
pub open spec fn local_api_url(port: nat) -> Seq<char> {
    "http://localhost:"@ + decimal(port)
}

impl CreateEnvironmentArgs {
    /// Checks the arguments. Every combination is valid, so they come back
    /// as they are.
    pub fn validate(self) -> (checked: Self)
        ensures
            checked == self,
    {
        self
    }

    /// What later runs need to know about the environment: the API key that
    /// the control plane issued, and the address of its API on the local
    /// host.
    pub fn runtime_information(&self, api_key: String) -> (info: RuntimeInformation)
        ensures
            info.ninja_panda_api_key@ == api_key@,
            info.ninja_panda_api_url@ == local_api_url(self.ninja_panda_port as nat),
    {
        let mut ninja_panda_api_url = "http://localhost:".to_owned();
        push_decimal(&mut ninja_panda_api_url, self.ninja_panda_port as u128);
        RuntimeInformation { ninja_panda_api_key: api_key, ninja_panda_api_url }
    }
}

/// What clients are launched with when they register with a
/// pre-authorization token.
#[derive(Debug, Default)]
pub struct LaunchClientsArgs {
    /// Number of clients to start.
    pub num_clients: u32,
    /// What is added to the number of a client in its name.
    pub offset: u32,
    /// Pre-authorization token with which the clients register.
    pub pre_auth_token: String,
    /// Address of the control plane.
    pub url: String,
    /// Prefix of the hostnames of the clients.
    pub hostname_prefix: String,
}

/// Whether the numbers of a fleet of `num_clients` clients, shifted by
/// `offset`, can be counted in 32 bits.
pub open spec fn numbers_fit(num_clients: u32, offset: u32) -> bool {
    num_clients < u32::MAX && num_clients + offset <= u32::MAX
}

impl LaunchClientsArgs {
    /// Whether the fleet can be numbered.
    pub fn can_number(&self) -> (ok: bool)
        ensures
            ok == numbers_fit(self.num_clients, self.offset),
    {
        self.num_clients < u32::MAX && self.offset <= u32::MAX - self.num_clients
    }

    /// Describes the fleet: client number `n`, counted from one, runs in the
    /// container named by the prefix and `n + offset` and registers with the
    /// pre-authorization token at the given address.
    pub fn enrollments(&self) -> (fleet: Vec<ClientEnrollment>)
        requires
            numbers_fit(self.num_clients, self.offset),
        ensures
            fleet@.len() == self.num_clients,
            forall|i: int|
                0 <= i < self.num_clients ==> {
                    let flow = #[trigger] fleet@[i];
                    &&& flow.well_formed()
                    &&& flow.stage is Created
                    &&& flow.container_name@ == client_name(
                        self.hostname_prefix@,
                        (i + 1 + self.offset) as nat,
                    )
                    &&& flow.enrollment matches Enrollment::Token { preauth_token, np_url }
                    &&& preauth_token@ == self.pre_auth_token@
                    &&& np_url@ == self.url@
                },
    {
        let mut fleet: Vec<ClientEnrollment> = Vec::new();
        let mut x: u32 = 1;
        while x < self.num_clients + 1
            invariant
                1 <= x <= self.num_clients + 1,
                numbers_fit(self.num_clients, self.offset),
                fleet@.len() == x - 1,
                forall|i: int|
                    0 <= i < x - 1 ==> {
                        let flow = #[trigger] fleet@[i];
                        &&& flow.well_formed()
                        &&& flow.stage is Created
                        &&& flow.container_name@ == client_name(
                            self.hostname_prefix@,
                            (i + 1 + self.offset) as nat,
                        )
                        &&& flow.enrollment matches Enrollment::Token { preauth_token, np_url }
                        &&& preauth_token@ == self.pre_auth_token@
                        &&& np_url@ == self.url@
                    },
            decreases self.num_clients + 1 - x,
        {
            let container_name = name_client(
                self.hostname_prefix.as_str(),
                (x + self.offset) as u64,
            );
            fleet.push(
                ClientEnrollment::by_token(
                    container_name.as_str(),
                    self.pre_auth_token.as_str(),
                    self.url.as_str(),
                ),
            );
            x += 1;
        }
        fleet
    }
}

/// What clients are launched with when they register through the callback
/// of the control plane.
#[derive(Debug, Default)]
pub struct RegisterClientsArgs {
    /// Number of clients to start.
    pub num_clients: u32,
    /// What is added to the number of a client in its name.
    pub offset: u32,
    /// Prefix of the hostnames of the clients.
    pub hostname_prefix: String,
    /// Namespace in which the machines are registered.
    pub namespace_name: String,
}

impl RegisterClientsArgs {
    /// Whether the fleet can be numbered.
    pub fn can_number(&self) -> (ok: bool)
        ensures
            ok == numbers_fit(self.num_clients, self.offset),
    {
        self.num_clients < u32::MAX && self.offset <= u32::MAX - self.num_clients
    }

    /// Describes the fleet: client number `n`, counted from one, runs in the
    /// container named by the prefix and `n + offset`, registers under that
    /// name in the namespace and belongs to synthetic user `n % 9`. The
    /// namespace has to exist before the first enrollment begins.
    pub fn enrollments(&self) -> (fleet: Vec<ClientEnrollment>)
        requires
            numbers_fit(self.num_clients, self.offset),
        ensures
            fleet@.len() == self.num_clients,
            forall|i: int|
                0 <= i < self.num_clients ==> {
                    let flow = #[trigger] fleet@[i];
                    &&& flow.well_formed()
                    &&& flow.stage is Created
                    &&& flow.container_name@ == client_name(
                        self.hostname_prefix@,
                        (i + 1 + self.offset) as nat,
                    )
                    &&& flow.enrollment matches Enrollment::Callback {
                        mode,
                        namespace,
                        user_info_id,
                    }
                    &&& mode is Hostname
                    &&& namespace@ == self.namespace_name@
                    &&& user_info_id == fleet_user((i + 1) as nat)
                },
    {
        let mut fleet: Vec<ClientEnrollment> = Vec::new();
        let mut x: u32 = 1;
        while x < self.num_clients + 1
            invariant
                1 <= x <= self.num_clients + 1,
                numbers_fit(self.num_clients, self.offset),
                fleet@.len() == x - 1,
                forall|i: int|
                    0 <= i < x - 1 ==> {
                        let flow = #[trigger] fleet@[i];
                        &&& flow.well_formed()
                        &&& flow.stage is Created
                        &&& flow.container_name@ == client_name(
                            self.hostname_prefix@,
                            (i + 1 + self.offset) as nat,
                        )
                        &&& flow.enrollment matches Enrollment::Callback {
                            mode,
                            namespace,
                            user_info_id,
                        }
                        &&& mode is Hostname
                        &&& namespace@ == self.namespace_name@
                        &&& user_info_id == fleet_user((i + 1) as nat)
                    },
            decreases self.num_clients + 1 - x,
        {
            let container_name = name_client(
                self.hostname_prefix.as_str(),
                (x + self.offset) as u64,
            );
            fleet.push(
                ClientEnrollment::by_callback(
                    container_name.as_str(),
                    RegistrationMode::Hostname,
                    self.namespace_name.as_str(),
                    x as usize % FLEET_USERS,
                ),
            );
            x += 1;
        }
        fleet
    }
}

} // verus!
