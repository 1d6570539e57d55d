//! The data of the tunnel runtime: definitions, derived SSH
//! configurations, lifecycle and health states, traffic counters.

use vstd::prelude::*;
use crate::error::{result_view, ErrorKind, TunnelError, TunnelErrorView};
use crate::ident::{id_or_error, invalid_id, parse_uuid, uuid_value};
use crate::text::{opt_view, str_eq};

verus! {

/// How a tunnel authenticates against the SSH server.
#[derive(Debug, PartialEq, Eq)]
pub enum TunnelAuth {
    /// Password authentication with the given secret.
    Password(String),
    /// Public-key authentication with the private key at the given path.
    Key(String),
}

/// The mathematical value of a [`TunnelAuth`].
pub enum TunnelAuthView {
    Password(Seq<char>),
    Key(Seq<char>),
}

impl View for TunnelAuth {
    type V = TunnelAuthView;

    open spec fn view(&self) -> TunnelAuthView {
        match self {
            TunnelAuth::Password(p) => TunnelAuthView::Password(p@),
            TunnelAuth::Key(k) => TunnelAuthView::Key(k@),
        }
    }
}

impl Clone for TunnelAuth {
    fn clone(&self) -> (r: Self)
        ensures
            r == *self,
    {
        match self {
            TunnelAuth::Password(p) => TunnelAuth::Password(p.clone()),
            TunnelAuth::Key(k) => TunnelAuth::Key(k.clone()),
        }
    }
}

/// Where the forwarded traffic ends up on the far side.
#[derive(Clone, Copy, Debug, PartialEq, Eq, Structural)]
pub enum ForwardMode {
    /// A host and port reachable from the SSH server.
    Direct,
    /// A container on the SSH server, resolved when the tunnel starts.
    Container,
}

/// A tunnel definition as the store hands it over.
#[derive(Debug, PartialEq, Eq)]
pub struct TunnelConfig {
    pub id: String,
    pub name: String,
    /// `"standard"` for direct forwarding, `"docker"` for a container.
    pub mode: String,
    pub ssh_host: String,
    pub ssh_port: u16,
    pub ssh_username: String,
    /// `"password"` or `"key"`.
    pub auth_type: String,
    pub ssh_password: Option<String>,
    pub ssh_key_path: Option<String>,
    pub local_port: Option<u16>,
    pub target_host: Option<String>,
    pub target_port: Option<u16>,
    pub container_name: Option<String>,
    pub container_port: Option<u16>,
}

/// The mathematical value of a [`TunnelConfig`].
pub struct TunnelConfigView {
    pub id: Seq<char>,
    pub name: Seq<char>,
    pub mode: Seq<char>,
    pub ssh_host: Seq<char>,
    pub ssh_port: u16,
    pub ssh_username: Seq<char>,
    pub auth_type: Seq<char>,
    pub ssh_password: Option<Seq<char>>,
    pub ssh_key_path: Option<Seq<char>>,
    pub local_port: Option<u16>,
    pub target_host: Option<Seq<char>>,
    pub target_port: Option<u16>,
    pub container_name: Option<Seq<char>>,
    pub container_port: Option<u16>,
}

impl View for TunnelConfig {
    type V = TunnelConfigView;

    open spec fn view(&self) -> TunnelConfigView {
        TunnelConfigView {
            id: self.id@,
            name: self.name@,
            mode: self.mode@,
            ssh_host: self.ssh_host@,
            ssh_port: self.ssh_port,
            ssh_username: self.ssh_username@,
            auth_type: self.auth_type@,
            ssh_password: opt_view(self.ssh_password),
            ssh_key_path: opt_view(self.ssh_key_path),
            local_port: self.local_port,
            target_host: opt_view(self.target_host),
            target_port: self.target_port,
            container_name: opt_view(self.container_name),
            container_port: self.container_port,
        }
    }
}

impl Clone for TunnelConfig {
    fn clone(&self) -> (r: Self)
        ensures
            r == *self,
    {
        TunnelConfig {
            id: self.id.clone(),
            name: self.name.clone(),
            mode: self.mode.clone(),
            ssh_host: self.ssh_host.clone(),
            ssh_port: self.ssh_port,
            ssh_username: self.ssh_username.clone(),
            auth_type: self.auth_type.clone(),
            ssh_password: self.ssh_password.clone(),
            ssh_key_path: self.ssh_key_path.clone(),
            local_port: self.local_port,
            target_host: self.target_host.clone(),
            target_port: self.target_port,
            container_name: self.container_name.clone(),
            container_port: self.container_port,
        }
    }
}

/// The port a container is reached on when its definition names none.
pub const DEFAULT_CONTAINER_PORT: u16 = 80;

/// The only address a tunnel listens on.
pub open spec fn loopback() -> Seq<char> {
    "127.0.0.1"@
}

/// A configuration error with the given message.
pub open spec fn config_error(message: Seq<char>) -> TunnelErrorView {
    TunnelErrorView { kind: ErrorKind::Config, message }
}

impl TunnelConfigView {
    /// The forwarding mode the definition asks for; an error for any
    /// mode string other than `"standard"` and `"docker"`.
    pub open spec fn forward_mode(self) -> Result<ForwardMode, TunnelErrorView> {
        if self.mode == "standard"@ {
            Ok(ForwardMode::Direct)
        } else if self.mode == "docker"@ {
            Ok(ForwardMode::Container)
        } else {
            Err(config_error("Invalid mode: "@ + self.mode))
        }
    }

    /// The credentials the definition carries.
    pub open spec fn auth(self) -> Result<TunnelAuthView, TunnelErrorView> {
        if self.auth_type == "password"@ {
            match self.ssh_password {
                Some(p) => Ok(TunnelAuthView::Password(p)),
                None => Err(config_error("Password not provided for password authentication"@)),
            }
        } else if self.auth_type == "key"@ {
            match self.ssh_key_path {
                Some(k) => Ok(TunnelAuthView::Key(k)),
                None => Err(config_error("Key path not provided for key authentication"@)),
            }
        } else {
            Err(config_error("Invalid auth type: "@ + self.auth_type))
        }
    }

    /// The SSH endpoint and credentials of the definition.
    pub open spec fn connect_config(self) -> Result<SshConnectConfigView, TunnelErrorView> {
        match self.auth() {
            Ok(auth) => Ok(
                SshConnectConfigView {
                    ssh_host: self.ssh_host,
                    ssh_port: self.ssh_port,
                    ssh_user: self.ssh_username,
                    auth,
                },
            ),
            Err(e) => Err(e),
        }
    }

    /// The local port of the definition, which must be present and
    /// nonzero.
    pub open spec fn checked_local_port(self) -> Result<u16, TunnelErrorView> {
        match self.local_port {
            Some(p) => if p == 0 {
                Err(config_error("Local port must be between 1 and 65535"@))
            } else {
                Ok(p)
            },
            None => Err(config_error("Local port missing"@)),
        }
    }

    /// The forwarding of a direct definition: loopback and the local
    /// port on this side, the target host and port on the far side.
    pub open spec fn direct_forward(self) -> Result<SshForwardConfigView, TunnelErrorView> {
        if self.mode == "docker"@ {
            Err(config_error("type error"@))
        } else {
            match self.checked_local_port() {
                Err(e) => Err(e),
                Ok(local_port) => match self.target_host {
                    None => Err(config_error("Target host missing"@)),
                    Some(host) => match self.target_port {
                        None => Err(config_error("Target port missing"@)),
                        Some(port) => Ok(
                            SshForwardConfigView {
                                local_host: loopback(),
                                local_port,
                                remote_host: host,
                                remote_port: port,
                            },
                        ),
                    },
                },
            }
        }
    }

    /// The forwarding of a container definition once the container's
    /// address is known: the configured container port, or
    /// [`DEFAULT_CONTAINER_PORT`] when none is configured.
    pub open spec fn container_forward(self, ip: Seq<char>) -> Result<
        SshForwardConfigView,
        TunnelErrorView,
    > {
        match self.checked_local_port() {
            Err(e) => Err(e),
            Ok(local_port) => Ok(
                SshForwardConfigView {
                    local_host: loopback(),
                    local_port,
                    remote_host: ip,
                    remote_port: match self.container_port {
                        Some(p) => p,
                        None => DEFAULT_CONTAINER_PORT,
                    },
                },
            ),
        }
    }
}

impl TunnelConfig {
    /// The forwarding mode the definition asks for.
    pub fn forward_mode(&self) -> (r: Result<ForwardMode, TunnelError>)
        ensures
            match r {
                Ok(m) => self@.forward_mode() == Ok::<ForwardMode, TunnelErrorView>(m),
                Err(e) => self@.forward_mode() == Err::<ForwardMode, TunnelErrorView>(e@),
            },
    {
        if str_eq(self.mode.as_str(), "standard") {
            Ok(ForwardMode::Direct)
        } else if str_eq(self.mode.as_str(), "docker") {
            Ok(ForwardMode::Container)
        } else {
            let mut message = String::from_str("Invalid mode: ");
            message.append(self.mode.as_str());
            Err(TunnelError { kind: ErrorKind::Config, message })
        }
    }

    /// The local port of the definition, which must be present and
    /// nonzero.
    pub fn checked_local_port(&self) -> (r: Result<u16, TunnelError>)
        ensures
            match r {
                Ok(p) => self@.checked_local_port() == Ok::<u16, TunnelErrorView>(p),
                Err(e) => self@.checked_local_port() == Err::<u16, TunnelErrorView>(e@),
            },
    {
        match self.local_port {
            Some(p) => if p == 0 {
                Err(TunnelError::new(ErrorKind::Config, "Local port must be between 1 and 65535"))
            } else {
                Ok(p)
            },
            None => Err(TunnelError::new(ErrorKind::Config, "Local port missing")),
        }
    }

    /// The forwarding of a container definition once the container's
    /// address `ip` is known.
    pub fn container_forward(&self, ip: String) -> (r: Result<SshForwardConfig, TunnelError>)
        ensures
            result_view(r) == self@.container_forward(ip@),
    {
        match self.checked_local_port() {
            Err(e) => Err(e),
            Ok(local_port) => Ok(
                SshForwardConfig {
                    local_host: String::from_str("127.0.0.1"),
                    local_port,
                    remote_host: ip,
                    remote_port: match self.container_port {
                        Some(p) => p,
                        None => DEFAULT_CONTAINER_PORT,
                    },
                },
            ),
        }
    }
}

impl TunnelAuth {
    /// Reads the credentials out of a definition.
    ///
    /// Fails with a configuration error when the secret that the
    /// authentication type calls for is absent, or when the type is
    /// neither `"password"` nor `"key"`.
    pub fn try_from(value: &TunnelConfig) -> (r: Result<TunnelAuth, TunnelError>)
        ensures
            result_view(r) == value@.auth(),
    {
        if str_eq(value.auth_type.as_str(), "password") {
            match &value.ssh_password {
                Some(p) => Ok(TunnelAuth::Password(p.clone())),
                None => Err(
                    TunnelError::new(
                        ErrorKind::Config,
                        "Password not provided for password authentication",
                    ),
                ),
            }
        } else if str_eq(value.auth_type.as_str(), "key") {
            match &value.ssh_key_path {
                Some(k) => Ok(TunnelAuth::Key(k.clone())),
                None => Err(
                    TunnelError::new(
                        ErrorKind::Config,
                        "Key path not provided for key authentication",
                    ),
                ),
            }
        } else {
            let mut message = String::from_str("Invalid auth type: ");
            message.append(value.auth_type.as_str());
            Err(TunnelError { kind: ErrorKind::Config, message })
        }
    }
}

/// The SSH endpoint and the credentials to use against it.
#[derive(Debug, PartialEq, Eq)]
pub struct SshConnectConfig {
    pub ssh_host: String,
    pub ssh_port: u16,
    pub ssh_user: String,
    pub auth: TunnelAuth,
}

/// The mathematical value of an [`SshConnectConfig`].
pub struct SshConnectConfigView {
    pub ssh_host: Seq<char>,
    pub ssh_port: u16,
    pub ssh_user: Seq<char>,
    pub auth: TunnelAuthView,
}

impl View for SshConnectConfig {
    type V = SshConnectConfigView;

    open spec fn view(&self) -> SshConnectConfigView {
        SshConnectConfigView {
            ssh_host: self.ssh_host@,
            ssh_port: self.ssh_port,
            ssh_user: self.ssh_user@,
            auth: self.auth@,
        }
    }
}

impl Clone for SshConnectConfig {
    fn clone(&self) -> (r: Self)
        ensures
            r == *self,
    {
        SshConnectConfig {
            ssh_host: self.ssh_host.clone(),
            ssh_port: self.ssh_port,
            ssh_user: self.ssh_user.clone(),
            auth: self.auth.clone(),
        }
    }
}

impl SshConnectConfig {
    /// The SSH endpoint and credentials of a definition; fails exactly
    /// when its credentials cannot be read.
    pub fn try_from(db_config: &TunnelConfig) -> (r: Result<SshConnectConfig, TunnelError>)
        ensures
            result_view(r) == db_config@.connect_config(),
    {
        match TunnelAuth::try_from(db_config) {
            Err(e) => Err(e),
            Ok(auth) => Ok(
                SshConnectConfig {
                    ssh_host: db_config.ssh_host.clone(),
                    ssh_port: db_config.ssh_port,
                    ssh_user: db_config.ssh_username.clone(),
                    auth,
                },
            ),
        }
    }
}

/// One forwarding: the local listener and the remote target.
#[derive(Debug, PartialEq, Eq)]
pub struct SshForwardConfig {
    pub local_host: String,
    pub local_port: u16,
    pub remote_host: String,
    pub remote_port: u16,
}

/// The mathematical value of an [`SshForwardConfig`].
pub struct SshForwardConfigView {
    pub local_host: Seq<char>,
    pub local_port: u16,
    pub remote_host: Seq<char>,
    pub remote_port: u16,
}

impl View for SshForwardConfig {
    type V = SshForwardConfigView;

    open spec fn view(&self) -> SshForwardConfigView {
        SshForwardConfigView {
            local_host: self.local_host@,
            local_port: self.local_port,
            remote_host: self.remote_host@,
            remote_port: self.remote_port,
        }
    }
}

impl Clone for SshForwardConfig {
    fn clone(&self) -> (r: Self)
        ensures
            r == *self,
    {
        SshForwardConfig {
            local_host: self.local_host.clone(),
            local_port: self.local_port,
            remote_host: self.remote_host.clone(),
            remote_port: self.remote_port,
        }
    }
}

impl SshForwardConfig {
    /// The forwarding of a direct definition.
    ///
    /// Fails with a configuration error for a container definition, for
    /// a local port that is absent or zero, and for an absent target.
    pub fn try_from(db_config: &TunnelConfig) -> (r: Result<SshForwardConfig, TunnelError>)
        ensures
            result_view(r) == db_config@.direct_forward(),
    {
        if str_eq(db_config.mode.as_str(), "docker") {
            return Err(TunnelError::new(ErrorKind::Config, "type error"));
        }
        let local_port = match db_config.checked_local_port() {
            Err(e) => {
                return Err(e);
            },
            Ok(p) => p,
        };
        let remote_host = match &db_config.target_host {
            None => {
                return Err(TunnelError::new(ErrorKind::Config, "Target host missing"));
            },
            Some(h) => h.clone(),
        };
        let remote_port = match db_config.target_port {
            None => {
                return Err(TunnelError::new(ErrorKind::Config, "Target port missing"));
            },
            Some(p) => p,
        };
        Ok(
            SshForwardConfig {
                local_host: String::from_str("127.0.0.1"),
                local_port,
                remote_host,
                remote_port,
            },
        )
    }
}

/// What starting a tunnel will do, decided from its definition alone.
#[derive(Debug, PartialEq, Eq)]
pub enum StartPlan {
    /// Connect, then forward to a fixed target.
    Direct { connect: SshConnectConfig, forward: SshForwardConfig },
    /// Connect, look up the named container, then forward to it.
    Container { connect: SshConnectConfig, container_name: String },
}

/// The mathematical value of a [`StartPlan`].
pub enum StartPlanView {
    Direct { connect: SshConnectConfigView, forward: SshForwardConfigView },
    Container { connect: SshConnectConfigView, container_name: Seq<char> },
}

impl View for StartPlan {
    type V = StartPlanView;

    open spec fn view(&self) -> StartPlanView {
        match self {
            StartPlan::Direct { connect, forward } => StartPlanView::Direct {
                connect: connect@,
                forward: forward@,
            },
            StartPlan::Container { connect, container_name } => StartPlanView::Container {
                connect: connect@,
                container_name: container_name@,
            },
        }
    }
}

impl TunnelConfigView {
    /// What starting the tunnel will do, or the configuration error
    /// that keeps it from starting: unreadable credentials, an unknown
    /// mode, a local port that is absent or zero, an absent target
    /// (direct mode) or an absent container name (container mode), in
    /// this order.
    pub open spec fn start_plan(self) -> Result<StartPlanView, TunnelErrorView> {
        match self.connect_config() {
            Err(e) => Err(e),
            Ok(connect) => match self.forward_mode() {
                Err(e) => Err(e),
                Ok(ForwardMode::Direct) => match self.direct_forward() {
                    Err(e) => Err(e),
                    Ok(forward) => Ok(StartPlanView::Direct { connect, forward }),
                },
                Ok(ForwardMode::Container) => match self.checked_local_port() {
                    Err(e) => Err(e),
                    Ok(_) => match self.container_name {
                        None => Err(config_error("Container name missing"@)),
                        Some(container_name) => Ok(
                            StartPlanView::Container { connect, container_name },
                        ),
                    },
                },
            },
        }
    }

    /// Whether the definition may be stored: its identifier must spell
    /// the UUID `id`, its SSH port must not be zero, and it must have a
    /// start plan. `parsed` is what parsing the identifier gave.
    pub open spec fn checked(self, parsed: Option<u128>) -> Result<u128, TunnelErrorView> {
        match parsed {
            None => Err(invalid_id(self.id)),
            Some(id) => if self.ssh_port == 0 {
                Err(config_error("SSH port must be between 1 and 65535"@))
            } else {
                match self.start_plan() {
                    Err(e) => Err(e),
                    Ok(_) => Ok(id),
                }
            },
        }
    }
}

impl TunnelConfig {
    /// What starting the tunnel will do, or the configuration error
    /// that keeps it from starting.
    pub fn start_plan(&self) -> (r: Result<StartPlan, TunnelError>)
        ensures
            result_view(r) == self@.start_plan(),
    {
        let connect = match SshConnectConfig::try_from(self) {
            Err(e) => {
                return Err(e);
            },
            Ok(c) => c,
        };
        match self.forward_mode() {
            Err(e) => Err(e),
            Ok(ForwardMode::Direct) => match SshForwardConfig::try_from(self) {
                Err(e) => Err(e),
                Ok(forward) => Ok(StartPlan::Direct { connect, forward }),
            },
            Ok(ForwardMode::Container) => match self.checked_local_port() {
                Err(e) => Err(e),
                Ok(_) => match &self.container_name {
                    None => Err(TunnelError::new(ErrorKind::Config, "Container name missing")),
                    Some(name) => Ok(
                        StartPlan::Container { connect, container_name: name.clone() },
                    ),
                },
            },
        }
    }

    /// Checks a definition given what parsing its identifier gave;
    /// returns the key under which the tunnel is registered.
    pub fn check(&self, parsed: Option<u128>) -> (r: Result<u128, TunnelError>)
        ensures
            match r {
                Ok(id) => self@.checked(parsed) == Ok::<u128, TunnelErrorView>(id),
                Err(e) => self@.checked(parsed) == Err::<u128, TunnelErrorView>(e@),
            },
    {
        let id = match id_or_error(parsed, self.id.as_str()) {
            Err(e) => {
                return Err(e);
            },
            Ok(id) => id,
        };
        if self.ssh_port == 0 {
            return Err(TunnelError::new(ErrorKind::Config, "SSH port must be between 1 and 65535"));
        }
        match self.start_plan() {
            Err(e) => Err(e),
            Ok(_) => Ok(id),
        }
    }

    /// Checks a definition before it is stored: it is rejected unless
    /// its identifier is a UUID, its ports are in `1..=65535` and its
    /// mode, credentials and forwarding fields fit together. Returns
    /// the key under which the tunnel is registered.
    pub fn validate(&self) -> (r: Result<u128, TunnelError>)
        ensures
            match r {
                Ok(id) => self@.checked(uuid_value(self.id@)) == Ok::<u128, TunnelErrorView>(id),
                Err(e) => self@.checked(uuid_value(self.id@)) == Err::<u128, TunnelErrorView>(
                    e@,
                ),
            },
    {
        self.check(parse_uuid(self.id.as_str()))
    }
}

/// A definition whose local port is zero is rejected when it is
/// checked, whatever else it holds, and has no start plan.
pub proof fn lemma_zero_local_port_rejected(config: TunnelConfigView, parsed: Option<u128>)
    requires
        config.local_port == Some(0u16),
    ensures
        config.checked(parsed) is Err,
        config.start_plan() is Err,
{
}

/// A definition that passes the check has its ports in `1..=65535`
/// and a start plan.
pub proof fn lemma_checked_definition(config: TunnelConfigView, parsed: Option<u128>)
    requires
        config.checked(parsed) is Ok,
    ensures
        parsed == Some(config.checked(parsed)->Ok_0),
        config.ssh_port >= 1,
        config.local_port is Some,
        config.local_port->Some_0 >= 1,
        config.start_plan() is Ok,
{
}

/// The SSH endpoint and credentials as the container picker sends
/// them.
#[derive(Debug, PartialEq, Eq)]
pub struct SshParams {
    pub host: String,
    pub port: u16,
    pub username: String,
    /// `"key"` for public-key authentication; anything else means
    /// password authentication.
    pub auth_type: String,
    pub private_key_path: Option<String>,
    pub password: Option<String>,
}

/// The mathematical value of an [`SshParams`].
pub struct SshParamsView {
    pub host: Seq<char>,
    pub port: u16,
    pub username: Seq<char>,
    pub auth_type: Seq<char>,
    pub private_key_path: Option<Seq<char>>,
    pub password: Option<Seq<char>>,
}

impl View for SshParams {
    type V = SshParamsView;

    open spec fn view(&self) -> SshParamsView {
        SshParamsView {
            host: self.host@,
            port: self.port,
            username: self.username@,
            auth_type: self.auth_type@,
            private_key_path: opt_view(self.private_key_path),
            password: opt_view(self.password),
        }
    }
}

impl SshParamsView {
    /// The endpoint and credentials to connect with: the key for the
    /// authentication type `"key"`, the password for any other; the
    /// one that is called for must be present.
    pub open spec fn connect_config(self) -> Result<SshConnectConfigView, TunnelErrorView> {
        if self.auth_type == "key"@ {
            match self.private_key_path {
                None => Err(config_error("Private key path required for key auth"@)),
                Some(k) => Ok(
                    SshConnectConfigView {
                        ssh_host: self.host,
                        ssh_port: self.port,
                        ssh_user: self.username,
                        auth: TunnelAuthView::Key(k),
                    },
                ),
            }
        } else {
            match self.password {
                None => Err(config_error("Password required for password auth"@)),
                Some(p) => Ok(
                    SshConnectConfigView {
                        ssh_host: self.host,
                        ssh_port: self.port,
                        ssh_user: self.username,
                        auth: TunnelAuthView::Password(p),
                    },
                ),
            }
        }
    }
}

impl SshParams {
    /// The endpoint and credentials to connect with.
    pub fn connect_config(&self) -> (r: Result<SshConnectConfig, TunnelError>)
        ensures
            result_view(r) == self@.connect_config(),
    {
        let auth = if str_eq(self.auth_type.as_str(), "key") {
            match &self.private_key_path {
                None => {
                    return Err(
                        TunnelError::new(
                            ErrorKind::Config,
                            "Private key path required for key auth",
                        ),
                    );
                },
                Some(k) => TunnelAuth::Key(k.clone()),
            }
        } else {
            match &self.password {
                None => {
                    return Err(
                        TunnelError::new(ErrorKind::Config, "Password required for password auth"),
                    );
                },
                Some(p) => TunnelAuth::Password(p.clone()),
            }
        };
        Ok(
            SshConnectConfig {
                ssh_host: self.host.clone(),
                ssh_port: self.port,
                ssh_user: self.username.clone(),
                auth,
            },
        )
    }
}

/// What a session was opened with, and what it forwards once asked to.
#[derive(Debug, PartialEq, Eq)]
pub struct SshConfig {
    pub connect_config: SshConnectConfig,
    pub forward_config: Option<SshForwardConfig>,
}

/// The mathematical value of an [`SshConfig`].
pub struct SshConfigView {
    pub connect_config: SshConnectConfigView,
    pub forward_config: Option<SshForwardConfigView>,
}

impl View for SshConfig {
    type V = SshConfigView;

    open spec fn view(&self) -> SshConfigView {
        SshConfigView {
            connect_config: self.connect_config@,
            forward_config: match self.forward_config {
                Some(f) => Some(f@),
                None => None,
            },
        }
    }
}

impl SshConfigView {
    /// What a fresh session holds: how it connected, and no
    /// forwarding.
    pub open spec fn fresh(connect_config: SshConnectConfigView) -> SshConfigView {
        SshConfigView { connect_config, forward_config: None }
    }
}

impl SshConfig {
    /// A configuration that connects and does not forward yet.
    pub fn new(connect_config: SshConnectConfig) -> (c: SshConfig)
        ensures
            c.connect_config == connect_config,
            c.forward_config is None,
    {
        SshConfig { connect_config, forward_config: None }
    }
}

} // verus!
