//! Bringing up a session, step by step: resolve the host, connect,
//! authenticate. Each step's outcome decides the next.

use vstd::prelude::*;
use crate::error::{ErrorKind, TunnelError, TunnelErrorView};
use crate::model::{
    SshConfig, SshConfigView, SshConnectConfig, SshConnectConfigView, TunnelAuth, TunnelAuthView,
};
use crate::ssh::{
    auth_rejected, auth_verdict, first_address, host_port_text, no_address, resolve_target,
    KEEPALIVE_SECS,
};

verus! {

/// How far the setup has come.
#[derive(Clone, Copy, Debug, PartialEq, Eq, Structural)]
pub enum SetupPhase {
    /// The host name is being resolved.
    Resolving,
    /// The connection and the handshake are under way.
    Connecting,
    /// The private key is being read.
    LoadingKey,
    /// The server is considering the credentials.
    Authenticating,
    /// The session is authenticated.
    Ready,
    /// The setup failed.
    Failed,
}

/// What came of the step that was asked for.
#[derive(Debug, PartialEq, Eq)]
pub enum SetupEvent {
    /// The name resolved to these addresses, in this order.
    Resolved(Vec<String>),
    /// The name could not be resolved.
    ResolveFailed,
    /// The connection stands and the handshake is done.
    Connected,
    /// Connecting or the handshake failed, for the given reason.
    ConnectFailed(String),
    /// The private key is read.
    KeyLoaded,
    /// The private key could not be read.
    KeyLoadFailed,
    /// The server answered the authentication request.
    AuthAnswered { success: bool },
    /// The authentication request could not be carried through.
    AuthFailed(String),
}

/// The mathematical value of a [`SetupEvent`].
pub enum SetupEventView {
    Resolved(Seq<Seq<char>>),
    ResolveFailed,
    Connected,
    ConnectFailed(Seq<char>),
    KeyLoaded,
    KeyLoadFailed,
    AuthAnswered { success: bool },
    AuthFailed(Seq<char>),
}

impl View for SetupEvent {
    type V = SetupEventView;

    open spec fn view(&self) -> SetupEventView {
        match self {
            SetupEvent::Resolved(addrs) => SetupEventView::Resolved(addrs.deep_view()),
            SetupEvent::ResolveFailed => SetupEventView::ResolveFailed,
            SetupEvent::Connected => SetupEventView::Connected,
            SetupEvent::ConnectFailed(reason) => SetupEventView::ConnectFailed(reason@),
            SetupEvent::KeyLoaded => SetupEventView::KeyLoaded,
            SetupEvent::KeyLoadFailed => SetupEventView::KeyLoadFailed,
            SetupEvent::AuthAnswered { success } => SetupEventView::AuthAnswered {
                success: *success,
            },
            SetupEvent::AuthFailed(reason) => SetupEventView::AuthFailed(reason@),
        }
    }
}

/// The step to take next.
#[derive(Debug, PartialEq, Eq)]
pub enum SetupAction {
    /// Resolve this `host:port`.
    Resolve { target: String },
    /// Connect to this address and shake hands, asking for keepalives
    /// at this interval; accept whatever host key the server shows.
    Connect { address: String, keepalive_secs: u64 },
    /// Read the private key at this path; it must not be encrypted.
    LoadKey { path: String },
    /// Authenticate this user with this password.
    AuthenticatePassword { user: String, password: String },
    /// Authenticate this user with the key that was read, signing
    /// with the best RSA hash the server advertises where that
    /// applies.
    AuthenticateKey { user: String },
    /// The session is ready; this is what it holds: how it was opened,
    /// and no forwarding yet.
    Done(SshConfig),
    /// The setup failed with this error; drop what was set up.
    Fail(TunnelError),
    /// The event did not fit; nothing to do.
    Ignore,
}

/// The mathematical value of a [`SetupAction`].
pub enum SetupActionView {
    Resolve { target: Seq<char> },
    Connect { address: Seq<char>, keepalive_secs: u64 },
    LoadKey { path: Seq<char> },
    AuthenticatePassword { user: Seq<char>, password: Seq<char> },
    AuthenticateKey { user: Seq<char> },
    Done(SshConfigView),
    Fail(TunnelErrorView),
    Ignore,
}

impl View for SetupAction {
    type V = SetupActionView;

    open spec fn view(&self) -> SetupActionView {
        match self {
            SetupAction::Resolve { target } => SetupActionView::Resolve { target: target@ },
            SetupAction::Connect { address, keepalive_secs } => SetupActionView::Connect {
                address: address@,
                keepalive_secs: *keepalive_secs,
            },
            SetupAction::LoadKey { path } => SetupActionView::LoadKey { path: path@ },
            SetupAction::AuthenticatePassword { user, password } => {
                SetupActionView::AuthenticatePassword { user: user@, password: password@ }
            },
            SetupAction::AuthenticateKey { user } => SetupActionView::AuthenticateKey {
                user: user@,
            },
            SetupAction::Done(config) => SetupActionView::Done(config@),
            SetupAction::Fail(e) => SetupActionView::Fail(e@),
            SetupAction::Ignore => SetupActionView::Ignore,
        }
    }
}

/// The error for a name that could not be resolved.
pub open spec fn resolve_failed() -> TunnelErrorView {
    TunnelErrorView { kind: ErrorKind::Resolution, message: "Failed to resolve hostname"@ }
}

/// The error for a connection, handshake or request that failed for
/// the given reason.
pub open spec fn transport_failed(reason: Seq<char>) -> TunnelErrorView {
    TunnelErrorView { kind: ErrorKind::Connect, message: reason }
}

/// The error for a private key that could not be read.
pub open spec fn key_unreadable() -> TunnelErrorView {
    TunnelErrorView { kind: ErrorKind::Config, message: "Failed to load private key"@ }
}

/// The error for a connection, handshake or request that failed for
/// the given reason.
pub fn transport_failure(reason: &str) -> (e: TunnelError)
    ensures
        e@ == transport_failed(reason@),
{
    TunnelError::new(ErrorKind::Connect, reason)
}

/// The first step of a setup: resolving the SSH endpoint.
pub open spec fn first_step(config: SshConnectConfigView) -> SetupActionView {
    SetupActionView::Resolve { target: host_port_text(config.ssh_host, config.ssh_port) }
}

/// The phase after `event` arrived in `phase`, and the step to take.
///
/// Resolution that yields no address, a failed connection, an
/// unreadable key and an authentication that does not report success
/// each fail the setup. The first address is the one connected to. A
/// password is offered as soon as the connection stands; a key is
/// read first. An event that does not fit the phase changes nothing.
pub open spec fn setup_step(
    config: SshConnectConfigView,
    phase: SetupPhase,
    event: SetupEventView,
) -> (SetupPhase, SetupActionView) {
    match (phase, event) {
        (SetupPhase::Resolving, SetupEventView::Resolved(addrs)) => if addrs.len() == 0 {
            (SetupPhase::Failed, SetupActionView::Fail(no_address()))
        } else {
            (
                SetupPhase::Connecting,
                SetupActionView::Connect { address: addrs[0], keepalive_secs: KEEPALIVE_SECS },
            )
        },
        (SetupPhase::Resolving, SetupEventView::ResolveFailed) => (
            SetupPhase::Failed,
            SetupActionView::Fail(resolve_failed()),
        ),
        (SetupPhase::Connecting, SetupEventView::Connected) => match config.auth {
            TunnelAuthView::Password(password) => (
                SetupPhase::Authenticating,
                SetupActionView::AuthenticatePassword { user: config.ssh_user, password },
            ),
            TunnelAuthView::Key(path) => (SetupPhase::LoadingKey, SetupActionView::LoadKey { path }),
        },
        (SetupPhase::Connecting, SetupEventView::ConnectFailed(reason)) => (
            SetupPhase::Failed,
            SetupActionView::Fail(transport_failed(reason)),
        ),
        (SetupPhase::LoadingKey, SetupEventView::KeyLoaded) => (
            SetupPhase::Authenticating,
            SetupActionView::AuthenticateKey { user: config.ssh_user },
        ),
        (SetupPhase::LoadingKey, SetupEventView::KeyLoadFailed) => (
            SetupPhase::Failed,
            SetupActionView::Fail(key_unreadable()),
        ),
        (SetupPhase::Authenticating, SetupEventView::AuthAnswered { success }) => if success {
            (SetupPhase::Ready, SetupActionView::Done(SshConfigView::fresh(config)))
        } else {
            (SetupPhase::Failed, SetupActionView::Fail(auth_rejected()))
        },
        (SetupPhase::Authenticating, SetupEventView::AuthFailed(reason)) => (
            SetupPhase::Failed,
            SetupActionView::Fail(transport_failed(reason)),
        ),
        _ => (phase, SetupActionView::Ignore),
    }
}

/// The setup of one session.
#[derive(Debug, PartialEq, Eq)]
pub struct SessionSetup {
    pub config: SshConnectConfig,
    pub phase: SetupPhase,
}

impl SessionSetup {
    /// Begins the setup of a session for `config`; returns the setup
    /// and its first step.
    pub fn begin(config: SshConnectConfig) -> (r: (SessionSetup, SetupAction))
        ensures
            r.0.config == config,
            r.0.phase == SetupPhase::Resolving,
            r.1@ == first_step(config@),
    {
        let target = resolve_target(&config);
        (SessionSetup { config, phase: SetupPhase::Resolving }, SetupAction::Resolve { target })
    }

    /// Takes in what came of the last step and answers with the next,
    /// as [`setup_step`] defines.
    pub fn on_event(&mut self, event: SetupEvent) -> (action: SetupAction)
        ensures
            final(self).config == old(self).config,
            (final(self).phase, action@) == setup_step(old(self).config@, old(self).phase, event@),
    {
        match (self.phase, event) {
            (SetupPhase::Resolving, SetupEvent::Resolved(addrs)) => match first_address(addrs) {
                Err(e) => {
                    self.phase = SetupPhase::Failed;
                    SetupAction::Fail(e)
                },
                Ok(address) => {
                    self.phase = SetupPhase::Connecting;
                    SetupAction::Connect { address, keepalive_secs: KEEPALIVE_SECS }
                },
            },
            (SetupPhase::Resolving, SetupEvent::ResolveFailed) => {
                self.phase = SetupPhase::Failed;
                SetupAction::Fail(
                    TunnelError::new(ErrorKind::Resolution, "Failed to resolve hostname"),
                )
            },
            (SetupPhase::Connecting, SetupEvent::Connected) => match &self.config.auth {
                TunnelAuth::Password(password) => {
                    let action = SetupAction::AuthenticatePassword {
                        user: self.config.ssh_user.clone(),
                        password: password.clone(),
                    };
                    self.phase = SetupPhase::Authenticating;
                    action
                },
                TunnelAuth::Key(path) => {
                    let action = SetupAction::LoadKey { path: path.clone() };
                    self.phase = SetupPhase::LoadingKey;
                    action
                },
            },
            (SetupPhase::Connecting, SetupEvent::ConnectFailed(reason)) => {
                self.phase = SetupPhase::Failed;
                SetupAction::Fail(TunnelError { kind: ErrorKind::Connect, message: reason })
            },
            (SetupPhase::LoadingKey, SetupEvent::KeyLoaded) => {
                self.phase = SetupPhase::Authenticating;
                SetupAction::AuthenticateKey { user: self.config.ssh_user.clone() }
            },
            (SetupPhase::LoadingKey, SetupEvent::KeyLoadFailed) => {
                self.phase = SetupPhase::Failed;
                SetupAction::Fail(TunnelError::new(ErrorKind::Config, "Failed to load private key"))
            },
            (SetupPhase::Authenticating, SetupEvent::AuthAnswered { success }) => {
                match auth_verdict(success) {
                    Ok(_) => {
                        self.phase = SetupPhase::Ready;
                        SetupAction::Done(SshConfig::new(self.config.clone()))
                    },
                    Err(e) => {
                        self.phase = SetupPhase::Failed;
                        SetupAction::Fail(e)
                    },
                }
            },
            (SetupPhase::Authenticating, SetupEvent::AuthFailed(reason)) => {
                self.phase = SetupPhase::Failed;
                SetupAction::Fail(TunnelError { kind: ErrorKind::Connect, message: reason })
            },
            _ => SetupAction::Ignore,
        }
    }
}

/// The phase a setup is in after it took in `events` in order.
pub open spec fn phase_after(
    config: SshConnectConfigView,
    phase: SetupPhase,
    events: Seq<SetupEventView>,
) -> SetupPhase
    decreases events.len(),
{
    if events.len() == 0 {
        phase
    } else {
        phase_after(config, setup_step(config, phase, events[0]).0, events.drop_first())
    }
}

/// No session is ready unless the server reported that the
/// authentication succeeded: whatever a setup is fed, it ends ready
/// only if it was ready before or one of the events is the server's
/// answer of success.
pub proof fn lemma_ready_needs_success(
    config: SshConnectConfigView,
    phase: SetupPhase,
    events: Seq<SetupEventView>,
)
    requires
        phase_after(config, phase, events) == SetupPhase::Ready,
        phase != SetupPhase::Ready,
    ensures
        exists|i: int|
            0 <= i < events.len() && #[trigger] events[i] == (SetupEventView::AuthAnswered {
                success: true,
            }),
    decreases events.len(),
{
    if events.len() > 0 {
        let next = setup_step(config, phase, events[0]).0;
        let rest = events.drop_first();
        if next == SetupPhase::Ready {
            assert(events[0] == (SetupEventView::AuthAnswered { success: true }));
        } else {
            lemma_ready_needs_success(config, next, rest);
            let i = choose|i: int|
                0 <= i < rest.len() && #[trigger] rest[i] == (SetupEventView::AuthAnswered {
                    success: true,
                });
            assert(events[i + 1] == rest[i]);
        }
    }
}

/// A setup that has failed or is ready stays so, and asks for nothing
/// more.
pub proof fn lemma_setup_ends(config: SshConnectConfigView, phase: SetupPhase, event: SetupEventView)
    requires
        phase == SetupPhase::Ready || phase == SetupPhase::Failed,
    ensures
        setup_step(config, phase, event) == (phase, SetupActionView::Ignore),
{
}

} // verus!
