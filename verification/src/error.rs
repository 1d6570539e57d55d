//! The error taxonomy of the tunnel runtime.

use vstd::prelude::*;

verus! {

/// What went wrong, independent of the wording shown to the operator.
#[derive(Clone, Copy, Debug, PartialEq, Eq, Structural)]
pub enum ErrorKind {
    /// The tunnel definition is unusable: bad mode, missing fields, bad id.
    Config,
    /// Name resolution of the SSH host returned no address.
    Resolution,
    /// The server rejected the password or key.
    Auth,
    /// The local port could not be bound.
    Bind,
    /// The TCP connection or the SSH handshake failed.
    Connect,
    /// A forwarded channel did not open in time.
    ChannelOpenTimeout,
    /// A remote command failed or its output did not parse.
    Exec,
    /// A remote command did not finish in time.
    Timeout,
    /// A keepalive probe was not answered in time.
    PingTimeout,
    /// The SSH library reported the session closed.
    SessionDropped,
    /// The actor of a tunnel is no longer listening.
    Internal,
    /// No tunnel is registered under the identifier.
    NotFound,
}

/// An error of the runtime: its kind and the message for the operator.
#[derive(Debug, PartialEq, Eq)]
pub struct TunnelError {
    pub kind: ErrorKind,
    pub message: String,
}

/// The mathematical value of a [`TunnelError`].
pub struct TunnelErrorView {
    pub kind: ErrorKind,
    pub message: Seq<char>,
}

impl View for TunnelError {
    type V = TunnelErrorView;

    open spec fn view(&self) -> TunnelErrorView {
        TunnelErrorView { kind: self.kind, message: self.message@ }
    }
}

impl Clone for TunnelError {
    fn clone(&self) -> (r: Self)
        ensures
            r == *self,
    {
        TunnelError { kind: self.kind, message: self.message.clone() }
    }
}

impl TunnelError {
    /// An error of the given kind carrying `message`.
    pub fn new(kind: ErrorKind, message: &str) -> (e: TunnelError)
        ensures
            e@ == (TunnelErrorView { kind, message: message@ }),
    {
        TunnelError { kind, message: String::from_str(message) }
    }

    /// The message alone, as the operator sees it.
    pub fn to_string(&self) -> (s: String)
        ensures
            s@ == self.message@,
    {
        self.message.clone()
    }
}

/// The view of a result whose error is a [`TunnelError`] and whose value
/// has a view of its own.
pub open spec fn result_view<T: View>(r: Result<T, TunnelError>) -> Result<T::V, TunnelErrorView> {
    match r {
        Ok(v) => Ok(v@),
        Err(e) => Err(e@),
    }
}

/// The error handed across the command boundary: only its message
/// survives.
#[derive(Debug, PartialEq, Eq)]
pub struct CommandError(pub String);

impl View for CommandError {
    type V = Seq<char>;

    open spec fn view(&self) -> Seq<char> {
        self.0@
    }
}

impl CommandError {
    /// Degrades a typed error to its message.
    pub fn from(err: TunnelError) -> (c: CommandError)
        ensures
            c@ == err@.message,
    {
        CommandError(err.message)
    }

    /// The text that is serialised for the caller.
    pub fn to_string(&self) -> (s: String)
        ensures
            s@ == self@,
    {
        self.0.clone()
    }
}

} // verus!
