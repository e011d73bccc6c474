use vstd::prelude::*;

use crate::socket::DupOutcome;
use crate::socket::Socket;

verus! {

/// The security session the TLS backend holds open over a socket. The backend
/// object itself lives with the surrounding program; this core keeps what the
/// client's logic reads of it: the socket the session wraps.
#[derive(PartialEq, Eq, Structural, Debug)]
pub struct SslSession {
    pub socket: Socket,
}

/// One network connection, at any moment either plaintext or TLS-secured.
///
/// A stream is created plain, over an already-connected socket. It may be
/// upgraded once a handshake succeeds, and downgraded again by duplicating the
/// socket handle out of the session. Both transitions consume the old value
/// and yield a new one over the same connection: in either variant exactly one
/// underlying socket exists, and no operation here ever opens a new one.
#[derive(PartialEq, Eq, Structural, Debug)]
pub enum DataStream {
    Tcp(Socket),
    Ssl(SslSession),
}

/// What the security backend reported of a handshake it ran over a plain
/// socket. Whether the certificate and the expected peer identity check out is
/// the backend's own judgement; this core only acts on it.
#[derive(Clone, Copy, PartialEq, Eq, Structural, Debug)]
pub enum HandshakeOutcome {
    /// Negotiation and validation succeeded; a session is open over the socket.
    Established,
    /// Negotiation or validation failed; no session exists. The socket itself
    /// is untouched.
    Refused,
}

/// Why an upgrade did not yield a secured stream.
#[derive(PartialEq, Eq, Structural, Debug)]
pub enum UpgradeError {
    /// Upgrade was asked of a stream that is already secured — a caller error,
    /// never silently ignored. The stream comes back untouched.
    AlreadySecured(DataStream),
    /// The handshake failed. The socket comes back open, for the caller to
    /// retry over, inspect or close; a failed upgrade never closes it.
    HandshakeFailed(Socket),
}

/// Why a downgrade did not yield a plain socket.
#[derive(PartialEq, Eq, Structural, Debug)]
pub enum DowngradeError {
    /// The socket handle could not be duplicated. The session comes back
    /// untouched, so the stream can go on secured.
    HandleDuplicationFailed(SslSession),
}

/// What a downgrade needs next from the surrounding program.
#[derive(PartialEq, Eq, Structural, Debug)]
pub enum DowngradeStep {
    /// The stream was already plain: its socket, unchanged, nothing to do.
    Ready(Socket),
    /// The session's socket handle must be duplicated before the session is
    /// discarded.
    Duplicate(SslSession),
}

impl DataStream {
    /// The one underlying socket, whichever variant is live.
    pub open spec fn socket(self) -> Socket {
        match self {
            DataStream::Tcp(s) => s,
            DataStream::Ssl(sess) => sess.socket,
        }
    }

    /// Wraps an already-connected socket as a plaintext stream. No I/O is
    /// performed; this always succeeds.
    pub fn wrap_plain(socket: Socket) -> (r: DataStream)
        ensures
            r == DataStream::Tcp(socket),
    {
        DataStream::Tcp(socket)
    }

    /// A borrow of the underlying socket, whichever variant is live — for
    /// peer-address inspection, timeout configuration and the like. Never
    /// allocates, never fails.
    pub fn get_ref(&self) -> (r: &Socket)
        ensures
            *r == self.socket(),
    {
        match self {
            DataStream::Tcp(s) => s,
            DataStream::Ssl(sess) => &sess.socket,
        }
    }

    /// Whether the stream is currently secured: a pure read of the variant
    /// tag, with no side effect.
    pub fn is_ssl(&self) -> (r: bool)
        ensures
            r == (self is Ssl),
    {
        match self {
            DataStream::Ssl(_) => true,
            DataStream::Tcp(_) => false,
        }
    }

    /// What beginning an upgrade yields: the socket to handshake over when the
    /// stream is plain, the stream back inside the error otherwise.
    pub open spec fn begin_upgrade_spec(self) -> Result<Socket, UpgradeError> {
        match self {
            DataStream::Tcp(s) => Ok(s),
            DataStream::Ssl(_) => Err(UpgradeError::AlreadySecured(self)),
        }
    }

    /// First half of an upgrade. A plain stream gives up its socket for the
    /// security backend to handshake over, with the caller's security context
    /// and expected peer identity; `finish_upgrade` then acts on the outcome.
    /// Asking this of a stream that is already secured is a caller error: the
    /// stream comes back untouched inside `AlreadySecured`, and no handshake
    /// is run.
    pub fn begin_upgrade(self) -> (r: Result<Socket, UpgradeError>)
        ensures
            r == self.begin_upgrade_spec(),
    {
        match self {
            DataStream::Tcp(s) => Ok(s),
            DataStream::Ssl(sess) => Err(UpgradeError::AlreadySecured(DataStream::Ssl(sess))),
        }
    }

    /// What finishing an upgrade yields for each handshake outcome: a secured
    /// stream over the very same socket, or `HandshakeFailed` carrying that
    /// socket back.
    pub open spec fn finish_upgrade_spec(socket: Socket, outcome: HandshakeOutcome) -> Result<
        DataStream,
        UpgradeError,
    > {
        match outcome {
            HandshakeOutcome::Established => Ok(DataStream::Ssl(SslSession { socket })),
            HandshakeOutcome::Refused => Err(UpgradeError::HandshakeFailed(socket)),
        }
    }

    /// Second half of an upgrade: acts on what the backend reported of the
    /// handshake over `socket`. Success yields a secured stream wrapping that
    /// same socket — same connection, same addresses. Failure yields
    /// `HandshakeFailed` with the socket inside, still open: the caller
    /// decides whether to retry or close, never this core.
    pub fn finish_upgrade(socket: Socket, outcome: HandshakeOutcome) -> (r: Result<
        DataStream,
        UpgradeError,
    >)
        ensures
            r == DataStream::finish_upgrade_spec(socket, outcome),
    {
        match outcome {
            HandshakeOutcome::Established => Ok(DataStream::Ssl(SslSession { socket })),
            HandshakeOutcome::Refused => Err(UpgradeError::HandshakeFailed(socket)),
        }
    }

    /// What beginning a downgrade yields: the socket at once when the stream
    /// is already plain, otherwise the session whose handle must first be
    /// duplicated.
    pub open spec fn begin_downgrade_spec(self) -> DowngradeStep {
        match self {
            DataStream::Tcp(s) => DowngradeStep::Ready(s),
            DataStream::Ssl(sess) => DowngradeStep::Duplicate(sess),
        }
    }

    /// First half of a downgrade. A plain stream hands its socket straight
    /// back; a secured one hands out its session, whose socket handle the
    /// surrounding program must ask the operating system to duplicate before
    /// `SslSession::finish_downgrade` acts on the outcome.
    pub fn begin_downgrade(self) -> (r: DowngradeStep)
        ensures
            r == self.begin_downgrade_spec(),
    {
        match self {
            DataStream::Tcp(s) => DowngradeStep::Ready(s),
            DataStream::Ssl(sess) => DowngradeStep::Duplicate(sess),
        }
    }
}

impl SslSession {
    /// What discarding the session yields for each duplication outcome: a
    /// plain socket under the new handle, over the same connection — same
    /// local address, same peer — or `HandleDuplicationFailed` with the
    /// session back.
    pub open spec fn finish_downgrade_spec(self, outcome: DupOutcome) -> Result<
        Socket,
        DowngradeError,
    > {
        match outcome {
            DupOutcome::Duplicated(handle) => Ok(
                Socket { handle, local: self.socket.local, peer: self.socket.peer },
            ),
            DupOutcome::Exhausted => Err(DowngradeError::HandleDuplicationFailed(self)),
        }
    }

    /// Second half of a downgrade: acts on what the operating system reported
    /// of duplicating the session's socket handle. On success the session is
    /// discarded — deliberately not shut down, since the protocol resumes in
    /// plaintext rather than closing — and the duplicate, a plain socket over
    /// the same connection, is the result, ready for `DataStream::wrap_plain`.
    /// On failure the session comes back untouched.
    pub fn finish_downgrade(self, outcome: DupOutcome) -> (r: Result<Socket, DowngradeError>)
        ensures
            r == self.finish_downgrade_spec(outcome),
    {
        match outcome {
            DupOutcome::Duplicated(handle) => Ok(
                Socket { handle, local: self.socket.local, peer: self.socket.peer },
            ),
            DupOutcome::Exhausted => Err(DowngradeError::HandleDuplicationFailed(self)),
        }
    }
}

} // verus!
