//! The guarantees the transport gives across operations, each proved once and
//! for all inputs: identity of the underlying connection across transitions,
//! the order of transitions the state machine allows, and byte-exact
//! pass-through of the data it carries.

use vstd::prelude::*;

use crate::io::IoError;
use crate::io::IoTarget;
use crate::io::ReadEvent;
use crate::io::ReadOutcome;
use crate::io::WriteAction;
use crate::socket::DupOutcome;
use crate::socket::Socket;
use crate::transport::DataStream;
use crate::transport::DowngradeStep;
use crate::transport::HandshakeOutcome;
use crate::transport::SslSession;
use crate::transport::UpgradeError;

verus! {

/// Identity preservation: a successful upgrade wraps the very socket it was
/// given, and a successful downgrade yields a socket with the same local and
/// the same peer address, so the addresses `get_ref` shows never change across
/// a transition — the connection is never reopened.
pub proof fn lemma_transitions_preserve_the_connection(s: Socket, handle: u64)
    ensures
        ({
            let up = DataStream::finish_upgrade_spec(s, HandshakeOutcome::Established);
            up matches Ok(t) && t.socket() == s
        }),
        ({
            let down = (SslSession { socket: s }).finish_downgrade_spec(
                DupOutcome::Duplicated(handle),
            );
            down matches Ok(d) && d.local == s.local && d.peer == s.peer
        }),
{
}

/// An upgrade follows the backend's judgement and nothing else: a handshake
/// the backend establishes yields a secured stream over the same socket, and
/// one it refuses yields `HandshakeFailed` carrying that socket back to the
/// caller, still open. Whether a given security context and peer identity
/// check out against the peer is the backend's own validation.
pub proof fn lemma_upgrade_follows_the_handshake(s: Socket)
    ensures
        DataStream::finish_upgrade_spec(s, HandshakeOutcome::Established) == Ok::<
            DataStream,
            UpgradeError,
        >(DataStream::Ssl(SslSession { socket: s })),
        DataStream::finish_upgrade_spec(s, HandshakeOutcome::Refused) == Err::<
            DataStream,
            UpgradeError,
        >(UpgradeError::HandshakeFailed(s)),
{
}

/// A second upgrade with no downgrade between is rejected: the stream a
/// successful handshake yields refuses to begin another one, answering
/// `AlreadySecured` with itself untouched inside, and no handshake is run.
pub proof fn lemma_second_upgrade_rejected(s: Socket)
    ensures
        ({
            let up = DataStream::finish_upgrade_spec(s, HandshakeOutcome::Established);
            &&& up matches Ok(t)
            &&& t.begin_upgrade_spec() == Err::<Socket, UpgradeError>(
                UpgradeError::AlreadySecured(t),
            )
        }),
{
}

/// After upgrading a stream and downgrading it again, a write hands the
/// caller's bytes, whole and in order, to the bare socket of the same
/// connection: the downgraded stream's write action targets the plain
/// duplicate and carries the data unchanged.
pub proof fn lemma_write_after_downgrade_is_verbatim(s: Socket, handle: u64, data: Vec<u8>)
    ensures
        ({
            let up = DataStream::finish_upgrade_spec(s, HandshakeOutcome::Established);
            &&& up matches Ok(t)
            &&& t.begin_downgrade_spec() matches DowngradeStep::Duplicate(sess)
            &&& sess.finish_downgrade_spec(DupOutcome::Duplicated(handle)) matches Ok(d)
            &&& d.peer == s.peer
            &&& DataStream::Tcp(d).write_action_spec(data) == (WriteAction {
                target: IoTarget::Tcp(handle),
                bytes: data,
            })
        }),
{
}

/// Write/read round trip: when the wire delivers to the reader exactly what
/// the writer's backend was handed — as a loopback pair does — the reader gets
/// back the very bytes the writer gave, for any pair of variants.
pub proof fn lemma_loopback_round_trip(writer: DataStream, reader: DataStream, data: Vec<u8>)
    ensures
        reader.read_result_spec(ReadEvent::Data(writer.write_action_spec(data).bytes)) == Ok::<
            ReadOutcome,
            IoError,
        >(ReadOutcome::Bytes(data)),
{
}

/// A peer's close surfaces as end of stream, never as an error, whichever
/// variant is live.
pub proof fn lemma_peer_close_is_end_of_stream(t: DataStream)
    ensures
        t.read_result_spec(ReadEvent::Closed) == Ok::<ReadOutcome, IoError>(
            ReadOutcome::EndOfStream,
        ),
{
}

} // verus!
