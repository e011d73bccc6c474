use vstd::prelude::*;

use crate::transport::DataStream;

verus! {

/// An I/O failure reported by the socket layer or the security backend and
/// passed through unchanged: the operating-system error code. This core adds
/// no failures of its own and swallows none.
#[derive(Clone, Copy, PartialEq, Eq, Structural, Debug)]
pub struct IoError {
    pub code: i32,
}

/// Where a read, write or flush must go: the implementation the live variant
/// dispatches to, and the handle it holds.
#[derive(Clone, Copy, PartialEq, Eq, Structural, Debug)]
pub enum IoTarget {
    /// The bare socket under this handle.
    Tcp(u64),
    /// The security session over the socket under this handle.
    Ssl(u64),
}

/// What the dispatched-to implementation reported of one read.
#[derive(PartialEq, Eq, Debug)]
pub enum ReadEvent {
    /// Bytes arrived, as many as one blocking read yielded.
    Data(Vec<u8>),
    /// The read returned zero bytes: the peer has closed the connection.
    Closed,
    /// The read failed.
    Failed(IoError),
}

/// What a read gives the caller.
#[derive(PartialEq, Eq, Debug)]
pub enum ReadOutcome {
    /// The bytes the peer sent, exactly as they arrived.
    Bytes(Vec<u8>),
    /// The peer has closed; no more bytes will come. End of stream is a normal
    /// outcome, not an error.
    EndOfStream,
}

/// What the dispatched-to implementation reported of one write.
#[derive(Clone, Copy, PartialEq, Eq, Structural, Debug)]
pub enum WriteEvent {
    /// It accepted this many bytes from the front of what it was handed; a
    /// partial write is the socket layer's own behaviour, passed through.
    Accepted(usize),
    /// The write failed.
    Failed(IoError),
}

/// What the dispatched-to implementation reported of one flush.
#[derive(Clone, Copy, PartialEq, Eq, Structural, Debug)]
pub enum FlushEvent {
    /// All buffered bytes reached the wire.
    Flushed,
    /// The flush failed.
    Failed(IoError),
}

/// One write, ready for the dispatched-to implementation: the target, and the
/// very bytes to send.
#[derive(PartialEq, Eq, Debug)]
pub struct WriteAction {
    pub target: IoTarget,
    pub bytes: Vec<u8>,
}

impl DataStream {
    /// Where this stream's reads, writes and flushes go: the bare socket when
    /// plain, the security session when secured.
    pub open spec fn io_target_spec(self) -> IoTarget {
        match self {
            DataStream::Tcp(s) => IoTarget::Tcp(s.handle),
            DataStream::Ssl(sess) => IoTarget::Ssl(sess.socket.handle),
        }
    }

    /// The dispatch every read, write and flush makes: to the live variant's
    /// own implementation, and nowhere else.
    pub fn io_target(&self) -> (r: IoTarget)
        ensures
            r == self.io_target_spec(),
    {
        match self {
            DataStream::Tcp(s) => IoTarget::Tcp(s.handle),
            DataStream::Ssl(sess) => IoTarget::Ssl(sess.socket.handle),
        }
    }

    /// The write this stream makes of the caller's bytes: the live variant's
    /// target, and the bytes exactly as given — this core adds no buffering,
    /// no framing, no reordering.
    pub open spec fn write_action_spec(self, data: Vec<u8>) -> WriteAction {
        WriteAction { target: self.io_target_spec(), bytes: data }
    }

    /// Prepares one write of `data` through this stream. The action carries
    /// the caller's bytes unchanged; the surrounding program performs it and
    /// hands what was reported to `complete_write`.
    pub fn write_action(&self, data: Vec<u8>) -> (r: WriteAction)
        ensures
            r == self.write_action_spec(data),
    {
        WriteAction { target: self.io_target(), bytes: data }
    }

    /// What one read's report means to the caller, whichever variant is live:
    /// arrived bytes pass through unchanged; a peer's close is end of stream,
    /// not an error; a failure is the underlying error, unchanged.
    pub open spec fn read_result_spec(self, event: ReadEvent) -> Result<ReadOutcome, IoError> {
        match event {
            ReadEvent::Data(bytes) => Ok(ReadOutcome::Bytes(bytes)),
            ReadEvent::Closed => Ok(ReadOutcome::EndOfStream),
            ReadEvent::Failed(e) => Err(e),
        }
    }

    /// Turns what the live variant's implementation reported of one read at
    /// `io_target` into the caller's result.
    pub fn complete_read(&self, event: ReadEvent) -> (r: Result<ReadOutcome, IoError>)
        ensures
            r == self.read_result_spec(event),
    {
        match event {
            ReadEvent::Data(bytes) => Ok(ReadOutcome::Bytes(bytes)),
            ReadEvent::Closed => Ok(ReadOutcome::EndOfStream),
            ReadEvent::Failed(e) => Err(e),
        }
    }

    /// What one write's report means to the caller: the accepted count or the
    /// underlying error, unchanged either way.
    pub open spec fn write_result_spec(self, event: WriteEvent) -> Result<usize, IoError> {
        match event {
            WriteEvent::Accepted(n) => Ok(n),
            WriteEvent::Failed(e) => Err(e),
        }
    }

    /// Turns what the live variant's implementation reported of one performed
    /// `write_action` into the caller's result.
    pub fn complete_write(&self, event: WriteEvent) -> (r: Result<usize, IoError>)
        ensures
            r == self.write_result_spec(event),
    {
        match event {
            WriteEvent::Accepted(n) => Ok(n),
            WriteEvent::Failed(e) => Err(e),
        }
    }

    /// What one flush's report means to the caller: done, or the underlying
    /// error, unchanged.
    pub open spec fn flush_result_spec(self, event: FlushEvent) -> Result<(), IoError> {
        match event {
            FlushEvent::Flushed => Ok(()),
            FlushEvent::Failed(e) => Err(e),
        }
    }

    /// Turns what the live variant's implementation reported of one flush at
    /// `io_target` into the caller's result.
    pub fn complete_flush(&self, event: FlushEvent) -> (r: Result<(), IoError>)
        ensures
            r == self.flush_result_spec(event),
    {
        match event {
            FlushEvent::Flushed => Ok(()),
            FlushEvent::Failed(e) => Err(e),
        }
    }
}

} // verus!
