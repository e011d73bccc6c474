//! Transport core for a file-transfer protocol client.
//!
//! A client session starts a connection in plaintext, may upgrade it in place
//! to a TLS-secured channel, may later downgrade it back to plaintext, and
//! performs all byte I/O through one value, [`transport::DataStream`], without
//! ever branching on which mode is active. A mode transition consumes the old
//! stream and yields a new one over the same underlying socket: the connection
//! is never reopened.
//!
//! The live OS socket and the TLS session object belong to the surrounding
//! program. This core keeps what the client's logic reads of them — the
//! handle, the two addresses, the variant tag — decides every transition and
//! every dispatch, and states exactly what each operation yields for each
//! report the socket layer or the security backend can make.

pub mod io;
pub mod laws;
pub mod socket;
pub mod transport;
