use ftp4::socket::{Addr, DupOutcome, Socket};
use ftp4::transport::{
    DataStream, DowngradeError, DowngradeStep, HandshakeOutcome, SslSession, UpgradeError,
};

fn sample_socket() -> Socket {
    Socket {
        handle: 7,
        local: Addr { ip: 0x7f000001, port: 50210 },
        peer: Addr { ip: 0x7f000001, port: 21 },
    }
}

#[test]
fn plain_stream_is_not_secured() {
    let t = DataStream::wrap_plain(sample_socket());
    assert!(!t.is_ssl());
}

#[test]
fn secured_stream_reports_secured() {
    let t = match DataStream::finish_upgrade(sample_socket(), HandshakeOutcome::Established) {
        Ok(t) => t,
        Err(_) => panic!("an established handshake must secure the stream"),
    };
    assert!(t.is_ssl());
}

#[test]
fn get_ref_shows_the_wrapped_socket() {
    let s = sample_socket();
    let t = DataStream::wrap_plain(s);
    assert_eq!(*t.get_ref(), s);
}

#[test]
fn upgrade_keeps_the_same_socket() {
    let s = sample_socket();
    let plain = DataStream::wrap_plain(s);
    let before = *plain.get_ref();
    let sock = match plain.begin_upgrade() {
        Ok(sock) => sock,
        Err(_) => panic!("a plain stream must be allowed to begin an upgrade"),
    };
    let secured = match DataStream::finish_upgrade(sock, HandshakeOutcome::Established) {
        Ok(t) => t,
        Err(_) => panic!("an established handshake must secure the stream"),
    };
    let after = *secured.get_ref();
    assert_eq!(after, before);
    assert_eq!(after.local, before.local);
    assert_eq!(after.peer, before.peer);
}

#[test]
fn refused_handshake_returns_the_open_socket() {
    let s = sample_socket();
    let r = DataStream::finish_upgrade(s, HandshakeOutcome::Refused);
    assert_eq!(r, Err(UpgradeError::HandshakeFailed(s)));
}

#[test]
fn second_upgrade_is_already_secured() {
    let s = sample_socket();
    let first = match DataStream::finish_upgrade(s, HandshakeOutcome::Established) {
        Ok(t) => t,
        Err(_) => panic!("an established handshake must secure the stream"),
    };
    match first.begin_upgrade() {
        Err(UpgradeError::AlreadySecured(back)) => {
            assert!(back.is_ssl());
            assert_eq!(*back.get_ref(), s);
        }
        _ => panic!("a second upgrade must be rejected as AlreadySecured"),
    }
}

#[test]
fn downgrade_of_a_plain_stream_is_ready_at_once() {
    let s = sample_socket();
    let t = DataStream::wrap_plain(s);
    assert_eq!(t.begin_downgrade(), DowngradeStep::Ready(s));
}

#[test]
fn downgrade_duplicates_the_handle_and_keeps_the_addresses() {
    let s = sample_socket();
    let secured = match DataStream::finish_upgrade(s, HandshakeOutcome::Established) {
        Ok(t) => t,
        Err(_) => panic!("an established handshake must secure the stream"),
    };
    let sess = match secured.begin_downgrade() {
        DowngradeStep::Duplicate(sess) => sess,
        DowngradeStep::Ready(_) => panic!("a secured stream must need a duplication"),
    };
    let d = match sess.finish_downgrade(DupOutcome::Duplicated(42)) {
        Ok(d) => d,
        Err(_) => panic!("a granted duplicate must complete the downgrade"),
    };
    assert_eq!(d.handle, 42);
    assert_eq!(d.local, s.local);
    assert_eq!(d.peer, s.peer);
    let plain_again = DataStream::wrap_plain(d);
    assert!(!plain_again.is_ssl());
}

#[test]
fn exhausted_duplication_returns_the_session() {
    let sess = SslSession { socket: sample_socket() };
    let r = sess.finish_downgrade(DupOutcome::Exhausted);
    assert_eq!(
        r,
        Err(DowngradeError::HandleDuplicationFailed(SslSession { socket: sample_socket() }))
    );
}
