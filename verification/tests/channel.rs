//! Behavior of bound channels against the real kernel: creation, bind,
//! non-blocking I/O, and descriptor ownership.

use netlink_dgram::{NetlinkDatagram, NetlinkProtocol, Socket};

#[test]
fn raw_socket_lifecycle() {
    let s = Socket::new(NetlinkProtocol::Route).unwrap();
    assert!(s.as_raw_fd() >= 0);
    let mut buf = vec![0u8; 8];
    match s.recv(&mut buf) {
        Ok(n) => assert!(n <= 8),
        Err(e) => assert!(e.is_would_block()),
    }
    assert_eq!(buf.len(), 8);
    match s.send(&[0u8; 4]) {
        Ok(n) => assert!(n <= 4),
        Err(e) => assert!(!e.is_would_block()),
    }
    s.close().unwrap();
}

#[test]
fn bind_route_yields_valid_descriptor() {
    let ch = NetlinkDatagram::bind(NetlinkProtocol::Route, 0).unwrap();
    assert!(ch.as_raw_fd() >= 0);
    ch.close().unwrap();
}

#[test]
fn bind_succeeds_for_always_present_protocols() {
    for p in [
        NetlinkProtocol::Route,
        NetlinkProtocol::Usersock,
        NetlinkProtocol::KObjectUevent,
        NetlinkProtocol::Generic,
    ] {
        let ch = NetlinkDatagram::bind(p, 0).unwrap();
        assert!(ch.as_raw_fd() >= 0);
        ch.close().unwrap();
    }
}

#[test]
fn bind_never_yields_invalid_descriptor() {
    let all = [
        NetlinkProtocol::Route,
        NetlinkProtocol::Usersock,
        NetlinkProtocol::Firewall,
        NetlinkProtocol::InetDiag,
        NetlinkProtocol::NFlog,
        NetlinkProtocol::Xfrm,
        NetlinkProtocol::SELinux,
        NetlinkProtocol::ISCSI,
        NetlinkProtocol::Audit,
        NetlinkProtocol::FibLookup,
        NetlinkProtocol::Connector,
        NetlinkProtocol::Netfilter,
        NetlinkProtocol::IP6Fw,
        NetlinkProtocol::Dnrtmsg,
        NetlinkProtocol::KObjectUevent,
        NetlinkProtocol::Generic,
        NetlinkProtocol::SCSItransport,
        NetlinkProtocol::Ecryptfs,
        NetlinkProtocol::Rdma,
        NetlinkProtocol::Crypto,
    ];
    for p in all {
        match NetlinkDatagram::bind(p, 0) {
            Ok(ch) => {
                assert!(ch.as_raw_fd() >= 0);
                ch.close().unwrap();
            },
            Err(e) => {
                // A kernel built without this subsystem refuses the
                // protocol with a real error code, never silently.
                assert_ne!(e.raw_code(), 0);
            },
        }
    }
}

#[test]
fn bind_unsupported_protocol_fails_with_os_error() {
    // The kernel dropped the ip_queue firewall interface long ago; the
    // socket call refuses its discriminant instead of handing out a
    // usable channel.
    match NetlinkDatagram::bind(NetlinkProtocol::Firewall, 0) {
        Ok(_) => panic!("an unsupported protocol must not bind"),
        Err(e) => {
            assert_eq!(e.raw_code(), 93);
            assert!(!e.is_would_block());
        },
    }
}

#[test]
fn send_empty_buffer_returns_or_fails_without_blocking() {
    let ch = NetlinkDatagram::bind(NetlinkProtocol::Usersock, 0).unwrap();
    match ch.send(&[]) {
        Ok(n) => assert_eq!(n, 0),
        Err(e) => {
            // A "not connected"-class refusal, not the would-block
            // condition: there is no peer, so waiting would not help.
            assert!(!e.is_would_block());
            assert_ne!(e.raw_code(), 0);
        },
    }
    ch.close().unwrap();
}

#[test]
fn recv_on_fresh_channel_would_block() {
    let ch = NetlinkDatagram::bind(NetlinkProtocol::Route, 0).unwrap();
    let mut buf = vec![0u8; 64];
    match ch.recv(&mut buf) {
        Ok(_) => panic!("a freshly bound channel has nothing to receive"),
        Err(e) => assert!(e.is_would_block()),
    }
    assert_eq!(buf.len(), 64);
    ch.close().unwrap();
}

#[test]
fn descriptor_is_stable_across_io() {
    let ch = NetlinkDatagram::bind(NetlinkProtocol::Route, 0).unwrap();
    let fd_before = ch.as_raw_fd();
    let mut buf = vec![0u8; 16];
    for _ in 0..3 {
        let _ = ch.send(&[1u8, 2, 3]);
        let _ = ch.recv(&mut buf);
        assert_eq!(ch.as_raw_fd(), fd_before);
    }
    ch.close().unwrap();
}

#[test]
fn ownership_transfer_leaves_descriptor_open_and_closes_once() {
    let ch = NetlinkDatagram::bind(NetlinkProtocol::Route, 0).unwrap();
    let fd = ch.into_raw_fd();
    // The transfer must not have closed the descriptor: the one close is
    // now the caller's, and it succeeds exactly once.
    assert!(nix::unistd::close(fd).is_ok());
    assert_eq!(nix::unistd::close(fd), Err(nix::errno::Errno::EBADF));
}

#[test]
fn drop_closes_descriptor_exactly_once() {
    let ch = NetlinkDatagram::bind(NetlinkProtocol::Route, 0).unwrap();
    let fd = ch.as_raw_fd();
    drop(ch);
    // Going out of scope ran the one close; the descriptor number is no
    // longer valid, so a second close is refused.
    assert_eq!(nix::unistd::close(fd), Err(nix::errno::Errno::EBADF));
}

#[test]
fn close_releases_descriptor_exactly_once() {
    let ch = NetlinkDatagram::bind(NetlinkProtocol::Route, 0).unwrap();
    let fd = ch.as_raw_fd();
    ch.close().unwrap();
    // The descriptor is gone: a second close of the same number is the
    // caller's error, proving the channel closed it exactly once.
    assert_eq!(nix::unistd::close(fd), Err(nix::errno::Errno::EBADF));
}

#[test]
fn two_channels_share_protocol_and_group_mask() {
    // The port id of every bound channel is the process's own id, so a
    // second channel for the same protocol in one process is an address
    // conflict: the OS refuses it with "address in use" instead of
    // handing out a second channel under the same identity.
    let a = NetlinkDatagram::bind(NetlinkProtocol::Route, 1).unwrap();
    assert!(a.as_raw_fd() >= 0);
    match NetlinkDatagram::bind(NetlinkProtocol::Route, 1) {
        Ok(_) => panic!("one process cannot bind the same netlink identity twice"),
        Err(e) => assert_eq!(e.raw_code(), 98),
    }
    // The first channel stays usable after the refused second bind.
    let mut buf = vec![0u8; 32];
    match a.recv(&mut buf) {
        Ok(n) => assert!(n <= 32),
        Err(e) => assert!(e.is_would_block()),
    }
    a.close().unwrap();
}
