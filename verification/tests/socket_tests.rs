use nix::errno::Errno;
use nix::sys::epoll::{epoll_create, EpollFlags};
use nix::sys::socket::{socketpair, AddressFamily, SockFlag, SockType};
use nix::unistd::close;

use rs_socket::socket::config::{
    listen_address, setting_isize, setting_u32, setting_usize, DEFAULT_BINDER_TIMEOUT,
    DEFAULT_IDLE_TIMEOUT_SEC, DEFAULT_POOL_SIZE,
};
use rs_socket::socket::epoll::{
    add_epoll_list, deregistration_request, registration_request, remove_epoll_list,
    removal_step, CtlOp, EpollRequest, RemovalStep, EPOLL_ET, EPOLL_IN, EPOLL_RDHUP,
};
use rs_socket::socket::event::{
    classify_event, read_report, worker_action, Acceptor, EventKind, ReadReport,
    UnexpectedEventPolicy, WorkerAction,
};
use rs_socket::socket::packet::{decode_packet, handle_packet};
use rs_socket::socket::sys::Kernel;
use rs_socket::socket::{get_peer_name, lookup_peer_name, peer_name_text, peer_of, OsError, PeerAddr};

/// Two connected Unix-domain stream sockets.
fn connected_pair() -> (i32, i32) {
    socketpair(AddressFamily::Unix, SockType::Stream, None, SockFlag::empty()).unwrap()
}

#[test]
fn event_bits_match_nix() {
    assert_eq!(EPOLL_IN, EpollFlags::EPOLLIN.bits() as u32);
    assert_eq!(EPOLL_RDHUP, EpollFlags::EPOLLRDHUP.bits() as u32);
    assert_eq!(EPOLL_ET, EpollFlags::EPOLLET.bits() as u32);
}

#[test]
fn registration_watches_edge_triggered_input_and_hangup() {
    let request = registration_request(7);
    assert_eq!(
        request,
        EpollRequest { op: CtlOp::Add, fd: 7, events: 0x8000_2001, data: 7 }
    );
    assert_eq!(
        deregistration_request(7),
        EpollRequest { op: CtlOp::Del, fd: 7, events: 0, data: 0 }
    );
}

#[test]
fn registered_data_names_the_connection() {
    for fd in [0, 5, 1023, i32::MAX, -1] {
        let data = registration_request(fd).data;
        let action = worker_action(data, EPOLL_IN, UnexpectedEventPolicy::Report);
        assert_eq!(action, WorkerAction::Receive { fd });
    }
}

#[test]
fn events_are_classified_by_exact_mask() {
    assert_eq!(classify_event(EPOLL_IN), EventKind::Readable);
    assert_eq!(classify_event(EPOLL_RDHUP | EPOLL_IN), EventKind::PeerClosed);
    assert_eq!(classify_event(EPOLL_RDHUP), EventKind::Other);
    assert_eq!(classify_event(EPOLL_IN | 0x4), EventKind::Other);
    assert_eq!(classify_event(0), EventKind::Other);
}

#[test]
fn worker_actions_follow_the_policy() {
    assert_eq!(
        worker_action(9, EPOLL_IN, UnexpectedEventPolicy::Drop),
        WorkerAction::Receive { fd: 9 }
    );
    assert_eq!(
        worker_action(9, EPOLL_RDHUP | EPOLL_IN, UnexpectedEventPolicy::Report),
        WorkerAction::Disconnect { fd: 9 }
    );
    assert_eq!(
        worker_action(9, 0x10, UnexpectedEventPolicy::Report),
        WorkerAction::Unexpected { fd: 9, mask: 0x10, drop: false }
    );
    assert_eq!(
        worker_action(9, 0x10, UnexpectedEventPolicy::Drop),
        WorkerAction::Unexpected { fd: 9, mask: 0x10, drop: true }
    );
    // Only the low 32 bits of the data word name the descriptor.
    assert_eq!(
        worker_action(0x1_0000_0003, EPOLL_IN, UnexpectedEventPolicy::Drop),
        WorkerAction::Receive { fd: 3 }
    );
}

#[test]
fn read_outcomes_are_reported() {
    assert_eq!(read_report(Ok(12)), ReadReport::Packet { len: 12 });
    assert_eq!(read_report(Ok(0)), ReadReport::Nothing);
    assert_eq!(
        read_report(Err(OsError { errno: 11 })),
        ReadReport::Failed { error: OsError { errno: 11 } }
    );
}

#[test]
fn acceptor_recognises_its_listener() {
    let acceptor = Acceptor::new(4, vec![10, 11, 12]);
    assert_eq!(acceptor.listener(), 4);
    assert!(acceptor.is_listener_event(4));
    assert!(!acceptor.is_listener_event(5));
    assert!(acceptor.is_listener_event(0xffff_0000_0000_0004));
}

#[test]
fn acceptor_selects_worker_by_remainder() {
    let acceptor = Acceptor::new(4, vec![10, 11, 12]);
    assert_eq!(acceptor.worker_for(0), 10);
    assert_eq!(acceptor.worker_for(4), 11);
    assert_eq!(acceptor.worker_for(8), 12);
    assert_eq!(acceptor.worker_for(usize::MAX), [10, 11, 12][usize::MAX % 3]);
}

#[test]
fn acceptor_always_picks_a_worker() {
    let workers = vec![10, 11, 12];
    let acceptor = Acceptor::new(4, workers.clone());
    for _ in 0..200 {
        assert!(workers.contains(&acceptor.pick_worker()));
    }
    let single = Acceptor::new(4, vec![21]);
    assert_eq!(single.pick_worker(), 21);
}

#[test]
fn peer_text_of_known_and_unknown_peers() {
    let addr = PeerAddr { ip: 0x7f00_0001, port: 8080 };
    assert_eq!(peer_name_text(Some(addr)), "127.0.0.1:8080");
    let addr = PeerAddr { ip: 0xc0a8_0a05, port: 0 };
    assert_eq!(peer_name_text(Some(addr)), "192.168.10.5:0");
    let addr = PeerAddr { ip: u32::MAX, port: u16::MAX };
    assert_eq!(peer_name_text(Some(addr)), "255.255.255.255:65535");
    assert_eq!(peer_name_text(None), "Unknown");
}

#[test]
fn peer_name_of_a_bad_descriptor_is_unknown() {
    assert_eq!(get_peer_name(&mut Kernel::new(), -1), "Unknown");
    assert_eq!(rs_socket::socket::epoll::get_peer_name(&mut Kernel::new(), -1), "Unknown");
}

#[test]
fn peer_name_of_a_non_ipv4_peer_is_unknown() {
    let (left, right) = connected_pair();
    assert_eq!(get_peer_name(&mut Kernel::new(), left), "Unknown");
    assert_eq!(rs_socket::socket::epoll::get_peer_name(&mut Kernel::new(), right), "Unknown");
    close(left).unwrap();
    close(right).unwrap();
}

#[test]
fn connection_registers_and_deregisters() {
    let (server, client) = connected_pair();
    let epfd = epoll_create().unwrap();
    assert_eq!(add_epoll_list(&mut Kernel::new(), epfd, client), Ok(()));
    assert_eq!(
        add_epoll_list(&mut Kernel::new(), epfd, client),
        Err(OsError { errno: Errno::EEXIST as i32 })
    );
    assert_eq!(remove_epoll_list(&mut Kernel::new(), epfd, client), Ok(()));
    // The descriptor was closed with the removal.
    assert_eq!(
        remove_epoll_list(&mut Kernel::new(), epfd, client),
        Err(OsError { errno: Errno::EBADF as i32 })
    );
    close(epfd).unwrap();
    close(server).unwrap();
}

#[test]
fn removal_failure_leaves_descriptor_open() {
    let (server, client) = connected_pair();
    let epfd = epoll_create().unwrap();
    // Never registered: the removal fails and the socket is not closed.
    assert_eq!(
        remove_epoll_list(&mut Kernel::new(), epfd, client),
        Err(OsError { errno: Errno::ENOENT as i32 })
    );
    assert_eq!(add_epoll_list(&mut Kernel::new(), epfd, client), Ok(()));
    assert_eq!(remove_epoll_list(&mut Kernel::new(), epfd, client), Ok(()));
    close(epfd).unwrap();
    close(server).unwrap();
}

#[test]
fn registering_on_a_bad_epoll_fails() {
    assert_eq!(add_epoll_list(&mut Kernel::new(), -1, 0), Err(OsError { errno: Errno::EBADF as i32 }));
}

#[test]
fn packets_are_decoded_lossily() {
    assert_eq!(decode_packet(b"hello"), "hello");
    assert_eq!(decode_packet(&[b'a', 0xff, b'b']), "a\u{fffd}b");
    assert_eq!(decode_packet(&[0, 0]), "\0\0");
}

#[test]
fn packet_note_trims_text() {
    let note = handle_packet(&mut Kernel::new(), -1, b"  ++hello \r\n".to_vec());
    assert_eq!(note.text, "++hello");
    assert_eq!(note.peer, "Unknown");
    let note = handle_packet(&mut Kernel::new(), -1, vec![b' ', 0xc3, b' ']);
    assert_eq!(note.text, "\u{fffd}");
}

#[test]
fn settings_read_numbers() {
    assert_eq!(setting_usize("8", DEFAULT_POOL_SIZE), 8);
    assert_eq!(setting_usize("+16", DEFAULT_POOL_SIZE), 16);
    assert_eq!(setting_usize("0", DEFAULT_POOL_SIZE), 0);
    assert_eq!(setting_isize("-1", DEFAULT_BINDER_TIMEOUT), -1);
    assert_eq!(setting_isize("+250", DEFAULT_BINDER_TIMEOUT), 250);
    assert_eq!(setting_u32("4294967295", DEFAULT_IDLE_TIMEOUT_SEC), u32::MAX);
}

#[test]
fn settings_fall_back_to_defaults() {
    assert_eq!(setting_usize("", DEFAULT_POOL_SIZE), 4);
    assert_eq!(setting_usize("four", DEFAULT_POOL_SIZE), 4);
    assert_eq!(setting_usize(" 8", DEFAULT_POOL_SIZE), 4);
    assert_eq!(setting_usize("-8", DEFAULT_POOL_SIZE), 4);
    assert_eq!(setting_usize("+", DEFAULT_POOL_SIZE), 4);
    assert_eq!(setting_isize("-", DEFAULT_BINDER_TIMEOUT), 1000);
    assert_eq!(setting_isize("1e3", DEFAULT_BINDER_TIMEOUT), 1000);
    assert_eq!(setting_u32("4294967296", DEFAULT_IDLE_TIMEOUT_SEC), 30);
    assert_eq!(setting_u32("-0", DEFAULT_IDLE_TIMEOUT_SEC), 30);
}

#[test]
fn written_settings_read_back() {
    for n in [0usize, 7, 10, 99, 1024, usize::MAX] {
        assert_eq!(setting_usize(&n.to_string(), 3), n);
    }
    for n in [0isize, -7, 42, isize::MIN, isize::MAX] {
        assert_eq!(setting_isize(&n.to_string(), 3), n);
    }
}

#[test]
fn listen_address_joins_ip_and_port() {
    assert_eq!(listen_address("127.0.0.1", "9000"), "127.0.0.1:9000");
    assert_eq!(listen_address("", ""), ":");
}

#[test]
fn removal_closes_only_after_deregistration() {
    assert_eq!(removal_step(Ok(())), RemovalStep::Close);
    assert_eq!(
        removal_step(Err(OsError { errno: 2 })),
        RemovalStep::Fail { error: OsError { errno: 2 } }
    );
}

#[test]
fn failed_removal_on_bad_epoll_keeps_socket_open() {
    let (left, right) = connected_pair();
    assert_eq!(
        remove_epoll_list(&mut Kernel::new(), -1, left),
        Err(OsError { errno: Errno::EBADF as i32 })
    );
    // Still open: it can be closed now.
    assert_eq!(close(left), Ok(()));
    close(right).unwrap();
}

#[test]
fn peer_of_a_lookup() {
    let addr = PeerAddr { ip: 1, port: 2 };
    assert_eq!(peer_of(Ok(addr)), Some(addr));
    assert_eq!(peer_of(Err(OsError { errno: 22 })), None);
}

#[test]
fn distinct_addresses_have_distinct_texts() {
    let a = peer_name_text(Some(PeerAddr { ip: 0x0101_0b01, port: 1 }));
    let b = peer_name_text(Some(PeerAddr { ip: 0x0101_0101, port: 11 }));
    assert_eq!(a, "1.1.11.1:1");
    assert_eq!(b, "1.1.1.1:11");
    assert_ne!(a, b);
}

#[test]
fn packet_note_logs_debug_forms() {
    let note = handle_packet(&mut Kernel::new(), -1, b"  hello\n".to_vec());
    assert_eq!(note.message, "packet received from peer: \"Unknown\", packet: \"hello\"");
    let note = handle_packet(&mut Kernel::new(), -1, vec![0xff, b'a', b' ']);
    assert_eq!(note.text, "\u{fffd}a");
    assert_eq!(
        note.message,
        format!("packet received from peer: {:?}, packet: {:?}", "Unknown", "\u{fffd}a")
    );
    let note = handle_packet(&mut Kernel::new(), -1, b"say \"hi\"".to_vec());
    assert_eq!(note.message, "packet received from peer: \"Unknown\", packet: \"say \\\"hi\\\"\"");
}

#[test]
fn lookup_peer_name_reports_the_error() {
    assert_eq!(
        lookup_peer_name(&mut Kernel::new(), -1),
        Err(OsError { errno: Errno::EBADF as i32 })
    );
    let (left, right) = connected_pair();
    // A Unix-domain peer is no IPv4 address.
    assert_eq!(
        lookup_peer_name(&mut Kernel::new(), left),
        Err(OsError { errno: Errno::EINVAL as i32 })
    );
    close(left).unwrap();
    close(right).unwrap();
}

#[test]
fn one_handle_serves_many_calls() {
    let (left, right) = connected_pair();
    let epfd = epoll_create().unwrap();
    let mut kernel = Kernel::new();
    assert_eq!(add_epoll_list(&mut kernel, epfd, left), Ok(()));
    assert_eq!(get_peer_name(&mut kernel, left), "Unknown");
    assert_eq!(remove_epoll_list(&mut kernel, epfd, left), Ok(()));
    assert_eq!(
        remove_epoll_list(&mut kernel, epfd, left),
        Err(OsError { errno: Errno::EBADF as i32 })
    );
    close(epfd).unwrap();
    close(right).unwrap();
}
