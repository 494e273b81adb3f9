use sockwho::events::{AddressFamily, SockaddrEvent, SocketStateEvent, Syscall};
use sockwho::processor::{
    parse_address, state_name, syscall_name, tcp_state_from_u32, EventProcessor,
    EventProcessorConfig, IpAddress, ProcessError, TcpState,
};
use sockwho::wire::BpfEvent;

fn command(name: &str) -> [u8; 16] {
    let mut buffer = [0u8; 16];
    for (i, b) in name.bytes().enumerate() {
        buffer[i] = b;
    }
    buffer
}

fn processor() -> EventProcessor {
    EventProcessor::new(EventProcessorConfig { channel_size: 1024 })
}

#[test]
fn bind_event_renders_the_expected_line() {
    // Entry for bind on fd 3, IPv4 127.0.0.1, port 8080 in network
    // order, command "myapp", completed by an exit with return value 0.
    let event = SockaddrEvent {
        pid: 1234,
        fd: 3,
        address: [127, 0, 0, 1, 0, 0, 0, 0, 0, 0, 0, 0, 0, 0, 0, 0],
        port: u16::from_le_bytes([0x1F, 0x90]),
        family: AddressFamily::Ipv4,
        syscall: Syscall::Bind,
        errno: 0,
        command: command("myapp"),
    };
    let line = processor().process_sockaddr_event(&event);
    assert_eq!(line, b"myapp/1234/3 syscall::bind(127.0.0.1:8080) = 0".to_vec());
}

#[test]
fn failed_connect_renders_negative_result() {
    let event = SockaddrEvent {
        pid: 9,
        fd: 12,
        address: [10, 0, 0, 7, 0, 0, 0, 0, 0, 0, 0, 0, 0, 0, 0, 0],
        port: u16::from_le_bytes([0x01, 0xBB]),
        family: AddressFamily::Ipv4,
        syscall: Syscall::Connect,
        errno: -111,
        command: command("curl"),
    };
    let line = processor().process_sockaddr_event(&event);
    assert_eq!(line, b"curl/9/12 syscall::connect(10.0.0.7:443) = -111".to_vec());
}

#[test]
fn state_transition_renders_both_state_names() {
    let mut src = [0u8; 16];
    src[15] = 1;
    let mut dst = [0u8; 16];
    dst[15] = 2;
    let event = SocketStateEvent {
        src_port: 443,
        dst_port: 52000,
        family: AddressFamily::Ipv6,
        _padding: 0,
        old_state: 2,
        new_state: 1,
        pid: 77,
        src_address: src,
        dst_address: dst,
        command: command("nginx"),
    };
    let line = processor().process_socket_state_event(&event).unwrap();
    assert_eq!(
        line,
        b"nginx/77 socket::set_state(0:0:0:0:0:0:0:1:443 <-> 0:0:0:0:0:0:0:2:52000) SynSent -> Established"
            .to_vec()
    );
}

#[test]
fn unknown_state_code_is_recoverable() {
    let event = SocketStateEvent {
        src_port: 1,
        dst_port: 2,
        family: AddressFamily::Ipv4,
        _padding: 0,
        old_state: 99,
        new_state: 1,
        pid: 1,
        src_address: [0; 16],
        dst_address: [0; 16],
        command: command("x"),
    };
    let p = processor();
    assert_eq!(p.process_socket_state_event(&event).unwrap_err(), ProcessError::InvalidOldState);
    let mut event = event;
    event.old_state = 1;
    event.new_state = 0;
    assert_eq!(p.process_socket_state_event(&event).unwrap_err(), ProcessError::InvalidNewState);
}

#[test]
fn tcp_states_cover_exactly_codes_one_through_twelve() {
    assert_eq!(tcp_state_from_u32(0), None);
    assert_eq!(tcp_state_from_u32(1), Some(TcpState::Established));
    assert_eq!(tcp_state_from_u32(2), Some(TcpState::SynSent));
    assert_eq!(tcp_state_from_u32(3), Some(TcpState::SynReceived));
    assert_eq!(tcp_state_from_u32(4), Some(TcpState::FinWait1));
    assert_eq!(tcp_state_from_u32(5), Some(TcpState::FinWait2));
    assert_eq!(tcp_state_from_u32(6), Some(TcpState::TimeWait));
    assert_eq!(tcp_state_from_u32(7), Some(TcpState::Close));
    assert_eq!(tcp_state_from_u32(8), Some(TcpState::CloseWait));
    assert_eq!(tcp_state_from_u32(9), Some(TcpState::LastAck));
    assert_eq!(tcp_state_from_u32(10), Some(TcpState::Listen));
    assert_eq!(tcp_state_from_u32(11), Some(TcpState::Closing));
    assert_eq!(tcp_state_from_u32(12), Some(TcpState::NewSynReceived));
    assert_eq!(tcp_state_from_u32(13), None);
    assert_eq!(state_name(&TcpState::NewSynReceived), "NewSynReceived");
}

#[test]
fn syscall_names_match_the_traced_calls() {
    assert_eq!(syscall_name(&Syscall::Bind), "bind");
    assert_eq!(syscall_name(&Syscall::Connect), "connect");
    assert_eq!(syscall_name(&Syscall::RecvFrom), "recv_from");
    assert_eq!(syscall_name(&Syscall::SendTo), "send_to");
}

#[test]
fn addresses_resolve_by_family() {
    let buffer = [192, 168, 1, 1, 9, 9, 9, 9, 9, 9, 9, 9, 9, 9, 9, 9];
    match parse_address(&AddressFamily::Ipv4, &buffer) {
        IpAddress::V4(q) => assert_eq!(q, [192, 168, 1, 1]),
        IpAddress::V6(_) => panic!("wrong family"),
    }
    match parse_address(&AddressFamily::Ipv6, &buffer) {
        IpAddress::V6(b) => assert_eq!(b, buffer),
        IpAddress::V4(_) => panic!("wrong family"),
    }
}

#[test]
fn run_outputs_lines_in_arrival_order_and_skips_invalid_events() {
    let mut p = processor();
    let first = SockaddrEvent {
        pid: 1,
        fd: 2,
        address: [1, 2, 3, 4, 0, 0, 0, 0, 0, 0, 0, 0, 0, 0, 0, 0],
        port: 0,
        family: AddressFamily::Ipv4,
        syscall: Syscall::RecvFrom,
        errno: 5,
        command: command("a"),
    };
    let invalid = SocketStateEvent {
        src_port: 0,
        dst_port: 0,
        family: AddressFamily::Ipv4,
        _padding: 0,
        old_state: 99,
        new_state: 1,
        pid: 0,
        src_address: [0; 16],
        dst_address: [0; 16],
        command: command("b"),
    };
    let mut second = first;
    second.pid = 2;
    second.syscall = Syscall::SendTo;
    assert!(p.channel.send(BpfEvent::Sockaddr(first)));
    assert!(p.channel.send(BpfEvent::SocketState(invalid)));
    assert!(p.channel.send(BpfEvent::Sockaddr(second)));
    let (lines, skipped) = p.run();
    assert_eq!(skipped, 1);
    assert_eq!(lines.len(), 2);
    assert_eq!(lines[0], b"a/1/2 syscall::recv_from(1.2.3.4:0) = 5".to_vec());
    assert_eq!(lines[1], b"a/2/2 syscall::send_to(1.2.3.4:0) = 5".to_vec());
    assert_eq!(p.channel.len(), 0);
}

#[test]
fn error_messages_name_the_bad_state() {
    assert_eq!(ProcessError::InvalidOldState.message(), "invalid old state");
    assert_eq!(ProcessError::InvalidNewState.message(), "invalid new state");
}

#[test]
fn default_channel_capacity_is_1024() {
    assert_eq!(EventProcessorConfig::default().channel_size, 1024);
}
