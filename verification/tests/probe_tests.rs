use sockwho::events::{entrypoint_status, AddressFamily, HandlerError, Syscall};
use sockwho::inflight::InFlightTable;
use sockwho::probes::{
    as_pid, control_offsets, inet_sock_set_state, io_offsets, parse_sockaddr, read_sockaddr,
    sys_enter_bind, sys_exit, syscall_enter, syscall_exit, RawContext, ReadField, AF_INET,
    AF_INET6,
};

fn command(name: &str) -> [u8; 16] {
    let mut buffer = [0u8; 16];
    for (i, b) in name.bytes().enumerate() {
        buffer[i] = b;
    }
    buffer
}

/// A syscall-entry tracepoint buffer: fd at the fd offset, a plausible
/// pointer value at the sockaddr offset.
fn enter_data(fd_offset: usize, sockaddr_offset: usize, fd: i32) -> RawContext {
    let mut bytes = vec![0u8; sockaddr_offset + 8];
    bytes[fd_offset..fd_offset + 4].copy_from_slice(&fd.to_le_bytes());
    bytes[sockaddr_offset..sockaddr_offset + 8].copy_from_slice(&0x7fff_1234u64.to_le_bytes());
    RawContext { bytes }
}

/// A syscall-exit tracepoint buffer: the raw return value at offset 16.
fn exit_data(ret: i64) -> RawContext {
    let mut bytes = vec![0u8; 24];
    bytes[16..24].copy_from_slice(&ret.to_le_bytes());
    RawContext { bytes }
}

/// An IPv4 sockaddr as user memory holds it: family tag, port in
/// network byte order, then the address.
fn sockaddr_v4(address: [u8; 4], port_network_bytes: [u8; 2]) -> Vec<u8> {
    let mut bytes = vec![0u8; 8];
    bytes[0..2].copy_from_slice(&AF_INET.to_le_bytes());
    bytes[2..4].copy_from_slice(&port_network_bytes);
    bytes[4..8].copy_from_slice(&address);
    bytes
}

fn sockaddr_v6(address: [u8; 16], port_network_bytes: [u8; 2]) -> Vec<u8> {
    let mut bytes = vec![0u8; 24];
    bytes[0..2].copy_from_slice(&AF_INET6.to_le_bytes());
    bytes[2..4].copy_from_slice(&port_network_bytes);
    bytes[8..24].copy_from_slice(&address);
    bytes
}

#[test]
fn entry_then_exit_combines_both_halves() {
    let mut table = InFlightTable::new(1024);
    let pid_tgid = (1234u64 << 32) | 5678;
    let ctx = enter_data(16, 24, 3);
    let sockaddr = sockaddr_v4([127, 0, 0, 1], [0x1F, 0x90]);
    let r = syscall_enter(
        &ctx,
        &sockaddr,
        pid_tgid,
        command("myapp"),
        &control_offsets(),
        Syscall::Bind,
        &mut table,
    );
    assert!(r.is_ok());
    assert_eq!(table.len(), 1);

    let event = syscall_exit(&exit_data(0), pid_tgid, command("myapp2"), &mut table).unwrap();
    assert_eq!(table.len(), 0);
    assert_eq!(event.pid, 1234);
    assert_eq!(event.fd, 3);
    assert_eq!(event.family, AddressFamily::Ipv4);
    assert_eq!(&event.address[0..4], &[127, 0, 0, 1]);
    assert_eq!(&event.address[4..16], &[0u8; 12]);
    assert_eq!(event.port, u16::from_le_bytes([0x1F, 0x90]));
    assert_eq!(event.errno, 0);
    // The command is refreshed at exit time, deliberately.
    assert_eq!(event.command, command("myapp2"));
    assert_eq!(event.syscall, Syscall::Bind);
}

#[test]
fn exit_without_entry_produces_no_event() {
    let mut table = InFlightTable::new(8);
    let r = sys_exit(&exit_data(0), 42, command("x"), &mut table);
    assert!(r.is_err());
    assert_eq!(table.len(), 0);
}

#[test]
fn failed_fd_creates_no_entry() {
    let mut table = InFlightTable::new(8);
    let ctx = enter_data(16, 24, -1);
    let sockaddr = sockaddr_v4([10, 0, 0, 1], [0, 80]);
    let r = sys_enter_bind(&ctx, &sockaddr, 7, command("x"), &mut table);
    assert!(r.is_ok());
    assert_eq!(table.len(), 0);
    // And the exit for that invocation finds nothing and emits nothing.
    let r = sys_exit(&exit_data(0), 7, command("x"), &mut table);
    assert!(r.is_err());
}

#[test]
fn negative_exit_value_is_kept() {
    let mut table = InFlightTable::new(8);
    let ctx = enter_data(16, 48, 5);
    let sockaddr = sockaddr_v6([1u8; 16], [0x00, 0x50]);
    let r = syscall_enter(
        &ctx,
        &sockaddr,
        9,
        command("io"),
        &io_offsets(),
        Syscall::SendTo,
        &mut table,
    );
    assert!(r.is_ok());
    let event = syscall_exit(&exit_data(-111), 9, command("io"), &mut table).unwrap();
    assert_eq!(event.errno, -111);
    assert_eq!(event.family, AddressFamily::Ipv6);
    assert_eq!(event.address, [1u8; 16]);
}

#[test]
fn full_table_drops_the_invocation() {
    let mut table = InFlightTable::new(1);
    let ctx = enter_data(16, 24, 3);
    let sockaddr = sockaddr_v4([127, 0, 0, 1], [0, 80]);
    let ok = syscall_enter(
        &ctx,
        &sockaddr,
        1,
        command("a"),
        &control_offsets(),
        Syscall::Bind,
        &mut table,
    );
    assert!(ok.is_ok());
    let full = syscall_enter(
        &ctx,
        &sockaddr,
        2,
        command("b"),
        &control_offsets(),
        Syscall::Bind,
        &mut table,
    );
    assert!(full.is_err());
    assert_eq!(table.len(), 1);
    // Re-entry under the stored key overwrites rather than fails.
    let again = syscall_enter(
        &ctx,
        &sockaddr,
        1,
        command("c"),
        &control_offsets(),
        Syscall::Connect,
        &mut table,
    );
    assert!(again.is_ok());
    assert_eq!(table.len(), 1);
}

#[test]
fn unknown_family_fails_closed() {
    let mut sockaddr = sockaddr_v4([1, 2, 3, 4], [0, 80]);
    sockaddr[0] = 99;
    sockaddr[1] = 0;
    assert!(parse_sockaddr(&sockaddr).is_err());
    let short = vec![2u8, 0, 0];
    assert!(parse_sockaddr(&short).is_err());
}

#[test]
fn read_sockaddr_layouts_differ_by_family() {
    let v4 = sockaddr_v4([192, 168, 0, 1], [0x00, 0x50]);
    let (address, port) = read_sockaddr(&AddressFamily::Ipv4, &v4).unwrap();
    assert_eq!(&address[0..4], &[192, 168, 0, 1]);
    assert_eq!(port, u16::from_le_bytes([0x00, 0x50]));

    let raw = [7u8; 16];
    let v6 = sockaddr_v6(raw, [0x01, 0xBB]);
    let (address, port) = read_sockaddr(&AddressFamily::Ipv6, &v6).unwrap();
    assert_eq!(address, raw);
    assert_eq!(port, u16::from_le_bytes([0x01, 0xBB]));
}

fn state_data_v6(
    old_state: u32,
    new_state: u32,
    src_port: u16,
    dst_port: u16,
    src: [u8; 16],
    dst: [u8; 16],
) -> RawContext {
    let mut bytes = vec![0u8; 72];
    bytes[16..20].copy_from_slice(&old_state.to_le_bytes());
    bytes[20..24].copy_from_slice(&new_state.to_le_bytes());
    bytes[24..26].copy_from_slice(&src_port.to_le_bytes());
    bytes[26..28].copy_from_slice(&dst_port.to_le_bytes());
    bytes[28..30].copy_from_slice(&AF_INET6.to_le_bytes());
    bytes[40..56].copy_from_slice(&src);
    bytes[56..72].copy_from_slice(&dst);
    RawContext { bytes }
}

#[test]
fn state_transition_is_single_shot() {
    let mut src = [0u8; 16];
    src[15] = 1;
    let mut dst = [0u8; 16];
    dst[15] = 2;
    let ctx = state_data_v6(2, 1, 443, 52000, src, dst);
    let event = inet_sock_set_state(&ctx, (77u64 << 32) | 3, command("nginx")).unwrap();
    assert_eq!(event.old_state, 2);
    assert_eq!(event.new_state, 1);
    assert_eq!(event.src_port, 443);
    assert_eq!(event.dst_port, 52000);
    assert_eq!(event.family, AddressFamily::Ipv6);
    assert_eq!(event.src_address, src);
    assert_eq!(event.dst_address, dst);
    assert_eq!(event.pid, 77);
}

#[test]
fn state_transition_v4_embeds_addresses() {
    let mut bytes = vec![0u8; 40];
    bytes[16..20].copy_from_slice(&7u32.to_le_bytes());
    bytes[20..24].copy_from_slice(&1u32.to_le_bytes());
    bytes[24..26].copy_from_slice(&80u16.to_le_bytes());
    bytes[26..28].copy_from_slice(&8080u16.to_le_bytes());
    bytes[28..30].copy_from_slice(&AF_INET.to_le_bytes());
    bytes[32..36].copy_from_slice(&[127, 0, 0, 1]);
    bytes[36..40].copy_from_slice(&[10, 0, 0, 2]);
    let event = inet_sock_set_state(&RawContext { bytes }, 5, command("x")).unwrap();
    assert_eq!(event.family, AddressFamily::Ipv4);
    assert_eq!(&event.src_address[0..4], &[127, 0, 0, 1]);
    assert_eq!(&event.src_address[4..16], &[0u8; 12]);
    assert_eq!(&event.dst_address[0..4], &[10, 0, 0, 2]);
}

#[test]
fn unknown_state_family_fails_closed() {
    let mut bytes = vec![0u8; 72];
    bytes[28..30].copy_from_slice(&5u16.to_le_bytes());
    assert!(inet_sock_set_state(&RawContext { bytes }, 5, command("x")).is_err());
}

#[test]
fn pid_is_upper_half_of_pid_tgid() {
    assert_eq!(as_pid((1234u64 << 32) | 5678), 1234);
    assert_eq!(as_pid(42), 0);
    assert_eq!(as_pid(u64::MAX), u32::MAX);
}

#[test]
fn entrypoint_translates_results() {
    assert_eq!(entrypoint_status(Ok(())), 0);
    assert_eq!(entrypoint_status(Err(HandlerError::new(7))), 7);
    assert_eq!(HandlerError::from_code(1i64 << 40).into_error_code(), 1);
    assert_eq!(HandlerError::from_code(-14).into_error_code(), -14);
}

#[test]
fn field_reads_fail_outside_the_buffer() {
    let ctx = RawContext { bytes: vec![1, 2, 3, 4] };
    assert_eq!(ctx.read_u32_field(0).unwrap(), u32::from_le_bytes([1, 2, 3, 4]));
    assert!(ctx.read_u32_field(1).is_err());
    assert!(ctx.read_u64_field(0).is_err());
    assert_eq!(ctx.read_u16_field(2).unwrap(), u16::from_le_bytes([3, 4]));
}
