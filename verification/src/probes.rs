//! The sandboxed probe handlers.
//!
//! Each probe is a pure function of one tracepoint invocation: the raw
//! argument bytes the kernel exposes at fixed offsets, the bytes read
//! from user memory at the syscall's sockaddr pointer, and the invoking
//! process's identifier and command name. A probe either succeeds or
//! returns a small failure code; any field that cannot be read drops
//! exactly that one invocation (fails closed). The in-flight call table
//! is the only state a probe touches.

use vstd::prelude::*;
use vstd::bytes::{
    spec_u16_from_le_bytes, spec_u32_from_le_bytes, spec_u64_from_le_bytes, u16_from_le_bytes,
    u32_from_le_bytes, u64_from_le_bytes,
};
use vstd::slice::slice_subrange;
use crate::address::{canonical_v4, canonicalize_ipv4};
use crate::events::{AddressFamily, HandlerError, HandlerResult, SockaddrEvent, SocketStateEvent,
    Syscall};
use crate::inflight::InFlightTable;
use crate::wire::{i32_to_u32_bits, u32_bits_to_i32};

verus! {

/// The address-family tag for IPv4 in a sockaddr, as the platform
/// defines it.
pub const AF_INET: u16 = 2;

/// The address-family tag for IPv6 in a sockaddr, as the platform
/// defines it.
pub const AF_INET6: u16 = 10;

/// The little-endian `u16` at `off`.
pub open spec fn le16(b: Seq<u8>, off: int) -> u16 {
    spec_u16_from_le_bytes(b.subrange(off, off + 2))
}

/// The little-endian `u32` at `off`.
pub open spec fn le32(b: Seq<u8>, off: int) -> u32 {
    spec_u32_from_le_bytes(b.subrange(off, off + 4))
}

/// The little-endian `u64` at `off`.
pub open spec fn le64(b: Seq<u8>, off: int) -> u64 {
    spec_u64_from_le_bytes(b.subrange(off, off + 8))
}

/// An `n`-byte field at `off` lies within the buffer.
pub open spec fn can_read(b: Seq<u8>, off: int, n: int) -> bool {
    0 <= off && off + n <= b.len()
}

/// Reading raw fields at byte offsets out of a tracepoint invocation's
/// argument buffer. A read fails exactly when the field lies outside
/// the buffer; the failure code is 1.
pub trait ReadField {
    /// The raw bytes this context exposes.
    spec fn data(&self) -> Seq<u8>;

    /// Reads the `u16` field at `offset`.
    fn read_u16_field(&self, offset: usize) -> (r: Result<u16, HandlerError>)
        ensures
            r is Ok <==> can_read(self.data(), offset as int, 2),
            r matches Ok(v) ==> v == le16(self.data(), offset as int),
            r matches Err(e) ==> e.spec_code() == 1;

    /// Reads the `u32` field at `offset`.
    fn read_u32_field(&self, offset: usize) -> (r: Result<u32, HandlerError>)
        ensures
            r is Ok <==> can_read(self.data(), offset as int, 4),
            r matches Ok(v) ==> v == le32(self.data(), offset as int),
            r matches Err(e) ==> e.spec_code() == 1;

    /// Reads the `u64` field at `offset`.
    fn read_u64_field(&self, offset: usize) -> (r: Result<u64, HandlerError>)
        ensures
            r is Ok <==> can_read(self.data(), offset as int, 8),
            r matches Ok(v) ==> v == le64(self.data(), offset as int),
            r matches Err(e) ==> e.spec_code() == 1;

    /// Reads the 4-byte field at `offset`.
    fn read_bytes4_field(&self, offset: usize) -> (r: Result<[u8; 4], HandlerError>)
        ensures
            r is Ok <==> can_read(self.data(), offset as int, 4),
            r matches Ok(v) ==> v@ == self.data().subrange(offset as int, offset + 4),
            r matches Err(e) ==> e.spec_code() == 1;

    /// Reads the 16-byte field at `offset`.
    fn read_bytes16_field(&self, offset: usize) -> (r: Result<[u8; 16], HandlerError>)
        ensures
            r is Ok <==> can_read(self.data(), offset as int, 16),
            r matches Ok(v) ==> v@ == self.data().subrange(offset as int, offset + 16),
            r matches Err(e) ==> e.spec_code() == 1;
}

/// The raw argument bytes of one tracepoint invocation.
pub struct RawContext {
    pub bytes: Vec<u8>,
}

impl ReadField for RawContext {
    open spec fn data(&self) -> Seq<u8> {
        self.bytes@
    }

    fn read_u16_field(&self, offset: usize) -> (r: Result<u16, HandlerError>) {
        let n = self.bytes.len();
        if offset <= n && n - offset >= 2 {
            Ok(u16_from_le_bytes(slice_subrange(self.bytes.as_slice(), offset, offset + 2)))
        } else {
            Err(HandlerError::new(1))
        }
    }

    fn read_u32_field(&self, offset: usize) -> (r: Result<u32, HandlerError>) {
        let n = self.bytes.len();
        if offset <= n && n - offset >= 4 {
            Ok(u32_from_le_bytes(slice_subrange(self.bytes.as_slice(), offset, offset + 4)))
        } else {
            Err(HandlerError::new(1))
        }
    }

    fn read_u64_field(&self, offset: usize) -> (r: Result<u64, HandlerError>) {
        let n = self.bytes.len();
        if offset <= n && n - offset >= 8 {
            Ok(u64_from_le_bytes(slice_subrange(self.bytes.as_slice(), offset, offset + 8)))
        } else {
            Err(HandlerError::new(1))
        }
    }

    fn read_bytes4_field(&self, offset: usize) -> (r: Result<[u8; 4], HandlerError>) {
        let n = self.bytes.len();
        if offset <= n && n - offset >= 4 {
            let b = self.bytes.as_slice();
            let v = [b[offset], b[offset + 1], b[offset + 2], b[offset + 3]];
            proof {
                assert(v@ =~= self.data().subrange(offset as int, offset + 4));
            }
            Ok(v)
        } else {
            Err(HandlerError::new(1))
        }
    }

    fn read_bytes16_field(&self, offset: usize) -> (r: Result<[u8; 16], HandlerError>) {
        let n = self.bytes.len();
        if offset <= n && n - offset >= 16 {
            let b = self.bytes.as_slice();
            let v = [
                b[offset], b[offset + 1], b[offset + 2], b[offset + 3],
                b[offset + 4], b[offset + 5], b[offset + 6], b[offset + 7],
                b[offset + 8], b[offset + 9], b[offset + 10], b[offset + 11],
                b[offset + 12], b[offset + 13], b[offset + 14], b[offset + 15],
            ];
            proof {
                assert(v@ =~= self.data().subrange(offset as int, offset + 16));
            }
            Ok(v)
        } else {
            Err(HandlerError::new(1))
        }
    }
}

/// Converts the kernel's combined pid/thread-group identifier into what
/// userspace considers a pid: its upper 32 bits.
pub fn as_pid(pid_tgid: u64) -> (r: u32)
    ensures
        r == pid_tgid / 0x1_0000_0000,
{
    proof {
        assert(pid_tgid >> 32u64 == pid_tgid / 0x1_0000_0000 && pid_tgid >> 32u64 < 0x1_0000_0000)
            by (bit_vector);
    }
    (pid_tgid >> 32) as u32
}

/// Where a syscall family's arguments sit in the tracepoint buffer.
pub struct ArgumentOffsets {
    /// Offset of the file-descriptor argument.
    pub fd: usize,
    /// Offset of the sockaddr pointer argument.
    pub sockaddr: usize,
}

/// Offsets for the control syscalls (bind, connect).
pub open spec fn spec_control_offsets() -> ArgumentOffsets {
    ArgumentOffsets { fd: 16, sockaddr: 24 }
}

/// Offsets for the IO syscalls (recvfrom, sendto), which carry extra
/// leading arguments before the sockaddr pointer.
pub open spec fn spec_io_offsets() -> ArgumentOffsets {
    ArgumentOffsets { fd: 16, sockaddr: 48 }
}

/// Offsets for the control syscalls (bind, connect).
pub fn control_offsets() -> (r: ArgumentOffsets)
    ensures
        r == spec_control_offsets(),
{
    ArgumentOffsets { fd: 16, sockaddr: 24 }
}

/// Offsets for the IO syscalls (recvfrom, sendto).
pub fn io_offsets() -> (r: ArgumentOffsets)
    ensures
        r == spec_io_offsets(),
{
    ArgumentOffsets { fd: 16, sockaddr: 48 }
}

/// What parsing a raw sockaddr yields: the family, the canonical
/// 16-byte address buffer, and the port in network byte order. `None`
/// when the family tag is unknown or the buffer is too short for the
/// family's layout.
pub open spec fn parse_sockaddr_spec(sa: Seq<u8>) -> Option<(AddressFamily, Seq<u8>, u16)> {
    if sa.len() < 2 {
        None
    } else if le16(sa, 0) == AF_INET {
        if sa.len() >= 8 {
            Some((AddressFamily::Ipv4, canonical_v4(sa.subrange(4, 8)), le16(sa, 2)))
        } else {
            None
        }
    } else if le16(sa, 0) == AF_INET6 {
        if sa.len() >= 24 {
            Some((AddressFamily::Ipv6, sa.subrange(8, 24), le16(sa, 2)))
        } else {
            None
        }
    } else {
        None
    }
}

/// Reads the address and port out of a raw sockaddr whose family is
/// already known.
///
/// IPv4 (`family`, `port`, 4-byte address): the address is embedded in
/// a zero-padded 16-byte buffer. IPv6 (`family`, `port`, flow info,
/// 16-byte address): the address fills the buffer.
pub fn read_sockaddr(family: &AddressFamily, sa: &[u8]) -> (r: Result<([u8; 16], u16), HandlerError>)
    ensures
        *family == AddressFamily::Ipv4 ==> {
            &&& r is Ok <==> sa@.len() >= 8
            &&& r matches Ok((a, p)) ==> a@ == canonical_v4(sa@.subrange(4, 8)) && p == le16(sa@, 2)
        },
        *family == AddressFamily::Ipv6 ==> {
            &&& r is Ok <==> sa@.len() >= 24
            &&& r matches Ok((a, p)) ==> a@ == sa@.subrange(8, 24) && p == le16(sa@, 2)
        },
        r matches Err(e) ==> e.spec_code() == 1,
{
    match family {
        AddressFamily::Ipv4 => {
            if sa.len() < 8 {
                return Err(HandlerError::new(1));
            }
            let quad = [sa[4], sa[5], sa[6], sa[7]];
            proof {
                assert(quad@ =~= sa@.subrange(4, 8));
            }
            let address = canonicalize_ipv4(&quad);
            let port = u16_from_le_bytes(slice_subrange(sa, 2, 4));
            Ok((address, port))
        },
        AddressFamily::Ipv6 => {
            if sa.len() < 24 {
                return Err(HandlerError::new(1));
            }
            let b = sa;
            let address = [
                b[8], b[9], b[10], b[11], b[12], b[13], b[14], b[15],
                b[16], b[17], b[18], b[19], b[20], b[21], b[22], b[23],
            ];
            proof {
                assert(address@ =~= sa@.subrange(8, 24));
            }
            let port = u16_from_le_bytes(slice_subrange(sa, 2, 4));
            Ok((address, port))
        },
    }
}

/// Parses a raw sockaddr: reads the family tag, then dispatches on it.
pub fn parse_sockaddr(sa: &[u8]) -> (r: Result<(AddressFamily, [u8; 16], u16), HandlerError>)
    ensures
        r is Ok <==> parse_sockaddr_spec(sa@) is Some,
        r matches Ok((f, a, p)) ==> parse_sockaddr_spec(sa@) == Some((f, a@, p)),
        r matches Err(e) ==> e.spec_code() == 1,
{
    if sa.len() < 2 {
        return Err(HandlerError::new(1));
    }
    let tag = u16_from_le_bytes(slice_subrange(sa, 0, 2));
    let family = if tag == AF_INET {
        AddressFamily::Ipv4
    } else if tag == AF_INET6 {
        AddressFamily::Ipv6
    } else {
        return Err(HandlerError::new(1));
    };
    match read_sockaddr(&family, sa) {
        Ok((address, port)) => Ok((family, address, port)),
        Err(e) => Err(e),
    }
}

/// The file descriptor a syscall-entry invocation carries, read as a
/// signed 32-bit value; `None` when the field is unreadable.
pub open spec fn enter_fd(data: Seq<u8>, offsets: ArgumentOffsets) -> Option<i32> {
    if can_read(data, offsets.fd as int, 4) {
        Some(u32_bits_to_i32(le32(data, offsets.fd as int)))
    } else {
        None
    }
}

/// The entry is skipped: the syscall already failed locally (fd -1), so
/// no event is ever produced for it.
pub open spec fn enter_skips(data: Seq<u8>, offsets: ArgumentOffsets) -> bool {
    enter_fd(data, offsets) == Some(-1i32)
}

/// What a syscall-entry invocation parses out of its sockaddr, when it
/// gets that far.
pub open spec fn enter_parsed(data: Seq<u8>, sa: Seq<u8>, offsets: ArgumentOffsets) -> Option<
    (AddressFamily, Seq<u8>, u16),
> {
    if enter_fd(data, offsets) is Some && enter_fd(data, offsets) != Some(-1i32) && can_read(
        data,
        offsets.sockaddr as int,
        8,
    ) {
        parse_sockaddr_spec(sa)
    } else {
        None
    }
}

/// The entry fails closed: some field could not be read or the sockaddr
/// did not parse.
pub open spec fn enter_fails(data: Seq<u8>, sa: Seq<u8>, offsets: ArgumentOffsets) -> bool {
    &&& !enter_skips(data, offsets)
    &&& enter_parsed(data, sa, offsets) is None
}

/// `e` is the in-flight entry event a successful syscall entry stores.
pub open spec fn is_enter_event(
    e: SockaddrEvent,
    data: Seq<u8>,
    parsed: (AddressFamily, Seq<u8>, u16),
    pid_tgid: u64,
    command: [u8; 16],
    offsets: ArgumentOffsets,
    syscall: Syscall,
) -> bool {
    &&& e.pid == pid_tgid / 0x1_0000_0000
    &&& e.fd == i32_to_u32_bits(enter_fd(data, offsets).unwrap())
    &&& e.family == parsed.0
    &&& e.address@ == parsed.1
    &&& e.port == parsed.2
    &&& e.syscall == syscall
    &&& e.errno == 0
    &&& e.command == command
}

/// Everything a syscall-entry probe guarantees, over the invocation's
/// inputs and the in-flight table before and after.
pub open spec fn enter_post(
    data: Seq<u8>,
    sa: Seq<u8>,
    pid_tgid: u64,
    command: [u8; 16],
    offsets: ArgumentOffsets,
    syscall: Syscall,
    old_t: Map<u64, SockaddrEvent>,
    new_t: Map<u64, SockaddrEvent>,
    cap: nat,
    r: HandlerResult,
) -> bool {
    &&& (enter_skips(data, offsets) ==> r is Ok && new_t == old_t)
    &&& (enter_fails(data, sa, offsets) ==> r is Err && new_t == old_t)
    &&& (match enter_parsed(data, sa, offsets) {
        Some(parsed) => {
            if old_t.contains_key(pid_tgid) || old_t.len() < cap {
                &&& r is Ok
                &&& new_t == old_t.insert(pid_tgid, new_t[pid_tgid])
                &&& is_enter_event(new_t[pid_tgid], data, parsed, pid_tgid, command, offsets,
                    syscall)
            } else {
                // The bounded table is full: the invocation is dropped.
                r is Err && new_t == old_t
            }
        },
        None => true,
    })
}

/// Handles one syscall-entry invocation: reads the fd (skipping locally
/// failed syscalls), parses the sockaddr from user memory, and stores
/// the partially-filled event in the in-flight table keyed by the raw
/// pid/tgid. Storing that entry is the only side effect.
pub fn syscall_enter(
    ctx: &RawContext,
    sockaddr: &[u8],
    pid_tgid: u64,
    command: [u8; 16],
    offsets: &ArgumentOffsets,
    syscall: Syscall,
    table: &mut InFlightTable,
) -> (r: HandlerResult)
    requires
        old(table).wf(),
    ensures
        final (table).wf(),
        final (table).spec_capacity() == old(table).spec_capacity(),
        enter_post(
            ctx.data(),
            sockaddr@,
            pid_tgid,
            command,
            *offsets,
            syscall,
            old(table).view(),
            final (table).view(),
            old(table).spec_capacity(),
            r,
        ),
{
    let fd_bits = match ctx.read_u32_field(offsets.fd) {
        Ok(v) => v,
        Err(e) => {
            return Err(e);
        },
    };
    let fd: i32 = if fd_bits < 0x8000_0000 {
        fd_bits as i32
    } else {
        let wide: i64 = (fd_bits as i64) - 0x1_0000_0000;
        wide as i32
    };
    if fd == -1 {
        return Ok(());
    }
    // The sockaddr pointer argument itself must be readable; its
    // referent arrives as `sockaddr`.
    match ctx.read_u64_field(offsets.sockaddr) {
        Ok(_) => (),
        Err(e) => {
            return Err(e);
        },
    };
    let (family, address, port) = match parse_sockaddr(sockaddr) {
        Ok(p) => p,
        Err(e) => {
            return Err(e);
        },
    };
    let fd_val: u32 = if fd >= 0 {
        fd as u32
    } else {
        let wide: i64 = (fd as i64) + 0x1_0000_0000;
        wide as u32
    };
    let event = SockaddrEvent {
        pid: as_pid(pid_tgid),
        fd: fd_val,
        address,
        port,
        family,
        syscall,
        errno: 0,
        command,
    };
    if table.insert(pid_tgid, event) {
        Ok(())
    } else {
        Err(HandlerError::new(1))
    }
}

/// Entry probe for `bind`: control-syscall offsets.
pub fn sys_enter_bind(
    ctx: &RawContext,
    sockaddr: &[u8],
    pid_tgid: u64,
    command: [u8; 16],
    table: &mut InFlightTable,
) -> (r: HandlerResult)
    requires
        old(table).wf(),
    ensures
        final (table).wf(),
        final (table).spec_capacity() == old(table).spec_capacity(),
        enter_post(
            ctx.data(),
            sockaddr@,
            pid_tgid,
            command,
            spec_control_offsets(),
            Syscall::Bind,
            old(table).view(),
            final (table).view(),
            old(table).spec_capacity(),
            r,
        ),
{
    syscall_enter(ctx, sockaddr, pid_tgid, command, &control_offsets(), Syscall::Bind, table)
}

/// Entry probe for `connect`: control-syscall offsets.
pub fn sys_enter_connect(
    ctx: &RawContext,
    sockaddr: &[u8],
    pid_tgid: u64,
    command: [u8; 16],
    table: &mut InFlightTable,
) -> (r: HandlerResult)
    requires
        old(table).wf(),
    ensures
        final (table).wf(),
        final (table).spec_capacity() == old(table).spec_capacity(),
        enter_post(
            ctx.data(),
            sockaddr@,
            pid_tgid,
            command,
            spec_control_offsets(),
            Syscall::Connect,
            old(table).view(),
            final (table).view(),
            old(table).spec_capacity(),
            r,
        ),
{
    syscall_enter(ctx, sockaddr, pid_tgid, command, &control_offsets(), Syscall::Connect, table)
}

/// Entry probe for `recvfrom`: IO-syscall offsets.
pub fn sys_enter_recvfrom(
    ctx: &RawContext,
    sockaddr: &[u8],
    pid_tgid: u64,
    command: [u8; 16],
    table: &mut InFlightTable,
) -> (r: HandlerResult)
    requires
        old(table).wf(),
    ensures
        final (table).wf(),
        final (table).spec_capacity() == old(table).spec_capacity(),
        enter_post(
            ctx.data(),
            sockaddr@,
            pid_tgid,
            command,
            spec_io_offsets(),
            Syscall::RecvFrom,
            old(table).view(),
            final (table).view(),
            old(table).spec_capacity(),
            r,
        ),
{
    syscall_enter(ctx, sockaddr, pid_tgid, command, &io_offsets(), Syscall::RecvFrom, table)
}

/// Entry probe for `sendto`: IO-syscall offsets.
pub fn sys_enter_sendto(
    ctx: &RawContext,
    sockaddr: &[u8],
    pid_tgid: u64,
    command: [u8; 16],
    table: &mut InFlightTable,
) -> (r: HandlerResult)
    requires
        old(table).wf(),
    ensures
        final (table).wf(),
        final (table).spec_capacity() == old(table).spec_capacity(),
        enter_post(
            ctx.data(),
            sockaddr@,
            pid_tgid,
            command,
            spec_io_offsets(),
            Syscall::SendTo,
            old(table).view(),
            final (table).view(),
            old(table).spec_capacity(),
            r,
        ),
{
    syscall_enter(ctx, sockaddr, pid_tgid, command, &io_offsets(), Syscall::SendTo, table)
}

/// The completed event a syscall exit emits: the stored entry with the
/// exit's raw return value (truncated to 32 bits) and the exit-time
/// command name. The command is deliberately refreshed at exit: the
/// process may have changed identity (exec) between entry and exit.
pub open spec fn completed_event(entry: SockaddrEvent, ret: u64, command: [u8; 16]) -> SockaddrEvent {
    SockaddrEvent {
        errno: u32_bits_to_i32((ret % 0x1_0000_0000) as u32),
        command,
        ..entry
    }
}

/// Everything a syscall-exit probe guarantees.
pub open spec fn exit_post(
    data: Seq<u8>,
    pid_tgid: u64,
    command: [u8; 16],
    old_t: Map<u64, SockaddrEvent>,
    new_t: Map<u64, SockaddrEvent>,
    r: Result<SockaddrEvent, HandlerError>,
) -> bool {
    &&& (!can_read(data, 16, 8) ==> r is Err && new_t == old_t)
    &&& (can_read(data, 16, 8) && !old_t.contains_key(pid_tgid) ==> r is Err && new_t == old_t)
    &&& (can_read(data, 16, 8) && old_t.contains_key(pid_tgid) ==> {
        &&& r == Ok::<SockaddrEvent, HandlerError>(
            completed_event(old_t[pid_tgid], le64(data, 16), command),
        )
        &&& new_t == old_t.remove(pid_tgid)
    })
}

/// Handles one syscall-exit invocation: reads the syscall's raw return
/// value, completes the matching in-flight entry, removes it, and
/// returns the now-complete event for emission. An exit with no
/// matching entry fails; the return value is discarded and no event is
/// produced.
pub fn syscall_exit(
    ctx: &RawContext,
    pid_tgid: u64,
    command: [u8; 16],
    table: &mut InFlightTable,
) -> (r: Result<SockaddrEvent, HandlerError>)
    requires
        old(table).wf(),
    ensures
        final (table).wf(),
        final (table).spec_capacity() == old(table).spec_capacity(),
        exit_post(ctx.data(), pid_tgid, command, old(table).view(), final (table).view(), r),
{
    let ret = match ctx.read_u64_field(16) {
        Ok(v) => v,
        Err(e) => {
            return Err(e);
        },
    };
    let entry = match table.get(pid_tgid) {
        Some(e) => e,
        None => {
            return Err(HandlerError::new(1));
        },
    };
    let low: u32 = (ret % 0x1_0000_0000) as u32;
    let errno: i32 = if low < 0x8000_0000 {
        low as i32
    } else {
        let wide: i64 = (low as i64) - 0x1_0000_0000;
        wide as i32
    };
    let event = SockaddrEvent { errno, command, ..entry };
    // Removal is unconditional once emission is attempted, so the table
    // cannot accumulate completed entries.
    table.remove(pid_tgid);
    Ok(event)
}

/// Exit probe shared by all four traced syscalls: the return value sits
/// at the same fixed offset for each.
pub fn sys_exit(
    ctx: &RawContext,
    pid_tgid: u64,
    command: [u8; 16],
    table: &mut InFlightTable,
) -> (r: Result<SockaddrEvent, HandlerError>)
    requires
        old(table).wf(),
    ensures
        final (table).wf(),
        final (table).spec_capacity() == old(table).spec_capacity(),
        exit_post(ctx.data(), pid_tgid, command, old(table).view(), final (table).view(), r),
{
    syscall_exit(ctx, pid_tgid, command, table)
}

/// Correlation: when a syscall entry stores an in-flight event and the
/// matching exit observes it, the emitted event carries the entry's
/// address, port and family and the exit's result code and command,
/// and the entry is gone from the table.
pub proof fn lemma_entry_exit_correlation(
    data_in: Seq<u8>,
    sa: Seq<u8>,
    data_out: Seq<u8>,
    pid_tgid: u64,
    cmd_in: [u8; 16],
    cmd_out: [u8; 16],
    offsets: ArgumentOffsets,
    syscall: Syscall,
    t0: Map<u64, SockaddrEvent>,
    t1: Map<u64, SockaddrEvent>,
    t2: Map<u64, SockaddrEvent>,
    cap: nat,
    r1: HandlerResult,
    r2: Result<SockaddrEvent, HandlerError>,
)
    requires
        enter_post(data_in, sa, pid_tgid, cmd_in, offsets, syscall, t0, t1, cap, r1),
        exit_post(data_out, pid_tgid, cmd_out, t1, t2, r2),
        enter_parsed(data_in, sa, offsets) is Some,
        t0.contains_key(pid_tgid) || t0.len() < cap,
        can_read(data_out, 16, 8),
    ensures
        r2 matches Ok(e) && {
            let parsed = enter_parsed(data_in, sa, offsets).unwrap();
            &&& e.family == parsed.0
            &&& e.address@ == parsed.1
            &&& e.port == parsed.2
            &&& e.syscall == syscall
            &&& e.pid == pid_tgid / 0x1_0000_0000
            &&& e.errno == u32_bits_to_i32((le64(data_out, 16) % 0x1_0000_0000) as u32)
            &&& e.command == cmd_out
        },
        t2 == t0.remove(pid_tgid),
{
    assert(t1.contains_key(pid_tgid));
    assert(t0.insert(pid_tgid, t1[pid_tgid]).remove(pid_tgid) =~= t0.remove(pid_tgid));
}

/// An exit with no in-flight entry under its key produces no event and
/// leaves the table unchanged.
pub proof fn lemma_unmatched_exit_produces_nothing(
    data: Seq<u8>,
    pid_tgid: u64,
    command: [u8; 16],
    t0: Map<u64, SockaddrEvent>,
    t1: Map<u64, SockaddrEvent>,
    r: Result<SockaddrEvent, HandlerError>,
)
    requires
        exit_post(data, pid_tgid, command, t0, t1, r),
        !t0.contains_key(pid_tgid),
    ensures
        r is Err,
        t1 == t0,
{
}

/// A locally failed syscall (fd -1) observed at entry creates no
/// in-flight entry, so no event can ever be emitted for it.
pub proof fn lemma_failed_fd_creates_nothing(
    data: Seq<u8>,
    sa: Seq<u8>,
    pid_tgid: u64,
    command: [u8; 16],
    offsets: ArgumentOffsets,
    syscall: Syscall,
    t0: Map<u64, SockaddrEvent>,
    t1: Map<u64, SockaddrEvent>,
    cap: nat,
    r: HandlerResult,
)
    requires
        enter_post(data, sa, pid_tgid, command, offsets, syscall, t0, t1, cap, r),
        enter_fd(data, offsets) == Some(-1i32),
    ensures
        r is Ok,
        t1 == t0,
{
}

/// A state-transition invocation's buffer holds every field its family
/// requires.
pub open spec fn state_ok(data: Seq<u8>) -> bool {
    &&& data.len() >= 30
    &&& (le16(data, 28) == AF_INET || le16(data, 28) == AF_INET6)
    &&& (le16(data, 28) == AF_INET ==> data.len() >= 40)
    &&& (le16(data, 28) == AF_INET6 ==> data.len() >= 72)
}

/// `e` is the state-transition event decoded from the invocation.
pub open spec fn is_state_event(
    e: SocketStateEvent,
    data: Seq<u8>,
    pid_tgid: u64,
    command: [u8; 16],
) -> bool {
    &&& e.old_state == le32(data, 16)
    &&& e.new_state == le32(data, 20)
    &&& e.src_port == le16(data, 24)
    &&& e.dst_port == le16(data, 26)
    &&& (le16(data, 28) == AF_INET ==> {
        &&& e.family == AddressFamily::Ipv4
        &&& e.src_address@ == canonical_v4(data.subrange(32, 36))
        &&& e.dst_address@ == canonical_v4(data.subrange(36, 40))
    })
    &&& (le16(data, 28) == AF_INET6 ==> {
        &&& e.family == AddressFamily::Ipv6
        &&& e.src_address@ == data.subrange(40, 56)
        &&& e.dst_address@ == data.subrange(56, 72)
    })
    &&& e.pid == pid_tgid / 0x1_0000_0000
    &&& e.command == command
    &&& e._padding == 0
}

/// Reads the source/destination address pair of a state transition;
/// the layout differs by family, mirroring the enter handler's family
/// dispatch.
pub fn read_address_pair(family: &AddressFamily, ctx: &RawContext) -> (r: Result<
    ([u8; 16], [u8; 16]),
    HandlerError,
>)
    ensures
        *family == AddressFamily::Ipv4 ==> {
            &&& r is Ok <==> can_read(ctx.data(), 32, 8)
            &&& r matches Ok((s, d)) ==> s@ == canonical_v4(ctx.data().subrange(32, 36)) && d@
                == canonical_v4(ctx.data().subrange(36, 40))
        },
        *family == AddressFamily::Ipv6 ==> {
            &&& r is Ok <==> can_read(ctx.data(), 40, 32)
            &&& r matches Ok((s, d)) ==> s@ == ctx.data().subrange(40, 56) && d@
                == ctx.data().subrange(56, 72)
        },
        r matches Err(e) ==> e.spec_code() == 1,
{
    match family {
        AddressFamily::Ipv4 => {
            let s = match ctx.read_bytes4_field(32) {
                Ok(v) => v,
                Err(e) => {
                    return Err(e);
                },
            };
            let d = match ctx.read_bytes4_field(36) {
                Ok(v) => v,
                Err(e) => {
                    return Err(e);
                },
            };
            Ok((canonicalize_ipv4(&s), canonicalize_ipv4(&d)))
        },
        AddressFamily::Ipv6 => {
            let s = match ctx.read_bytes16_field(40) {
                Ok(v) => v,
                Err(e) => {
                    return Err(e);
                },
            };
            let d = match ctx.read_bytes16_field(56) {
                Ok(v) => v,
                Err(e) => {
                    return Err(e);
                },
            };
            Ok((s, d))
        },
    }
}

/// Handles one TCP state-transition invocation: single-shot, no
/// correlation. Decodes the state codes, ports, family and address
/// pair, and returns the event for emission.
pub fn inet_sock_set_state(ctx: &RawContext, pid_tgid: u64, command: [u8; 16]) -> (r: Result<
    SocketStateEvent,
    HandlerError,
>)
    ensures
        r is Ok <==> state_ok(ctx.data()),
        r matches Ok(e) ==> is_state_event(e, ctx.data(), pid_tgid, command),
        r matches Err(e) ==> e.spec_code() == 1,
{
    let old_state = match ctx.read_u32_field(16) {
        Ok(v) => v,
        Err(e) => {
            return Err(e);
        },
    };
    let new_state = match ctx.read_u32_field(20) {
        Ok(v) => v,
        Err(e) => {
            return Err(e);
        },
    };
    let src_port = match ctx.read_u16_field(24) {
        Ok(v) => v,
        Err(e) => {
            return Err(e);
        },
    };
    let dst_port = match ctx.read_u16_field(26) {
        Ok(v) => v,
        Err(e) => {
            return Err(e);
        },
    };
    let family = match ctx.read_u16_field(28) {
        Ok(v) if v == AF_INET => AddressFamily::Ipv4,
        Ok(v) if v == AF_INET6 => AddressFamily::Ipv6,
        Ok(_) => {
            return Err(HandlerError::new(1));
        },
        Err(e) => {
            return Err(e);
        },
    };
    let (src_address, dst_address) = match read_address_pair(&family, ctx) {
        Ok(p) => p,
        Err(e) => {
            return Err(e);
        },
    };
    Ok(SocketStateEvent {
        src_port,
        dst_port,
        family,
        _padding: 0,
        old_state,
        new_state,
        pid: as_pid(pid_tgid),
        src_address,
        dst_address,
        command,
    })
}

} // verus!
