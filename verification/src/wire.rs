//! The fixed kernel-to-user wire format.
//!
//! Each event type crosses the kernel/user boundary as one fixed-size,
//! C-layout record; field order and sizes are load-bearing. This module
//! decodes raw records into the event types (the per-queue builder the
//! readers use) and encodes events back into records, so both directions
//! of the format are pinned by one pair of specifications.

use vstd::prelude::*;
use vstd::bytes::{
    spec_u16_from_le_bytes, spec_u32_from_le_bytes, u16_from_le_bytes, u16_to_le_bytes,
    u32_from_le_bytes, u32_to_le_bytes, lemma_auto_spec_u16_to_from_le_bytes,
    lemma_auto_spec_u32_to_from_le_bytes,
};
use vstd::slice::slice_subrange;
use crate::events::{AddressFamily, SockaddrEvent, SocketStateEvent, Syscall};

verus! {

/// Size in bytes of one `SockaddrEvent` wire record.
pub const SOCKADDR_EVENT_SIZE: usize = 48;

/// Size in bytes of one `SocketStateEvent` wire record.
pub const SOCKET_STATE_EVENT_SIZE: usize = 68;

/// A raw record that could not be decoded.
#[derive(Clone, Copy, Debug, PartialEq, Eq, Structural)]
pub enum WireError {
    /// The record is shorter than the event's fixed size.
    TooShort,
    /// The address-family tag byte is not a known family.
    BadFamily,
    /// The syscall tag byte is not a traced syscall.
    BadSyscall,
}

/// The tag byte for an address family.
pub open spec fn family_code(family: AddressFamily) -> u8 {
    match family {
        AddressFamily::Ipv4 => 0,
        AddressFamily::Ipv6 => 1,
    }
}

/// The address family for a tag byte, if any.
pub open spec fn family_of_code(code: u8) -> Option<AddressFamily> {
    if code == 0 {
        Some(AddressFamily::Ipv4)
    } else if code == 1 {
        Some(AddressFamily::Ipv6)
    } else {
        None
    }
}

/// The tag byte for a syscall.
pub open spec fn syscall_code(syscall: Syscall) -> u8 {
    match syscall {
        Syscall::Bind => 0,
        Syscall::Connect => 1,
        Syscall::RecvFrom => 2,
        Syscall::SendTo => 3,
    }
}

/// The syscall for a tag byte, if any.
pub open spec fn syscall_of_code(code: u8) -> Option<Syscall> {
    if code == 0 {
        Some(Syscall::Bind)
    } else if code == 1 {
        Some(Syscall::Connect)
    } else if code == 2 {
        Some(Syscall::RecvFrom)
    } else if code == 3 {
        Some(Syscall::SendTo)
    } else {
        None
    }
}

/// The `i32` whose two's-complement bits equal `u`.
pub open spec fn u32_bits_to_i32(u: u32) -> i32 {
    if u < 0x8000_0000 {
        u as i32
    } else {
        ((u as int) - 0x1_0000_0000) as i32
    }
}

/// The `u32` holding the two's-complement bits of `v`.
pub open spec fn i32_to_u32_bits(v: i32) -> u32 {
    if v >= 0 {
        v as u32
    } else {
        ((v as int) + 0x1_0000_0000) as u32
    }
}

/// A `SockaddrEvent` record is well-formed: long enough, with known
/// family and syscall tags.
pub open spec fn sockaddr_record_ok(b: Seq<u8>) -> bool {
    &&& b.len() >= SOCKADDR_EVENT_SIZE
    &&& family_of_code(b[26]) is Some
    &&& syscall_of_code(b[27]) is Some
}

/// `e` is the decoding of the `SockaddrEvent` record `b`.
pub open spec fn is_sockaddr_decode(b: Seq<u8>, e: SockaddrEvent) -> bool {
    &&& e.pid == spec_u32_from_le_bytes(b.subrange(0, 4))
    &&& e.fd == spec_u32_from_le_bytes(b.subrange(4, 8))
    &&& e.address@ == b.subrange(8, 24)
    &&& e.port == spec_u16_from_le_bytes(b.subrange(24, 26))
    &&& family_code(e.family) == b[26]
    &&& syscall_code(e.syscall) == b[27]
    &&& e.errno == u32_bits_to_i32(spec_u32_from_le_bytes(b.subrange(28, 32)))
    &&& e.command@ == b.subrange(32, 48)
}

/// A `SocketStateEvent` record is well-formed: long enough, with a known
/// family tag.
pub open spec fn state_record_ok(b: Seq<u8>) -> bool {
    &&& b.len() >= SOCKET_STATE_EVENT_SIZE
    &&& family_of_code(b[4]) is Some
}

/// `e` is the decoding of the `SocketStateEvent` record `b`.
pub open spec fn is_state_decode(b: Seq<u8>, e: SocketStateEvent) -> bool {
    &&& e.src_port == spec_u16_from_le_bytes(b.subrange(0, 2))
    &&& e.dst_port == spec_u16_from_le_bytes(b.subrange(2, 4))
    &&& family_code(e.family) == b[4]
    &&& e._padding == 0
    &&& e.old_state == spec_u32_from_le_bytes(b.subrange(8, 12))
    &&& e.new_state == spec_u32_from_le_bytes(b.subrange(12, 16))
    &&& e.pid == spec_u32_from_le_bytes(b.subrange(16, 20))
    &&& e.src_address@ == b.subrange(20, 36)
    &&& e.dst_address@ == b.subrange(36, 52)
    &&& e.command@ == b.subrange(52, 68)
}

/// Reads the little-endian `u16` field at `off`.
fn read_u16_at(b: &[u8], off: usize) -> (r: u16)
    requires
        off + 2 <= b@.len(),
    ensures
        r == spec_u16_from_le_bytes(b@.subrange(off as int, off + 2)),
{
    // The slice length bounds `off + 2`, so the sum cannot overflow.
    let n: usize = b.len();
    u16_from_le_bytes(slice_subrange(b, off, off + 2))
}

/// Reads the little-endian `u32` field at `off`.
fn read_u32_at(b: &[u8], off: usize) -> (r: u32)
    requires
        off + 4 <= b@.len(),
    ensures
        r == spec_u32_from_le_bytes(b@.subrange(off as int, off + 4)),
{
    // The slice length bounds `off + 4`, so the sum cannot overflow.
    let n: usize = b.len();
    u32_from_le_bytes(slice_subrange(b, off, off + 4))
}

/// Reads the 16-byte buffer field at `off`.
fn read_bytes16_at(b: &[u8], off: usize) -> (r: [u8; 16])
    requires
        off + 16 <= b@.len(),
    ensures
        r@ == b@.subrange(off as int, off + 16),
{
    let r = [
        b[off], b[off + 1], b[off + 2], b[off + 3],
        b[off + 4], b[off + 5], b[off + 6], b[off + 7],
        b[off + 8], b[off + 9], b[off + 10], b[off + 11],
        b[off + 12], b[off + 13], b[off + 14], b[off + 15],
    ];
    proof {
        assert(r@ =~= b@.subrange(off as int, off + 16));
    }
    r
}

/// Reads the signed 32-bit field at `off` (two's complement).
fn read_i32_at(b: &[u8], off: usize) -> (r: i32)
    requires
        off + 4 <= b@.len(),
    ensures
        r == u32_bits_to_i32(spec_u32_from_le_bytes(b@.subrange(off as int, off + 4))),
{
    let u = read_u32_at(b, off);
    if u < 0x8000_0000 {
        u as i32
    } else {
        let wide: i64 = (u as i64) - 0x1_0000_0000;
        wide as i32
    }
}

/// Decodes the family tag byte.
fn decode_family(code: u8) -> (r: Option<AddressFamily>)
    ensures
        r == family_of_code(code),
{
    if code == 0 {
        Some(AddressFamily::Ipv4)
    } else if code == 1 {
        Some(AddressFamily::Ipv6)
    } else {
        None
    }
}

/// Decodes the syscall tag byte.
fn decode_syscall(code: u8) -> (r: Option<Syscall>)
    ensures
        r == syscall_of_code(code),
{
    if code == 0 {
        Some(Syscall::Bind)
    } else if code == 1 {
        Some(Syscall::Connect)
    } else if code == 2 {
        Some(Syscall::RecvFrom)
    } else if code == 3 {
        Some(Syscall::SendTo)
    } else {
        None
    }
}

/// Decodes one raw `SockaddrEvent` record.
pub fn decode_sockaddr_event(bytes: &[u8]) -> (r: Result<SockaddrEvent, WireError>)
    ensures
        sockaddr_record_ok(bytes@) <==> r is Ok,
        r matches Ok(e) ==> is_sockaddr_decode(bytes@, e),
        bytes@.len() < SOCKADDR_EVENT_SIZE ==> r == Err::<SockaddrEvent, WireError>(
            WireError::TooShort,
        ),
        bytes@.len() >= SOCKADDR_EVENT_SIZE && family_of_code(bytes@[26]) is None ==> r
            == Err::<SockaddrEvent, WireError>(WireError::BadFamily),
        bytes@.len() >= SOCKADDR_EVENT_SIZE && family_of_code(bytes@[26]) is Some
            && syscall_of_code(bytes@[27]) is None ==> r == Err::<SockaddrEvent, WireError>(
            WireError::BadSyscall,
        ),
{
    if bytes.len() < SOCKADDR_EVENT_SIZE {
        return Err(WireError::TooShort);
    }
    let family = match decode_family(bytes[26]) {
        Some(f) => f,
        None => {
            return Err(WireError::BadFamily);
        },
    };
    let syscall = match decode_syscall(bytes[27]) {
        Some(s) => s,
        None => {
            return Err(WireError::BadSyscall);
        },
    };
    Ok(SockaddrEvent {
        pid: read_u32_at(bytes, 0),
        fd: read_u32_at(bytes, 4),
        address: read_bytes16_at(bytes, 8),
        port: read_u16_at(bytes, 24),
        family,
        syscall,
        errno: read_i32_at(bytes, 28),
        command: read_bytes16_at(bytes, 32),
    })
}

/// Decodes one raw `SocketStateEvent` record.
pub fn decode_state_event(bytes: &[u8]) -> (r: Result<SocketStateEvent, WireError>)
    ensures
        state_record_ok(bytes@) <==> r is Ok,
        r matches Ok(e) ==> is_state_decode(bytes@, e),
        bytes@.len() < SOCKET_STATE_EVENT_SIZE ==> r == Err::<SocketStateEvent, WireError>(
            WireError::TooShort,
        ),
        bytes@.len() >= SOCKET_STATE_EVENT_SIZE && family_of_code(bytes@[4]) is None ==> r
            == Err::<SocketStateEvent, WireError>(WireError::BadFamily),
{
    if bytes.len() < SOCKET_STATE_EVENT_SIZE {
        return Err(WireError::TooShort);
    }
    let family = match decode_family(bytes[4]) {
        Some(f) => f,
        None => {
            return Err(WireError::BadFamily);
        },
    };
    Ok(SocketStateEvent {
        src_port: read_u16_at(bytes, 0),
        dst_port: read_u16_at(bytes, 2),
        family,
        _padding: 0,
        old_state: read_u32_at(bytes, 8),
        new_state: read_u32_at(bytes, 12),
        pid: read_u32_at(bytes, 16),
        src_address: read_bytes16_at(bytes, 20),
        dst_address: read_bytes16_at(bytes, 36),
        command: read_bytes16_at(bytes, 52),
    })
}

/// Appends the little-endian bytes of `v`.
fn push_u16_le(out: &mut Vec<u8>, v: u16)
    ensures
        final (out)@ == old(out)@ + vstd::bytes::spec_u16_to_le_bytes(v),
{
    let mut b = u16_to_le_bytes(v);
    out.append(&mut b);
}

/// Appends the little-endian bytes of `v`.
fn push_u32_le(out: &mut Vec<u8>, v: u32)
    ensures
        final (out)@ == old(out)@ + vstd::bytes::spec_u32_to_le_bytes(v),
{
    let mut b = u32_to_le_bytes(v);
    out.append(&mut b);
}

/// Appends a 16-byte buffer.
fn push_bytes16(out: &mut Vec<u8>, b: &[u8; 16])
    ensures
        final (out)@ == old(out)@ + b@,
{
    let mut i: usize = 0;
    while i < 16
        invariant
            i <= 16,
            out@ == old(out)@ + b@.subrange(0, i as int),
        decreases 16 - i,
    {
        out.push(b[i]);
        proof {
            assert(old(out)@ + b@.subrange(0, i + 1) =~= (old(out)@ + b@.subrange(0, i as int)).push(
                b@[i as int],
            ));
        }
        i = i + 1;
    }
    proof {
        assert(b@.subrange(0, 16) =~= b@);
    }
}

/// Encodes a `SockaddrEvent` as one wire record; decoding it yields the
/// event back.
pub fn encode_sockaddr_event(e: &SockaddrEvent) -> (r: Vec<u8>)
    ensures
        r@.len() == SOCKADDR_EVENT_SIZE,
        sockaddr_record_ok(r@),
        is_sockaddr_decode(r@, *e),
{
    proof {
        lemma_auto_spec_u16_to_from_le_bytes();
        lemma_auto_spec_u32_to_from_le_bytes();
    }
    let mut out: Vec<u8> = Vec::new();
    push_u32_le(&mut out, e.pid);
    push_u32_le(&mut out, e.fd);
    push_bytes16(&mut out, &e.address);
    push_u16_le(&mut out, e.port);
    out.push(encode_family(e.family));
    out.push(encode_syscall(e.syscall));
    let errno_bits: u32 = if e.errno >= 0 {
        e.errno as u32
    } else {
        let wide: i64 = (e.errno as i64) + 0x1_0000_0000;
        wide as u32
    };
    push_u32_le(&mut out, errno_bits);
    push_bytes16(&mut out, &e.command);
    proof {
        let b = out@;
        assert(b.subrange(0, 4) =~= vstd::bytes::spec_u32_to_le_bytes(e.pid));
        assert(b.subrange(4, 8) =~= vstd::bytes::spec_u32_to_le_bytes(e.fd));
        assert(b.subrange(8, 24) =~= e.address@);
        assert(b.subrange(24, 26) =~= vstd::bytes::spec_u16_to_le_bytes(e.port));
        assert(b.subrange(28, 32) =~= vstd::bytes::spec_u32_to_le_bytes(errno_bits));
        assert(b.subrange(32, 48) =~= e.command@);
    }
    out
}

/// The family tag byte.
fn encode_family(family: AddressFamily) -> (r: u8)
    ensures
        r == family_code(family),
        family_of_code(r) == Some(family),
{
    match family {
        AddressFamily::Ipv4 => 0,
        AddressFamily::Ipv6 => 1,
    }
}

/// The syscall tag byte.
fn encode_syscall(syscall: Syscall) -> (r: u8)
    ensures
        r == syscall_code(syscall),
        syscall_of_code(r) == Some(syscall),
{
    match syscall {
        Syscall::Bind => 0,
        Syscall::Connect => 1,
        Syscall::RecvFrom => 2,
        Syscall::SendTo => 3,
    }
}

/// Encodes a `SocketStateEvent` as one wire record; decoding it yields
/// the event back (with the padding byte zeroed).
pub fn encode_state_event(e: &SocketStateEvent) -> (r: Vec<u8>)
    ensures
        r@.len() == SOCKET_STATE_EVENT_SIZE,
        state_record_ok(r@),
        is_state_decode(r@, SocketStateEvent { _padding: 0, ..*e }),
{
    proof {
        lemma_auto_spec_u16_to_from_le_bytes();
        lemma_auto_spec_u32_to_from_le_bytes();
    }
    let mut out: Vec<u8> = Vec::new();
    push_u16_le(&mut out, e.src_port);
    push_u16_le(&mut out, e.dst_port);
    out.push(encode_family(e.family));
    out.push(0);
    out.push(0);
    out.push(0);
    push_u32_le(&mut out, e.old_state);
    push_u32_le(&mut out, e.new_state);
    push_u32_le(&mut out, e.pid);
    push_bytes16(&mut out, &e.src_address);
    push_bytes16(&mut out, &e.dst_address);
    push_bytes16(&mut out, &e.command);
    proof {
        let b = out@;
        assert(b.subrange(0, 2) =~= vstd::bytes::spec_u16_to_le_bytes(e.src_port));
        assert(b.subrange(2, 4) =~= vstd::bytes::spec_u16_to_le_bytes(e.dst_port));
        assert(b.subrange(8, 12) =~= vstd::bytes::spec_u32_to_le_bytes(e.old_state));
        assert(b.subrange(12, 16) =~= vstd::bytes::spec_u32_to_le_bytes(e.new_state));
        assert(b.subrange(16, 20) =~= vstd::bytes::spec_u32_to_le_bytes(e.pid));
        assert(b.subrange(20, 36) =~= e.src_address@);
        assert(b.subrange(36, 52) =~= e.dst_address@);
        assert(b.subrange(52, 68) =~= e.command@);
    }
    out
}

/// One decoded event, tagged by which queue it came from.
#[derive(Clone, Copy, Debug)]
pub enum BpfEvent {
    Sockaddr(SockaddrEvent),
    SocketState(SocketStateEvent),
}

/// Which wire event type a queue carries.
#[derive(Clone, Copy, Debug, PartialEq, Eq, Structural)]
pub enum QueueKind {
    Sockaddr,
    SocketState,
}

/// The fixed record size of a queue's wire event type.
pub fn record_size(kind: QueueKind) -> (r: usize)
    ensures
        kind == QueueKind::Sockaddr ==> r == SOCKADDR_EVENT_SIZE,
        kind == QueueKind::SocketState ==> r == SOCKET_STATE_EVENT_SIZE,
{
    match kind {
        QueueKind::Sockaddr => SOCKADDR_EVENT_SIZE,
        QueueKind::SocketState => SOCKET_STATE_EVENT_SIZE,
    }
}

/// `e` is the decoding of record `b` on a queue of kind `kind`.
pub open spec fn is_queue_decode(kind: QueueKind, b: Seq<u8>, e: BpfEvent) -> bool {
    match kind {
        QueueKind::Sockaddr => e matches BpfEvent::Sockaddr(ev) && is_sockaddr_decode(b, ev),
        QueueKind::SocketState => e matches BpfEvent::SocketState(ev) && is_state_decode(b, ev),
    }
}

/// A record on a queue of kind `kind` is well-formed.
pub open spec fn queue_record_ok(kind: QueueKind, b: Seq<u8>) -> bool {
    match kind {
        QueueKind::Sockaddr => sockaddr_record_ok(b),
        QueueKind::SocketState => state_record_ok(b),
    }
}

/// The per-queue builder: decodes one raw record into a tagged event.
pub fn build_event(kind: QueueKind, bytes: &[u8]) -> (r: Result<BpfEvent, WireError>)
    ensures
        queue_record_ok(kind, bytes@) <==> r is Ok,
        r matches Ok(e) ==> is_queue_decode(kind, bytes@, e),
{
    match kind {
        QueueKind::Sockaddr => match decode_sockaddr_event(bytes) {
            Ok(e) => Ok(BpfEvent::Sockaddr(e)),
            Err(err) => Err(err),
        },
        QueueKind::SocketState => match decode_state_event(bytes) {
            Ok(e) => Ok(BpfEvent::SocketState(e)),
            Err(err) => Err(err),
        },
    }
}

} // verus!
