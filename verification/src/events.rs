//! Wire event types shared between the kernel-side probes and the
//! userspace pipeline, and the uniform probe entry-point adapter.

use vstd::prelude::*;

verus! {

/// Address family of a socket address, as tagged on every event.
#[derive(Clone, Copy, Debug, PartialEq, Eq, Structural)]
pub enum AddressFamily {
    Ipv4,
    Ipv6,
}

/// The traced syscall families.
#[derive(Clone, Copy, Debug, PartialEq, Eq, Structural)]
pub enum Syscall {
    Bind,
    Connect,
    RecvFrom,
    SendTo,
}

/// One syscall-level address event.
///
/// `errno` holds the syscall's raw return value and is only meaningful
/// once the matching exit has been observed; until then the event is
/// incomplete and lives in the in-flight call table.
#[derive(Clone, Copy, Debug, PartialEq, Eq)]
pub struct SockaddrEvent {
    pub pid: u32,
    pub fd: u32,
    /// 16-byte address buffer: IPv4 occupies bytes 0-3, zero-padded;
    /// IPv6 fills all 16 bytes.
    pub address: [u8; 16],
    /// Port in network byte order, as read from the sockaddr.
    pub port: u16,
    pub family: AddressFamily,
    pub syscall: Syscall,
    /// Raw syscall return value: 0 or positive on success, negative for a
    /// libc-style error.
    pub errno: i32,
    /// NUL-padded process name.
    pub command: [u8; 16],
}

/// One TCP state transition; self-contained, no correlation needed.
#[derive(Clone, Copy, Debug, PartialEq, Eq)]
pub struct SocketStateEvent {
    pub src_port: u16,
    pub dst_port: u16,
    pub family: AddressFamily,
    pub _padding: u8,
    pub old_state: u32,
    pub new_state: u32,
    pub pid: u32,
    pub src_address: [u8; 16],
    pub dst_address: [u8; 16],
    pub command: [u8; 16],
}

/// A probe's failure code: a small integer handed back to the kernel
/// loader. Probes never unwind; any decode failure becomes one of these.
#[derive(Clone, Copy, Debug)]
pub struct HandlerError(i32);

impl HandlerError {
    /// The integer code carried by this error.
    pub closed spec fn spec_code(self) -> i32 {
        self.0
    }

    /// Wraps a raw code.
    pub fn new(code: i32) -> (r: Self)
        ensures
            r.spec_code() == code,
    {
        HandlerError(code)
    }

    /// Wraps a wide raw code, clamping values that do not fit an `i32`
    /// to the generic failure code 1.
    pub fn from_code(code: i64) -> (r: Self)
        ensures
            r.spec_code() == (if i32::MIN <= code <= i32::MAX {
                code as i32
            } else {
                1i32
            }),
    {
        if code >= i32::MIN as i64 && code <= i32::MAX as i64 {
            HandlerError(code as i32)
        } else {
            HandlerError(1)
        }
    }

    pub fn into_error_code(self) -> (r: i32)
        ensures
            r == self.spec_code(),
    {
        self.0
    }
}

/// What a probe returns: success, or a small failure code.
pub type HandlerResult = Result<(), HandlerError>;

/// The loader-facing adapter shared by every probe: translates a probe's
/// result into the integer status the kernel loader requires, `0` for
/// success and the probe's failure code otherwise.
pub fn entrypoint_status(result: HandlerResult) -> (r: i32)
    ensures
        result is Ok ==> r == 0,
        result matches Err(e) ==> r == e.spec_code(),
{
    match result {
        Ok(()) => 0,
        Err(e) => e.into_error_code(),
    }
}

} // verus!
