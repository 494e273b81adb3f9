//! The event processor: the single consumer draining the dispatch
//! channel, decoding enumerations and addresses, validating state
//! codes, and rendering one text line per event.
//!
//! An unrecognized TCP state code is a recoverable error: that one
//! event is skipped and the processor continues. Output order is
//! exactly arrival order on the channel.

use vstd::prelude::*;
use crate::dispatch::{views_of, EventChannel};
use crate::events::{AddressFamily, SockaddrEvent, SocketStateEvent, Syscall};
use crate::render::{command_text, dec_digits, dec_i32, ipv4_text, ipv6_text, push_command,
    push_i32_dec, push_ipv4, push_ipv6, push_str_bytes, push_u32_dec};
use crate::wire::BpfEvent;
use vstd::string::StringSliceAdditionalSpecFns;

verus! {

/// Configuration of the processor's dispatch channel.
pub struct EventProcessorConfig {
    /// Capacity of the shared bounded channel.
    pub channel_size: usize,
}

impl Default for EventProcessorConfig {
    /// The default channel capacity.
    fn default() -> (r: Self)
        ensures
            r.channel_size == 1024,
    {
        EventProcessorConfig { channel_size: 1024 }
    }
}

/// The state of a TCP connection, as the kernel numbers them (1-12).
#[derive(Clone, Copy, Debug, PartialEq, Eq, Structural)]
pub enum TcpState {
    Established,
    SynSent,
    SynReceived,
    FinWait1,
    FinWait2,
    TimeWait,
    Close,
    CloseWait,
    LastAck,
    Listen,
    Closing,
    NewSynReceived,
}

/// The TCP state a raw code denotes, if any: codes 1 through 12.
pub open spec fn tcp_state_of(v: u32) -> Option<TcpState> {
    if v == 1 {
        Some(TcpState::Established)
    } else if v == 2 {
        Some(TcpState::SynSent)
    } else if v == 3 {
        Some(TcpState::SynReceived)
    } else if v == 4 {
        Some(TcpState::FinWait1)
    } else if v == 5 {
        Some(TcpState::FinWait2)
    } else if v == 6 {
        Some(TcpState::TimeWait)
    } else if v == 7 {
        Some(TcpState::Close)
    } else if v == 8 {
        Some(TcpState::CloseWait)
    } else if v == 9 {
        Some(TcpState::LastAck)
    } else if v == 10 {
        Some(TcpState::Listen)
    } else if v == 11 {
        Some(TcpState::Closing)
    } else if v == 12 {
        Some(TcpState::NewSynReceived)
    } else {
        None
    }
}

/// Decodes a raw TCP state code.
pub fn tcp_state_from_u32(v: u32) -> (r: Option<TcpState>)
    ensures
        r == tcp_state_of(v),
{
    if v == 1 {
        Some(TcpState::Established)
    } else if v == 2 {
        Some(TcpState::SynSent)
    } else if v == 3 {
        Some(TcpState::SynReceived)
    } else if v == 4 {
        Some(TcpState::FinWait1)
    } else if v == 5 {
        Some(TcpState::FinWait2)
    } else if v == 6 {
        Some(TcpState::TimeWait)
    } else if v == 7 {
        Some(TcpState::Close)
    } else if v == 8 {
        Some(TcpState::CloseWait)
    } else if v == 9 {
        Some(TcpState::LastAck)
    } else if v == 10 {
        Some(TcpState::Listen)
    } else if v == 11 {
        Some(TcpState::Closing)
    } else if v == 12 {
        Some(TcpState::NewSynReceived)
    } else {
        None
    }
}

/// The display name of a TCP state.
pub open spec fn state_text(s: TcpState) -> Seq<u8> {
    match s {
        TcpState::Established => "Established".spec_bytes(),
        TcpState::SynSent => "SynSent".spec_bytes(),
        TcpState::SynReceived => "SynReceived".spec_bytes(),
        TcpState::FinWait1 => "FinWait1".spec_bytes(),
        TcpState::FinWait2 => "FinWait2".spec_bytes(),
        TcpState::TimeWait => "TimeWait".spec_bytes(),
        TcpState::Close => "Close".spec_bytes(),
        TcpState::CloseWait => "CloseWait".spec_bytes(),
        TcpState::LastAck => "LastAck".spec_bytes(),
        TcpState::Listen => "Listen".spec_bytes(),
        TcpState::Closing => "Closing".spec_bytes(),
        TcpState::NewSynReceived => "NewSynReceived".spec_bytes(),
    }
}

/// The display name of a TCP state.
pub fn state_name(state: &TcpState) -> (r: &'static str)
    ensures
        r.spec_bytes() == state_text(*state),
{
    match state {
        TcpState::Established => "Established",
        TcpState::SynSent => "SynSent",
        TcpState::SynReceived => "SynReceived",
        TcpState::FinWait1 => "FinWait1",
        TcpState::FinWait2 => "FinWait2",
        TcpState::TimeWait => "TimeWait",
        TcpState::Close => "Close",
        TcpState::CloseWait => "CloseWait",
        TcpState::LastAck => "LastAck",
        TcpState::Listen => "Listen",
        TcpState::Closing => "Closing",
        TcpState::NewSynReceived => "NewSynReceived",
    }
}

/// The display name of a traced syscall.
pub open spec fn syscall_text(s: Syscall) -> Seq<u8> {
    match s {
        Syscall::Bind => "bind".spec_bytes(),
        Syscall::Connect => "connect".spec_bytes(),
        Syscall::RecvFrom => "recv_from".spec_bytes(),
        Syscall::SendTo => "send_to".spec_bytes(),
    }
}

/// The display name of a traced syscall.
pub fn syscall_name(syscall: &Syscall) -> (r: &'static str)
    ensures
        r.spec_bytes() == syscall_text(*syscall),
{
    match syscall {
        Syscall::Bind => "bind",
        Syscall::Connect => "connect",
        Syscall::RecvFrom => "recv_from",
        Syscall::SendTo => "send_to",
    }
}

/// An IP address resolved from an event's 16-byte buffer and family
/// tag.
#[derive(Clone, Copy, Debug)]
pub enum IpAddress {
    V4([u8; 4]),
    V6([u8; 16]),
}

/// Resolves an event's family tag and address buffer: the first 4
/// bytes for IPv4, all 16 for IPv6.
pub fn parse_address(family: &AddressFamily, address: &[u8; 16]) -> (r: IpAddress)
    ensures
        *family == AddressFamily::Ipv4 ==> (r matches IpAddress::V4(q) && q@ == address@.subrange(
            0,
            4,
        )),
        *family == AddressFamily::Ipv6 ==> (r matches IpAddress::V6(b) && b@ == address@),
{
    match family {
        AddressFamily::Ipv4 => IpAddress::V4(crate::address::ipv4_quad(address)),
        AddressFamily::Ipv6 => IpAddress::V6(*address),
    }
}

/// The text of an event address: dotted decimal for IPv4, hex groups
/// for IPv6.
pub open spec fn address_text(family: AddressFamily, buffer: Seq<u8>) -> Seq<u8> {
    match family {
        AddressFamily::Ipv4 => ipv4_text(buffer.subrange(0, 4)),
        AddressFamily::Ipv6 => ipv6_text(buffer),
    }
}

/// Appends the rendering of an event address.
fn push_address(out: &mut Vec<u8>, family: &AddressFamily, address: &[u8; 16])
    ensures
        final (out)@ == old(out)@ + address_text(*family, address@),
{
    match parse_address(family, address) {
        IpAddress::V4(q) => push_ipv4(out, &q),
        IpAddress::V6(b) => push_ipv6(out, &b),
    }
}

/// A port as displayed: the event carries it in network byte order, so
/// its two bytes are swapped back to a host-order value.
pub open spec fn port_display(p: u16) -> u32 {
    ((p % 256) * 256 + p / 256) as u32
}

/// The rendered line of one syscall address event.
pub open spec fn sockaddr_line(e: SockaddrEvent) -> Seq<u8> {
    command_text(e.command@) + "/".spec_bytes() + dec_digits(e.pid as nat) + "/".spec_bytes()
        + dec_digits(e.fd as nat) + " syscall::".spec_bytes() + syscall_text(e.syscall)
        + "(".spec_bytes() + address_text(e.family, e.address@) + ":".spec_bytes() + dec_digits(
        port_display(e.port) as nat,
    ) + ") = ".spec_bytes() + dec_i32(e.errno)
}

/// The rendered line of one state-transition event, given its two
/// resolved states.
pub open spec fn state_line(e: SocketStateEvent, old_state: TcpState, new_state: TcpState) -> Seq<
    u8,
> {
    command_text(e.command@) + "/".spec_bytes() + dec_digits(e.pid as nat)
        + " socket::set_state(".spec_bytes() + address_text(e.family, e.src_address@)
        + ":".spec_bytes() + dec_digits(e.src_port as nat) + " <-> ".spec_bytes() + address_text(
        e.family,
        e.dst_address@,
    ) + ":".spec_bytes() + dec_digits(e.dst_port as nat) + ") ".spec_bytes() + state_text(
        old_state,
    ) + " -> ".spec_bytes() + state_text(new_state)
}

/// A recoverable processing failure: that one event is skipped.
#[derive(Clone, Copy, Debug, PartialEq, Eq, Structural)]
pub enum ProcessError {
    /// The event's old state code is not a TCP state.
    InvalidOldState,
    /// The event's new state code is not a TCP state.
    InvalidNewState,
}

impl ProcessError {
    /// A short description for the diagnostic stream.
    pub fn message(&self) -> (r: &'static str)
        ensures
            *self == ProcessError::InvalidOldState ==> r@ == "invalid old state"@,
            *self == ProcessError::InvalidNewState ==> r@ == "invalid new state"@,
    {
        match self {
            ProcessError::InvalidOldState => "invalid old state",
            ProcessError::InvalidNewState => "invalid new state",
        }
    }
}

/// What processing one tagged event yields: a rendered line, or `None`
/// for an event with an unrecognized state code.
pub open spec fn event_line(e: BpfEvent) -> Option<Seq<u8>> {
    match e {
        BpfEvent::Sockaddr(ev) => Some(sockaddr_line(ev)),
        BpfEvent::SocketState(ev) => {
            if tcp_state_of(ev.old_state) is Some && tcp_state_of(ev.new_state) is Some {
                Some(
                    state_line(
                        ev,
                        tcp_state_of(ev.old_state).unwrap(),
                        tcp_state_of(ev.new_state).unwrap(),
                    ),
                )
            } else {
                None
            }
        },
    }
}

/// The lines a sequence of events renders to, in arrival order, with
/// invalid events skipped.
pub open spec fn run_output(events: Seq<BpfEvent>) -> Seq<Seq<u8>>
    decreases events.len(),
{
    if events.len() == 0 {
        Seq::empty()
    } else {
        run_output(events.drop_last()) + match event_line(events.last()) {
            Some(line) => seq![line],
            None => Seq::empty(),
        }
    }
}

/// The single consumption point: owns the shared dispatch channel the
/// readers feed and renders what arrives on it.
pub struct EventProcessor {
    /// The bounded channel all readers send into.
    pub channel: EventChannel,
}

impl EventProcessor {
    /// Creates a processor with an empty channel of the configured
    /// capacity.
    pub fn new(config: EventProcessorConfig) -> (r: Self)
        ensures
            r.channel.wf(),
            r.channel.view() == Seq::<BpfEvent>::empty(),
            r.channel.spec_capacity() == config.channel_size,
    {
        EventProcessor { channel: EventChannel::new(config.channel_size) }
    }

    /// Renders one syscall address event: command, pid, fd, syscall
    /// name, address, port and raw result.
    pub fn process_sockaddr_event(&self, event: &SockaddrEvent) -> (line: Vec<u8>)
        ensures
            line@ == sockaddr_line(*event),
    {
        let mut out: Vec<u8> = Vec::new();
        push_command(&mut out, &event.command);
        push_str_bytes(&mut out, "/");
        push_u32_dec(&mut out, event.pid);
        push_str_bytes(&mut out, "/");
        push_u32_dec(&mut out, event.fd);
        push_str_bytes(&mut out, " syscall::");
        push_str_bytes(&mut out, syscall_name(&event.syscall));
        push_str_bytes(&mut out, "(");
        push_address(&mut out, &event.family, &event.address);
        push_str_bytes(&mut out, ":");
        let port: u16 = (event.port % 256) * 256 + event.port / 256;
        push_u32_dec(&mut out, port as u32);
        push_str_bytes(&mut out, ") = ");
        push_i32_dec(&mut out, event.errno);
        out
    }

    /// Renders one state-transition event, resolving both state codes
    /// against the fixed TCP state enumeration. An unrecognized code is
    /// a recoverable error: the event is skipped, nothing printed.
    pub fn process_socket_state_event(&self, event: &SocketStateEvent) -> (r: Result<
        Vec<u8>,
        ProcessError,
    >)
        ensures
            tcp_state_of(event.old_state) is None ==> r == Err::<Vec<u8>, ProcessError>(
                ProcessError::InvalidOldState,
            ),
            tcp_state_of(event.old_state) is Some && tcp_state_of(event.new_state) is None ==> r
                == Err::<Vec<u8>, ProcessError>(ProcessError::InvalidNewState),
            tcp_state_of(event.old_state) is Some && tcp_state_of(event.new_state) is Some ==> (
            r matches Ok(line) && line@ == state_line(
                *event,
                tcp_state_of(event.old_state).unwrap(),
                tcp_state_of(event.new_state).unwrap(),
            )),
    {
        let old_state = match tcp_state_from_u32(event.old_state) {
            Some(s) => s,
            None => {
                return Err(ProcessError::InvalidOldState);
            },
        };
        let new_state = match tcp_state_from_u32(event.new_state) {
            Some(s) => s,
            None => {
                return Err(ProcessError::InvalidNewState);
            },
        };
        let mut out: Vec<u8> = Vec::new();
        push_command(&mut out, &event.command);
        push_str_bytes(&mut out, "/");
        push_u32_dec(&mut out, event.pid);
        push_str_bytes(&mut out, " socket::set_state(");
        push_address(&mut out, &event.family, &event.src_address);
        push_str_bytes(&mut out, ":");
        push_u32_dec(&mut out, event.src_port as u32);
        push_str_bytes(&mut out, " <-> ");
        push_address(&mut out, &event.family, &event.dst_address);
        push_str_bytes(&mut out, ":");
        push_u32_dec(&mut out, event.dst_port as u32);
        push_str_bytes(&mut out, ") ");
        push_str_bytes(&mut out, state_name(&old_state));
        push_str_bytes(&mut out, " -> ");
        push_str_bytes(&mut out, state_name(&new_state));
        Ok(out)
    }

    /// Processes one tagged event.
    pub fn process_event(&self, event: &BpfEvent) -> (r: Result<Vec<u8>, ProcessError>)
        ensures
            event_line(*event) matches Some(line) ==> r matches Ok(l) && l@ == line,
            event_line(*event) is None ==> r is Err,
    {
        match event {
            BpfEvent::Sockaddr(ev) => Ok(self.process_sockaddr_event(ev)),
            BpfEvent::SocketState(ev) => self.process_socket_state_event(ev),
        }
    }

    /// Drains the channel, processing events one at a time in arrival
    /// order: returns the rendered lines in that order and the number
    /// of events skipped as invalid.
    pub fn run(&mut self) -> (r: (Vec<Vec<u8>>, usize))
        requires
            old(self).channel.wf(),
        ensures
            final (self).channel.wf(),
            final (self).channel.view().len() == 0,
            views_of(r.0@) == run_output(old(self).channel.view()),
            r.1 == old(self).channel.view().len() - run_output(old(self).channel.view()).len(),
    {
        let ghost initial = self.channel.view();
        let ghost consumed: Seq<BpfEvent> = Seq::empty();
        let total: usize = self.channel.len();
        let mut lines: Vec<Vec<u8>> = Vec::new();
        let mut skipped: usize = 0;
        proof {
            assert(views_of(lines@) =~= run_output(consumed));
        }
        while self.channel.len() > 0
            invariant
                self.channel.wf(),
                initial == consumed + self.channel.view(),
                consumed.len() + self.channel.view().len() == total,
                views_of(lines@) == run_output(consumed),
                skipped == consumed.len() - run_output(consumed).len(),
            decreases self.channel.view().len(),
        {
            let event = self.channel.recv().unwrap();
            let ghost pre_consumed = consumed;
            proof {
                consumed = consumed.push(event);
                assert(consumed.drop_last() =~= pre_consumed);
                assert(initial =~= consumed + self.channel.view());
            }
            match self.process_event(&event) {
                Ok(line) => {
                    lines.push(line);
                    proof {
                        assert(views_of(lines@) =~= run_output(consumed));
                    }
                },
                Err(_) => {
                    skipped = skipped + 1;
                    proof {
                        assert(views_of(lines@) =~= run_output(consumed));
                    }
                },
            }
        }
        proof {
            assert(consumed =~= initial);
        }
        (lines, skipped)
    }
}

} // verus!
