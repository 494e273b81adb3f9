use sockwho::attach::{tracepoint_for_hook, Hook, ProbeAttacherBuilder, Tracepoint};
use sockwho::events::{AddressFamily, SockaddrEvent, Syscall};
use sockwho::inflight::InFlightTable;

#[test]
fn syscall_tracepoints_expand_to_enter_and_exit() {
    let tp = Tracepoint::syscall("bind");
    assert_eq!(tp.category(), "syscalls");
    let symbols = tp.symbols();
    assert_eq!(symbols.len(), 2);
    assert_eq!(symbols[0], "sys_enter_bind");
    assert_eq!(symbols[1], "sys_exit_bind");
}

#[test]
fn socket_tracepoints_expand_to_one_symbol() {
    let tp = Tracepoint::socket("inet_sock_set_state");
    assert_eq!(tp.category(), "sock");
    let symbols = tp.symbols();
    assert_eq!(symbols.len(), 1);
    assert_eq!(symbols[0], "inet_sock_set_state");
}

#[test]
fn all_hooks_are_the_default_selection() {
    let hooks = Hook::all();
    assert_eq!(
        hooks,
        vec![Hook::Bind, Hook::Connect, Hook::RecvFrom, Hook::SendTo, Hook::SocketState]
    );
}

#[test]
fn hooks_name_their_tracepoints() {
    for (hook, name) in [
        (Hook::Bind, "bind"),
        (Hook::Connect, "connect"),
        (Hook::RecvFrom, "recvfrom"),
        (Hook::SendTo, "sendto"),
    ] {
        match tracepoint_for_hook(hook) {
            Tracepoint::Syscall(s) => assert_eq!(s, name),
            Tracepoint::Socket(_) => panic!("expected a syscall tracepoint"),
        }
    }
    match tracepoint_for_hook(Hook::SocketState) {
        Tracepoint::Socket(s) => assert_eq!(s, "inet_sock_set_state"),
        Tracepoint::Syscall(_) => panic!("expected a socket tracepoint"),
    }
}

#[test]
fn the_plan_flattens_in_selection_order() {
    let attacher = ProbeAttacherBuilder::new()
        .with_tracepoint(Tracepoint::syscall("connect"))
        .with_tracepoint(Tracepoint::socket("inet_sock_set_state"))
        .build();
    let targets = attacher.targets();
    assert_eq!(targets.len(), 3);
    assert_eq!(targets[0].category, "syscalls");
    assert_eq!(targets[0].symbol, "sys_enter_connect");
    assert_eq!(targets[1].category, "syscalls");
    assert_eq!(targets[1].symbol, "sys_exit_connect");
    assert_eq!(targets[2].category, "sock");
    assert_eq!(targets[2].symbol, "inet_sock_set_state");
}

#[test]
fn the_full_default_plan_covers_nine_symbols() {
    let mut builder = ProbeAttacherBuilder::new();
    for hook in Hook::all() {
        builder = builder.with_tracepoint(tracepoint_for_hook(hook));
    }
    let targets = builder.build().targets();
    let symbols: Vec<String> = targets.iter().map(|t| t.symbol.clone()).collect();
    assert_eq!(
        symbols,
        vec![
            "sys_enter_bind",
            "sys_exit_bind",
            "sys_enter_connect",
            "sys_exit_connect",
            "sys_enter_recvfrom",
            "sys_exit_recvfrom",
            "sys_enter_sendto",
            "sys_exit_sendto",
            "inet_sock_set_state",
        ]
    );
}

#[test]
fn inflight_table_bounds_and_overwrites() {
    let event = SockaddrEvent {
        pid: 1,
        fd: 2,
        address: [0; 16],
        port: 0,
        family: AddressFamily::Ipv4,
        syscall: Syscall::Bind,
        errno: 0,
        command: [0; 16],
    };
    let mut table = InFlightTable::new(2);
    assert!(table.insert(1, event));
    assert!(table.insert(2, event));
    assert!(!table.insert(3, event));
    assert!(table.insert(1, event));
    assert_eq!(table.len(), 2);
    assert!(table.get(1).is_some());
    assert!(table.get(3).is_none());
    assert!(table.remove(1).is_some());
    assert!(table.remove(1).is_none());
    assert_eq!(table.len(), 1);
}
