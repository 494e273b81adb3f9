use sockwho::dispatch::{drain_records, standard_queues, EventChannel, MonitoredQueue};
use sockwho::events::{AddressFamily, SockaddrEvent, Syscall};
use sockwho::wire::{encode_sockaddr_event, BpfEvent, QueueKind, SOCKADDR_EVENT_SIZE};

fn command(name: &str) -> [u8; 16] {
    let mut buffer = [0u8; 16];
    for (i, b) in name.bytes().enumerate() {
        buffer[i] = b;
    }
    buffer
}

fn sockaddr_record(pid: u32) -> Vec<u8> {
    encode_sockaddr_event(&SockaddrEvent {
        pid,
        fd: 1,
        address: [127, 0, 0, 1, 0, 0, 0, 0, 0, 0, 0, 0, 0, 0, 0, 0],
        port: 0,
        family: AddressFamily::Ipv4,
        syscall: Syscall::Bind,
        errno: 0,
        command: command("load"),
    })
}

#[test]
fn overrun_against_stalled_consumer_drops_the_excess() {
    // 2000 raw records against a channel of capacity 1024 whose
    // consumer never runs: everything past the capacity is dropped,
    // nothing blocks.
    let mut channel = EventChannel::new(1024);
    let records: Vec<Vec<u8>> = (0..2000).map(|i| sockaddr_record(i as u32)).collect();
    let stats = drain_records(QueueKind::Sockaddr, &records, &mut channel);
    assert_eq!(stats.read, 2000);
    assert_eq!(stats.sent, 1024);
    assert_eq!(stats.dropped, 976);
    assert_eq!(stats.malformed, 0);
    assert_eq!(channel.len(), 1024);
    // The accepted prefix is the first 1024 records, in order.
    match channel.recv().unwrap() {
        BpfEvent::Sockaddr(e) => assert_eq!(e.pid, 0),
        _ => panic!("wrong event kind"),
    }
}

#[test]
fn same_queue_order_is_preserved() {
    let mut channel = EventChannel::new(16);
    let records = vec![sockaddr_record(1), vec![0u8; 3], sockaddr_record(2), sockaddr_record(3)];
    let stats = drain_records(QueueKind::Sockaddr, &records, &mut channel);
    assert_eq!(stats.read, 4);
    assert_eq!(stats.sent, 3);
    assert_eq!(stats.malformed, 1);
    assert_eq!(stats.dropped, 0);
    for expected in [1u32, 2, 3] {
        match channel.recv().unwrap() {
            BpfEvent::Sockaddr(e) => assert_eq!(e.pid, expected),
            _ => panic!("wrong event kind"),
        }
    }
    assert!(channel.recv().is_none());
}

#[test]
fn send_refuses_past_capacity_and_recv_is_fifo() {
    let mut channel = EventChannel::new(2);
    let a = match sockwho::wire::build_event(QueueKind::Sockaddr, &sockaddr_record(10)) {
        Ok(e) => e,
        Err(_) => panic!("record must decode"),
    };
    assert!(channel.send(a));
    assert!(channel.send(a));
    assert!(!channel.send(a));
    assert_eq!(channel.len(), 2);
    assert!(channel.recv().is_some());
    assert!(channel.send(a));
}

#[test]
fn the_two_standard_queues_are_registered() {
    let queues = standard_queues();
    assert_eq!(queues.len(), 2);
    assert_eq!(queues[0].name, "SOCKADDR_EVENTS");
    assert_eq!(queues[0].record_size(), SOCKADDR_EVENT_SIZE);
    assert_eq!(queues[1].name, "SOCKET_STATE_EVENTS");

    let queue = MonitoredQueue::new(QueueKind::Sockaddr, "SOCKADDR_EVENTS");
    match queue.build(&sockaddr_record(5)).unwrap() {
        BpfEvent::Sockaddr(e) => assert_eq!(e.pid, 5),
        _ => panic!("wrong event kind"),
    }
}

#[test]
fn a_partially_full_channel_only_takes_what_fits() {
    let mut channel = EventChannel::new(4);
    let stats = drain_records(
        QueueKind::Sockaddr,
        &vec![sockaddr_record(1), sockaddr_record(2)],
        &mut channel,
    );
    assert_eq!(stats.sent, 2);
    let stats = drain_records(
        QueueKind::Sockaddr,
        &(3..7).map(sockaddr_record).collect(),
        &mut channel,
    );
    assert_eq!(stats.sent, 2);
    assert_eq!(stats.dropped, 2);
    let mut pids = Vec::new();
    while let Some(event) = channel.recv() {
        match event {
            BpfEvent::Sockaddr(e) => pids.push(e.pid),
            _ => panic!("wrong event kind"),
        }
    }
    assert_eq!(pids, vec![1, 2, 3, 4]);
}
