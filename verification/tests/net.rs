use audio_sharing_pc::net_server::pkt::NetworkPktGenerator;
use audio_sharing_pc::net_server::{
    handle_request, info_reply, parse_request, ClientRegistry, ControlRequest, PeerAddr,
    SendQueue,
};

fn addr(ip: u32, port: u16) -> PeerAddr {
    PeerAddr { ip, port }
}

#[test]
fn control_commands_parse_byte_for_byte() {
    assert_eq!(parse_request(b"info"), ControlRequest::Info);
    assert_eq!(parse_request(b"start"), ControlRequest::Start);
    assert_eq!(parse_request(b"stop"), ControlRequest::Stop);
    assert_eq!(parse_request(b"info\n"), ControlRequest::Unknown);
    assert_eq!(parse_request(b"INFO"), ControlRequest::Unknown);
    assert_eq!(parse_request(b""), ControlRequest::Unknown);
    assert_eq!(parse_request(b"star"), ControlRequest::Unknown);
}

#[test]
fn info_reply_is_the_greeting() {
    assert_eq!(info_reply(), b"Hi, how are you?".to_vec());
}

#[test]
fn info_request_earns_reply_and_changes_nothing() {
    let mut reg = ClientRegistry::new();
    reg.add_new_client(addr(0x7f000001, 4444));
    let reply = handle_request(&mut reg, b"info", addr(0x7f000001, 33333));
    assert_eq!(reply, Some(b"Hi, how are you?".to_vec()));
    assert_eq!(reg.len(), 1);
    assert!(reg.contains(addr(0x7f000001, 4444)));
    assert!(!reg.contains(addr(0x7f000001, 33333)));
}

#[test]
fn start_registers_exactly_once() {
    let mut reg = ClientRegistry::new();
    let a = addr(0x0a000001, 9000);
    assert_eq!(handle_request(&mut reg, b"start", a), None);
    assert_eq!(handle_request(&mut reg, b"start", a), None);
    assert_eq!(handle_request(&mut reg, b"start", a), None);
    assert_eq!(reg.len(), 1);
    assert!(reg.contains(a));
}

#[test]
fn stop_from_unregistered_peer_is_a_no_op() {
    let mut reg = ClientRegistry::new();
    let a = addr(1, 1);
    let b = addr(2, 2);
    reg.add_new_client(a);
    handle_request(&mut reg, b"stop", b);
    assert_eq!(reg.len(), 1);
    assert!(reg.contains(a));
}

#[test]
fn stop_removes_the_peer() {
    let mut reg = ClientRegistry::new();
    let a = addr(1, 1);
    let b = addr(2, 2);
    reg.add_new_client(a);
    reg.add_new_client(b);
    handle_request(&mut reg, b"stop", a);
    assert_eq!(reg.len(), 1);
    assert!(!reg.contains(a));
    assert!(reg.contains(b));
}

#[test]
fn unknown_payload_is_dropped() {
    let mut reg = ClientRegistry::new();
    assert_eq!(handle_request(&mut reg, b"hello", addr(3, 3)), None);
    assert_eq!(reg.len(), 0);
}

#[test]
fn two_clients_receive_three_blocks_in_order() {
    let mut reg = ClientRegistry::new();
    let a = addr(1, 10);
    let b = addr(2, 20);
    handle_request(&mut reg, b"start", a);
    handle_request(&mut reg, b"start", b);

    let mut q = SendQueue::new();
    q.send_to_all(b"one");
    q.send_to_all(b"two");
    q.send_to_all(b"three");

    let mut delivered: Vec<(PeerAddr, Vec<u8>)> = Vec::new();
    while let Some(block) = q.pop_front_block() {
        for i in 0..reg.len() {
            delivered.push((reg.peer_at(i), block.clone()));
        }
        q.recycle(block);
    }
    let expect = vec![
        (a, b"one".to_vec()),
        (b, b"one".to_vec()),
        (a, b"two".to_vec()),
        (b, b"two".to_vec()),
        (a, b"three".to_vec()),
        (b, b"three".to_vec()),
    ];
    assert_eq!(delivered, expect);
}

#[test]
fn empty_payload_is_not_queued() {
    let mut q = SendQueue::new();
    q.send_to_all(b"");
    assert_eq!(q.pop_front_block(), None);
}

#[test]
fn recycled_blocks_are_reused_empty() {
    let mut q = SendQueue::new();
    q.send_to_all(b"abc");
    let block = q.pop_front_block().unwrap();
    assert_eq!(block, b"abc".to_vec());
    q.recycle(block);
    q.send_to_all(b"xy");
    assert_eq!(q.pop_front_block(), Some(b"xy".to_vec()));
}

#[test]
fn failed_peer_is_removed_and_not_attempted_again() {
    let mut reg = ClientRegistry::new();
    let a = addr(1, 10);
    let b = addr(2, 20);
    let c = addr(3, 30);
    reg.add_new_client(a);
    reg.add_new_client(b);
    reg.add_new_client(c);
    // the send to the middle peer failed
    reg.apply_send_results(&vec![true, false, true]);
    assert_eq!(reg.len(), 2);
    assert_eq!(reg.peer_at(0), a);
    assert_eq!(reg.peer_at(1), c);
    assert!(!reg.contains(b));
}

#[test]
fn packet_counter_prefixes_big_endian_sequence_numbers() {
    let mut gen = NetworkPktGenerator::new();
    let mut buf = vec![0xAA, 0xBB];
    gen.wrap_in_pkt(&mut buf);
    assert_eq!(buf, vec![0, 0, 0, 1, 0xAA, 0xBB]);
    let mut buf2 = vec![];
    gen.wrap_in_pkt(&mut buf2);
    assert_eq!(buf2, vec![0, 0, 0, 2]);
}

#[test]
fn packet_counter_wraps_around() {
    let mut gen = NetworkPktGenerator::new();
    let mut buf = vec![];
    for _ in 0..260 {
        buf.clear();
        gen.wrap_in_pkt(&mut buf);
    }
    assert_eq!(buf, vec![0, 0, 1, 4]);
}
