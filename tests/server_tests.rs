use slot::protocol::{MsgIds, SlotMsg, MAX_MOD_NAME_LEN};
use slot::server::{check_join_msg, check_ping_response, command_bytes, handle_packet, tick};
use slot::store::{HostIp, ModuleStore, NetAddr, DEATH_TIMER_MS};

fn client() -> NetAddr {
    NetAddr { ip: HostIp::V4(0x0A00_0005), port: 50123 }
}

fn join(name: &str, port: u16) -> SlotMsg {
    let mut buf = [0u8; MAX_MOD_NAME_LEN];
    buf[..name.len()].copy_from_slice(name.as_bytes());
    SlotMsg { cmd: MsgIds::Join.code(), module_http_port: port, name_len: name.len() as u8, name: buf }
}

#[test]
fn join_registers_module_and_confirms() {
    let mut s = ModuleStore::new();
    let reply = handle_packet(&mut s, &client(), join("audio01", 9001).as_bytes(), 7).unwrap();
    assert_eq!(SlotMsg::from_bytes(reply).cmd, MsgIds::ConfirmJoin.code());
    assert_eq!(reply, command_bytes(MsgIds::ConfirmJoin));
    let m = s.find_module_by_name("audio01").unwrap();
    assert_eq!(m.http_addr, NetAddr { ip: HostIp::V4(0x0A00_0005), port: 9001 });
    assert_eq!(m.slot_addr, client());
    assert_eq!(m.time_last_heard, 7);
}

#[test]
fn join_with_port_zero_is_rejected() {
    let mut s = ModuleStore::new();
    let reply = check_join_msg(&mut s, &client(), &join("audio01", 0), 7).unwrap();
    assert_eq!(SlotMsg::from_bytes(reply).cmd, MsgIds::RejectJoin.code());
    assert_eq!(s.len(), 0);
}

#[test]
fn join_with_invalid_name_is_rejected() {
    let mut s = ModuleStore::new();
    let reply = check_join_msg(&mut s, &client(), &join("bad name", 9001), 7).unwrap();
    assert_eq!(reply, command_bytes(MsgIds::RejectJoin));
    let reply = check_join_msg(&mut s, &client(), &join("", 9001), 7).unwrap();
    assert_eq!(reply, command_bytes(MsgIds::RejectJoin));
    assert_eq!(s.len(), 0);
}

#[test]
fn other_packets_get_no_join_answer() {
    let mut s = ModuleStore::new();
    let hb = SlotMsg::command(MsgIds::Heartbeat);
    assert!(check_join_msg(&mut s, &client(), &hb, 7).is_none());
    assert!(handle_packet(&mut s, &client(), SlotMsg::command(MsgIds::Bye).as_bytes(), 7).is_none());
    assert_eq!(s.len(), 0);
}

#[test]
fn heartbeat_refreshes_sender() {
    let mut s = ModuleStore::new();
    handle_packet(&mut s, &client(), join("audio01", 9001).as_bytes(), 0);
    check_ping_response(&mut s, &client(), &SlotMsg::command(MsgIds::Heartbeat), 4_000);
    assert_eq!(s.find_module_by_name("audio01").unwrap().time_last_heard, 4_000);
    check_ping_response(&mut s, &client(), &SlotMsg::command(MsgIds::Bye), 8_000);
    assert_eq!(s.find_module_by_name("audio01").unwrap().time_last_heard, 4_000);
}

#[test]
fn silent_module_is_evicted_and_sent_bye() {
    let mut s = ModuleStore::new();
    handle_packet(&mut s, &client(), join("audio01", 9001).as_bytes(), 0);
    let plan = tick(&mut s, 5_000);
    assert!(plan.bye_to.is_empty());
    assert_eq!(plan.ping_to, vec![client()]);
    let plan = tick(&mut s, DEATH_TIMER_MS + 1);
    assert_eq!(plan.bye_to, vec![client()]);
    assert!(plan.ping_to.is_empty());
    assert!(s.find_module_by_name("audio01").is_none());
}
