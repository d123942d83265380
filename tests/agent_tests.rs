use slot::client::{ClientAction, ClientAgent, ClientEvent, ClientPhase};
use slot::protocol::{MsgIds, SlotMsg, ValidName};

fn agent() -> ClientAgent {
    ClientAgent::new(ValidName::parse("audio01").unwrap(), 9001)
}

fn packet(m: MsgIds) -> ClientEvent {
    ClientEvent::Received(SlotMsg::command(m).as_bytes())
}

#[test]
fn join_packet_carries_name_and_port() {
    let p = SlotMsg::from_bytes(agent().join_packet());
    assert_eq!(p.cmd, MsgIds::Join.code());
    assert_eq!(p.module_http_port, 9001);
    assert_eq!(p.name_len, 7);
    assert_eq!(&p.name[..7], b"audio01");
    assert_eq!(SlotMsg::from_bytes(agent().heartbeat_packet()).cmd, MsgIds::Heartbeat.code());
}

#[test]
fn join_then_confirm_enters_heartbeat_loop() {
    let mut a = agent();
    assert_eq!(a.step(ClientEvent::Bound), ClientAction::SendJoin);
    assert_eq!(a.step(ClientEvent::Sent), ClientAction::AwaitConfirm);
    assert_eq!(a.phase(), ClientPhase::AwaitingConfirm);
    assert_eq!(a.step(packet(MsgIds::ConfirmJoin)), ClientAction::AwaitHeartbeat);
    assert_eq!(a.phase(), ClientPhase::HeartbeatLoop);
    assert_eq!(a.step(packet(MsgIds::Heartbeat)), ClientAction::SendHeartbeat);
    assert_eq!(a.step(ClientEvent::Sent), ClientAction::AwaitHeartbeat);
    assert_eq!(a.phase(), ClientPhase::HeartbeatLoop);
}

#[test]
fn confirm_timeout_and_rejection_join_again() {
    let mut a = agent();
    a.step(ClientEvent::Bound);
    a.step(ClientEvent::Sent);
    assert_eq!(a.step(ClientEvent::TimedOut), ClientAction::PauseThenJoin);
    assert_eq!(a.phase(), ClientPhase::Joining);
    assert_eq!(a.fail_count(), 0);
    a.step(ClientEvent::Sent);
    assert_eq!(a.step(packet(MsgIds::RejectJoin)), ClientAction::PauseThenJoin);
    assert_eq!(a.phase(), ClientPhase::Joining);
}

#[test]
fn silent_server_or_bye_falls_back_to_joining() {
    let mut a = agent();
    a.step(ClientEvent::Bound);
    a.step(ClientEvent::Sent);
    a.step(packet(MsgIds::ConfirmJoin));
    assert_eq!(a.step(ClientEvent::TimedOut), ClientAction::PauseThenJoin);
    assert_eq!(a.phase(), ClientPhase::Joining);
    a.step(ClientEvent::Sent);
    a.step(packet(MsgIds::ConfirmJoin));
    assert_eq!(a.step(packet(MsgIds::Bye)), ClientAction::PauseThenJoin);
    assert_eq!(a.phase(), ClientPhase::Joining);
}

#[test]
fn fifth_socket_failure_restarts() {
    let mut a = agent();
    a.step(ClientEvent::Bound);
    for i in 1..5u8 {
        assert_eq!(a.step(ClientEvent::SendFailed), ClientAction::PauseThenJoin);
        assert_eq!(a.fail_count(), i);
    }
    assert_eq!(a.step(ClientEvent::RecvFailed), ClientAction::Restart);
    assert_eq!(a.fail_count(), 0);
    assert_eq!(a.step(ClientEvent::Bound), ClientAction::SendJoin);
}
