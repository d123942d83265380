//! Decisions of the discovery client agent. The agent's loop (socket,
//! timeouts, sleeps) runs outside the library: it performs each action that
//! `ClientAgent::step` returns and reports what happened as the next event.

use vstd::prelude::*;
use crate::protocol::{MsgIds, SlotMsg, ValidName, PKT_LEN, PacketView, encode, decode};
use crate::server::{command_bytes, command_view};
use crate::supervisor::{FailCounter, SOCK_FAIL_BEFORE_RESTART};

verus! {

/// How long to wait for the server's answer to a Join, in milliseconds.
pub const SERVER_RESPONSE_TIMEOUT_MS: u64 = 5000;

/// Silence of the server after which it counts as dead, in milliseconds.
pub const SERVER_HEARTBEAT_TIMEOUT_MS: u64 = 15000;

/// Where the agent stands.
#[derive(Clone, Copy, Debug, PartialEq, Eq, Structural)]
pub enum ClientPhase {
    /// A Join is being sent.
    Joining,
    /// A Join was sent; waiting for the server's answer.
    AwaitingConfirm,
    /// Registered; exchanging heartbeats with the server.
    HeartbeatLoop,
}

/// What the loop reports back after an action.
#[derive(Clone, Copy, Debug)]
pub enum ClientEvent {
    /// The socket was (re)bound.
    Bound,
    /// The last send succeeded.
    Sent,
    /// The last send failed.
    SendFailed,
    /// A packet arrived.
    Received([u8; PKT_LEN]),
    /// Nothing arrived before the timeout.
    TimedOut,
    /// Receiving failed with a socket error.
    RecvFailed,
}

/// What the loop is asked to do next.
#[derive(Clone, Copy, Debug, PartialEq, Eq, Structural)]
pub enum ClientAction {
    /// Send the Join packet to the server.
    SendJoin,
    /// Wait for a packet at most `SERVER_RESPONSE_TIMEOUT_MS`.
    AwaitConfirm,
    /// Wait for a packet at most `SERVER_HEARTBEAT_TIMEOUT_MS`.
    AwaitHeartbeat,
    /// Send the Heartbeat packet to the server.
    SendHeartbeat,
    /// Wait `SPAM_DELAY_MS`, then send the Join packet.
    PauseThenJoin,
    /// Close the socket, wait `SPAM_DELAY_MS`, bind anew and report `Bound`.
    Restart,
}

/// What an event means for the agent: the next phase and action when no
/// failure is involved, or `None` when the event is a socket failure.
pub open spec fn client_next(phase: ClientPhase, event: ClientEvent) -> Option<(ClientPhase, ClientAction)> {
    match event {
        ClientEvent::Bound => Some((ClientPhase::Joining, ClientAction::SendJoin)),
        ClientEvent::SendFailed | ClientEvent::RecvFailed => None,
        ClientEvent::Sent => match phase {
            ClientPhase::HeartbeatLoop => Some((ClientPhase::HeartbeatLoop, ClientAction::AwaitHeartbeat)),
            _ => Some((ClientPhase::AwaitingConfirm, ClientAction::AwaitConfirm)),
        },
        ClientEvent::TimedOut => Some((ClientPhase::Joining, ClientAction::PauseThenJoin)),
        ClientEvent::Received(b) => {
            let cmd = decode(b@).cmd;
            match phase {
                ClientPhase::AwaitingConfirm => if cmd == MsgIds::ConfirmJoin.spec_code() {
                    Some((ClientPhase::HeartbeatLoop, ClientAction::AwaitHeartbeat))
                } else {
                    Some((ClientPhase::Joining, ClientAction::PauseThenJoin))
                },
                ClientPhase::HeartbeatLoop => if cmd == MsgIds::Heartbeat.spec_code() {
                    Some((ClientPhase::HeartbeatLoop, ClientAction::SendHeartbeat))
                } else if cmd == MsgIds::Bye.spec_code() {
                    Some((ClientPhase::Joining, ClientAction::PauseThenJoin))
                } else {
                    Some((ClientPhase::HeartbeatLoop, ClientAction::AwaitHeartbeat))
                },
                ClientPhase::Joining => Some((ClientPhase::Joining, ClientAction::SendJoin)),
            }
        },
    }
}

/// The Join packet of a module named `name` serving HTTP on `port`.
pub open spec fn join_view(name: ValidName, port: u16) -> PacketView {
    PacketView {
        cmd: MsgIds::Join.spec_code(),
        port: port,
        name_len: name@.len() as u8,
        name: name@ + Seq::new((crate::protocol::MAX_MOD_NAME_LEN - name@.len()) as nat, |i: int| 0u8),
    }
}

/// The discovery client agent of one module.
pub struct ClientAgent {
    name: ValidName,
    http_port: u16,
    phase: ClientPhase,
    fails: FailCounter,
}

impl ClientAgent {
    /// The module's name.
    pub closed spec fn spec_name(&self) -> ValidName {
        self.name
    }

    /// The module's HTTP port.
    pub closed spec fn spec_http_port(&self) -> u16 {
        self.http_port
    }

    /// Where the agent stands.
    pub closed spec fn spec_phase(&self) -> ClientPhase {
        self.phase
    }

    /// Socket failures counted since the last restart.
    pub closed spec fn spec_fails(&self) -> nat {
        self.fails@
    }

    /// An agent for the module `my_name` serving HTTP on `my_http_port`; it
    /// starts by binding its socket.
    pub fn new(my_name: ValidName, my_http_port: u16) -> (r: ClientAgent)
        ensures
            r.spec_name() == my_name,
            r.spec_http_port() == my_http_port,
            r.spec_phase() == ClientPhase::Joining,
            r.spec_fails() == 0,
    {
        ClientAgent { name: my_name, http_port: my_http_port, phase: ClientPhase::Joining, fails: FailCounter::new() }
    }

    /// Where the agent stands.
    pub fn phase(&self) -> (r: ClientPhase)
        ensures
            r == self.spec_phase(),
    {
        self.phase
    }

    /// Socket failures counted since the last restart.
    pub fn fail_count(&self) -> (r: u8)
        ensures
            r as nat == self.spec_fails(),
            r < SOCK_FAIL_BEFORE_RESTART,
    {
        self.fails.count()
    }

    /// The Join packet: the module's name and HTTP port.
    pub fn join_packet(&self) -> (r: [u8; PKT_LEN])
        ensures
            r@ == encode(join_view(self.spec_name(), self.spec_http_port())),
    {
        let (len, buf) = self.name.get();
        let m = SlotMsg { cmd: MsgIds::Join.code(), module_http_port: self.http_port, name_len: len, name: buf };
        proof {
            let n = self.name@;
            assert(buf@ =~= n + Seq::new((crate::protocol::MAX_MOD_NAME_LEN - n.len()) as nat, |i: int| 0u8));
        }
        m.as_bytes()
    }

    /// The Heartbeat packet that answers the server's.
    pub fn heartbeat_packet(&self) -> (r: [u8; PKT_LEN])
        ensures
            r@ == encode(command_view(MsgIds::Heartbeat)),
    {
        command_bytes(MsgIds::Heartbeat)
    }

    /// Takes the outcome of the last action and returns the next action. A
    /// socket failure is counted: reaching the limit restarts the agent,
    /// otherwise it joins again after a pause.
    pub fn step(&mut self, event: ClientEvent) -> (r: ClientAction)
        ensures
            final(self).spec_name() == old(self).spec_name(),
            final(self).spec_http_port() == old(self).spec_http_port(),
            client_next(old(self).spec_phase(), event) matches Some((p, a)) ==> {
                &&& r == a
                &&& final(self).spec_phase() == p
                &&& final(self).spec_fails() == (if event is Bound { 0 } else { old(self).spec_fails() })
            },
            client_next(old(self).spec_phase(), event) is None ==> {
                &&& final(self).spec_phase() == ClientPhase::Joining
                &&& old(self).spec_fails() + 1 >= SOCK_FAIL_BEFORE_RESTART ==> r == ClientAction::Restart
                    && final(self).spec_fails() == 0
                &&& old(self).spec_fails() + 1 < SOCK_FAIL_BEFORE_RESTART ==> r == ClientAction::PauseThenJoin
                    && final(self).spec_fails() == old(self).spec_fails() + 1
            },
    {
        match event {
            ClientEvent::Bound => {
                self.fails.reset();
                self.phase = ClientPhase::Joining;
                ClientAction::SendJoin
            },
            ClientEvent::SendFailed | ClientEvent::RecvFailed => {
                self.phase = ClientPhase::Joining;
                if self.fails.record_failure() {
                    ClientAction::Restart
                } else {
                    ClientAction::PauseThenJoin
                }
            },
            ClientEvent::Sent => {
                match self.phase {
                    ClientPhase::HeartbeatLoop => ClientAction::AwaitHeartbeat,
                    _ => {
                        self.phase = ClientPhase::AwaitingConfirm;
                        ClientAction::AwaitConfirm
                    },
                }
            },
            ClientEvent::TimedOut => {
                self.phase = ClientPhase::Joining;
                ClientAction::PauseThenJoin
            },
            ClientEvent::Received(b) => {
                let cmd = SlotMsg::from_bytes(b).cmd;
                match self.phase {
                    ClientPhase::AwaitingConfirm => {
                        if cmd == MsgIds::ConfirmJoin.code() {
                            self.phase = ClientPhase::HeartbeatLoop;
                            ClientAction::AwaitHeartbeat
                        } else {
                            self.phase = ClientPhase::Joining;
                            ClientAction::PauseThenJoin
                        }
                    },
                    ClientPhase::HeartbeatLoop => {
                        if cmd == MsgIds::Heartbeat.code() {
                            ClientAction::SendHeartbeat
                        } else if cmd == MsgIds::Bye.code() {
                            self.phase = ClientPhase::Joining;
                            ClientAction::PauseThenJoin
                        } else {
                            ClientAction::AwaitHeartbeat
                        }
                    },
                    ClientPhase::Joining => ClientAction::SendJoin,
                }
            },
        }
    }
}

} // verus!
