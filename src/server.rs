//! Decisions of the discovery server loop. The loop itself (socket, timer,
//! backoff) runs outside the library: it hands each received packet or tick
//! to these functions and performs the sends they ask for.

use vstd::prelude::*;
use crate::protocol::{
    MsgIds, SlotMsg, ValidName, PKT_LEN, MAX_MOD_NAME_LEN, PacketView, encode, decode, valid_name_buf,
};
use crate::store::{
    ModuleStore, ModuleInfo, NetAddr, DEATH_TIMER_MS, upserted, touched, select, is_alive, is_expired,
};

verus! {

/// Interval between two sweeps of eviction and pings, in milliseconds.
pub const PING_DELAY_MS: u64 = 5000;

/// A packet that carries only the command `c`.
pub open spec fn command_view(c: MsgIds) -> PacketView {
    PacketView { cmd: c.spec_code(), port: 0, name_len: 0, name: Seq::new(MAX_MOD_NAME_LEN as nat, |i: int| 0u8) }
}

/// A Join that is accepted: nonzero HTTP port and a valid name.
pub open spec fn join_accepted(pkt: SlotMsg) -> bool {
    pkt.module_http_port != 0 && valid_name_buf(pkt.name_len, pkt.name@)
}

/// The entry that an accepted Join from `from` at `now` registers.
pub open spec fn joined_entry(pkt: SlotMsg, from: NetAddr, now: u64) -> ModuleInfo {
    ModuleInfo {
        name: ValidName::spec_raw(pkt.name_len, pkt.name),
        http_addr: NetAddr { ip: from.ip, port: pkt.module_http_port },
        slot_addr: from,
        time_last_heard: now,
    }
}

/// The wire image of a packet that carries only the command `c`.
pub fn command_bytes(c: MsgIds) -> (r: [u8; PKT_LEN])
    ensures
        r@ == encode(command_view(c)),
{
    let m = SlotMsg::command(c);
    assert(m@ == command_view(c)) by {
        assert(m.name@ =~= Seq::new(MAX_MOD_NAME_LEN as nat, |i: int| 0u8));
    }
    m.as_bytes()
}

/// Answers a Join. A Join with HTTP port 0 or an invalid name is refused and
/// registers nothing; any other Join is confirmed and upserts its module, with
/// the HTTP address made of the sender's IP and the declared port. Other
/// packets get no answer here.
pub fn check_join_msg(store: &mut ModuleStore, from: &NetAddr, pkt: &SlotMsg, now: u64) -> (r: Option<
    [u8; PKT_LEN],
>)
    ensures
        pkt.cmd != MsgIds::Join.spec_code() ==> r is None && final(store)@ == old(store)@,
        pkt.cmd == MsgIds::Join.spec_code() && !join_accepted(*pkt) ==> {
            &&& r matches Some(b) && b@ == encode(command_view(MsgIds::RejectJoin))
            &&& final(store)@ == old(store)@
        },
        pkt.cmd == MsgIds::Join.spec_code() && join_accepted(*pkt) ==> {
            &&& r matches Some(b) && b@ == encode(command_view(MsgIds::ConfirmJoin))
            &&& final(store)@ == upserted(old(store)@, joined_entry(*pkt, *from, now))
        },
{
    if pkt.cmd != MsgIds::Join.code() {
        return None;
    }
    if pkt.module_http_port == 0 {
        return Some(command_bytes(MsgIds::RejectJoin));
    }
    match ValidName::from_raw(pkt.name_len, pkt.name) {
        None => Some(command_bytes(MsgIds::RejectJoin)),
        Some(name) => {
            let http_addr = NetAddr { ip: from.ip, port: pkt.module_http_port };
            store.store_module(&name, &http_addr, from, now);
            Some(command_bytes(MsgIds::ConfirmJoin))
        },
    }
}

/// Records a Heartbeat: the entries whose slot address is the sender are
/// marked as heard from at `now`. Other packets change nothing here.
pub fn check_ping_response(store: &mut ModuleStore, from: &NetAddr, pkt: &SlotMsg, now: u64)
    ensures
        pkt.cmd == MsgIds::Heartbeat.spec_code() ==> final(store)@ == touched(old(store)@, *from, now),
        pkt.cmd != MsgIds::Heartbeat.spec_code() ==> final(store)@ == old(store)@,
{
    if pkt.cmd == MsgIds::Heartbeat.code() {
        store.update_last_heard(from, now);
    }
}

/// Handles one received packet: decodes it, answers a Join and records a
/// Heartbeat. Returns the reply to send back to the sender, if any.
pub fn handle_packet(store: &mut ModuleStore, from: &NetAddr, bytes: [u8; PKT_LEN], now: u64) -> (r: Option<
    [u8; PKT_LEN],
>)
    ensures
        exists|pkt: SlotMsg|
            #![trigger pkt@]
            {
                &&& pkt@ == decode(bytes@)
                &&& pkt.cmd == MsgIds::Join.spec_code() && join_accepted(pkt) ==> {
                    &&& r matches Some(b) && b@ == encode(command_view(MsgIds::ConfirmJoin))
                    &&& final(store)@ == upserted(old(store)@, joined_entry(pkt, *from, now))
                }
                &&& pkt.cmd == MsgIds::Join.spec_code() && !join_accepted(pkt) ==> {
                    &&& r matches Some(b) && b@ == encode(command_view(MsgIds::RejectJoin))
                    &&& final(store)@ == old(store)@
                }
                &&& pkt.cmd == MsgIds::Heartbeat.spec_code() ==> r is None && final(store)@ == touched(
                    old(store)@,
                    *from,
                    now,
                )
                &&& pkt.cmd != MsgIds::Join.spec_code() && pkt.cmd != MsgIds::Heartbeat.spec_code() ==> r is None
                    && final(store)@ == old(store)@
            },
{
    let pkt = SlotMsg::from_bytes(bytes);
    let r = check_join_msg(store, from, &pkt, now);
    check_ping_response(store, from, &pkt, now);
    r
}

/// What a periodic sweep asks the loop to send.
pub struct TickPlan {
    /// Slot addresses of the evicted modules, each to get a Bye.
    pub bye_to: Vec<NetAddr>,
    /// Slot addresses of the remaining modules, each to get a Heartbeat.
    pub ping_to: Vec<NetAddr>,
}

/// Slot addresses of the entries, in order.
pub open spec fn slot_addrs(s: Seq<ModuleInfo>) -> Seq<NetAddr> {
    s.map_values(|e: ModuleInfo| e.slot_addr)
}

fn slot_addrs_of(v: &Vec<ModuleInfo>) -> (r: Vec<NetAddr>)
    ensures
        r@ == slot_addrs(v@),
{
    let mut out: Vec<NetAddr> = Vec::new();
    let mut i: usize = 0;
    while i < v.len()
        invariant
            i <= v@.len(),
            out@ == slot_addrs(v@.subrange(0, i as int)),
        decreases v@.len() - i,
    {
        out.push(v[i].slot_addr);
        i += 1;
        assert(out@ =~= slot_addrs(v@.subrange(0, i as int)));
    }
    assert(v@.subrange(0, i as int) =~= v@);
    out
}

/// Removes every module silent for longer than the death timer at `now`
/// and returns them.
pub fn cleanup_dead(store: &mut ModuleStore, now: u64) -> (r: Vec<ModuleInfo>)
    ensures
        final(store)@ == select(old(store)@, is_alive(now, DEATH_TIMER_MS)),
        r@ == select(old(store)@, is_expired(now, DEATH_TIMER_MS)),
{
    store.evict_expired(now, DEATH_TIMER_MS)
}

/// Slot addresses of every registered module, to be pinged.
pub fn ping_all_modules(store: &ModuleStore) -> (r: Vec<NetAddr>)
    ensures
        r@ == slot_addrs(store@),
{
    let all = store.get_vec();
    slot_addrs_of(&all)
}

/// A periodic sweep at `now`: first evicts the dead modules, to be sent a
/// Bye, then lists the remaining ones, to be sent a Heartbeat.
pub fn tick(store: &mut ModuleStore, now: u64) -> (r: TickPlan)
    ensures
        final(store)@ == select(old(store)@, is_alive(now, DEATH_TIMER_MS)),
        r.bye_to@ == slot_addrs(select(old(store)@, is_expired(now, DEATH_TIMER_MS))),
        r.ping_to@ == slot_addrs(final(store)@),
{
    let dead = cleanup_dead(store, now);
    let bye_to = slot_addrs_of(&dead);
    let ping_to = ping_all_modules(store);
    TickPlan { bye_to, ping_to }
}

} // verus!
