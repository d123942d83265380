use slot::protocol::ValidName;
use slot::store::{HostIp, ModuleStore, NetAddr, DEATH_TIMER_MS};

fn addr(port: u16) -> NetAddr {
    NetAddr { ip: HostIp::V4(0x7F00_0001), port }
}

#[test]
fn new_registry_is_empty() {
    let s = ModuleStore::new();
    assert_eq!(s.len(), 0);
    assert!(s.get_vec().is_empty());
    assert!(s.find_module_by_name("audio01").is_none());
}

#[test]
fn upsert_twice_keeps_latest_only() {
    let mut s = ModuleStore::new();
    let n = ValidName::parse("audio01").unwrap();
    s.store_module(&n, &addr(9001), &addr(40000), 1);
    s.store_module(&n, &addr(9002), &addr(40001), 2);
    assert_eq!(s.len(), 1);
    let m = s.find_module_by_name("audio01").unwrap();
    assert_eq!(m.http_addr, addr(9002));
    assert_eq!(m.slot_addr, addr(40001));
    assert_eq!(m.time_last_heard, 2);
}

#[test]
fn upsert_keeps_other_names() {
    let mut s = ModuleStore::new();
    s.store_module(&ValidName::parse("a").unwrap(), &addr(1), &addr(11), 0);
    s.store_module(&ValidName::parse("b").unwrap(), &addr(2), &addr(12), 0);
    s.store_module(&ValidName::parse("a").unwrap(), &addr(3), &addr(13), 0);
    assert_eq!(s.len(), 2);
    assert_eq!(s.find_module_by_name("b").unwrap().http_addr, addr(2));
    assert_eq!(s.find_module_by_name("a").unwrap().http_addr, addr(3));
}

#[test]
fn find_with_invalid_name_is_not_found() {
    let mut s = ModuleStore::new();
    s.store_module(&ValidName::parse("a").unwrap(), &addr(1), &addr(11), 0);
    assert!(s.find_module_by_name("").is_none());
    assert!(s.find_module_by_name("a/b").is_none());
    assert!(s.find_module_by_name("b").is_none());
}

#[test]
fn heartbeat_updates_matching_slot_address_only() {
    let mut s = ModuleStore::new();
    s.store_module(&ValidName::parse("a").unwrap(), &addr(1), &addr(11), 5);
    s.store_module(&ValidName::parse("b").unwrap(), &addr(2), &addr(12), 5);
    s.update_last_heard(&addr(12), 99);
    assert_eq!(s.find_module_by_name("a").unwrap().time_last_heard, 5);
    assert_eq!(s.find_module_by_name("b").unwrap().time_last_heard, 99);
    s.update_last_heard(&addr(77), 100);
    assert_eq!(s.find_module_by_name("a").unwrap().time_last_heard, 5);
}

#[test]
fn eviction_removes_only_expired_entries() {
    let mut s = ModuleStore::new();
    s.store_module(&ValidName::parse("old").unwrap(), &addr(1), &addr(11), 0);
    s.store_module(&ValidName::parse("fresh").unwrap(), &addr(2), &addr(12), 5_000);
    s.store_module(&ValidName::parse("edge").unwrap(), &addr(3), &addr(13), 1_000);
    let dead = s.evict_expired(11_000, DEATH_TIMER_MS);
    assert_eq!(dead.len(), 1);
    assert_eq!(dead[0].name.as_string(), "old");
    assert!(s.find_module_by_name("old").is_none());
    assert!(s.find_module_by_name("fresh").is_some());
    assert!(s.find_module_by_name("edge").is_some());
    assert_eq!(s.len(), 2);
}

#[test]
fn eviction_keeps_entries_heard_after_now() {
    let mut s = ModuleStore::new();
    s.store_module(&ValidName::parse("x").unwrap(), &addr(1), &addr(11), 50_000);
    assert!(s.evict_expired(10, DEATH_TIMER_MS).is_empty());
    assert_eq!(s.len(), 1);
}
