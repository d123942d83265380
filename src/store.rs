//! The module registry: live modules keyed by name, with liveness timestamps.
//!
//! Timestamps are milliseconds of a monotonic clock that the caller reads;
//! sharing the registry between tasks (a reader/writer lock) is left to the
//! caller, who holds the lock around each call.

use vstd::prelude::*;
use crate::protocol::{ValidName, valid_name_chars, ascii_bytes};

verus! {

/// An IP address as plain integers.
#[derive(Clone, Copy, Debug, PartialEq, Eq, Structural)]
pub enum HostIp {
    V4(u32),
    V6(u128),
}

/// A socket address: IP address and port.
#[derive(Clone, Copy, Debug, PartialEq, Eq, Structural)]
pub struct NetAddr {
    pub ip: HostIp,
    pub port: u16,
}

/// Silence after which a module counts as dead, in milliseconds.
pub const DEATH_TIMER_MS: u64 = 10000;

/// One registered module.
#[derive(Clone, Copy, Debug)]
pub struct ModuleInfo {
    pub name: ValidName,
    /// Where the module serves HTTP.
    pub http_addr: NetAddr,
    /// Where the module's discovery packets come from.
    pub slot_addr: NetAddr,
    /// When the module was last heard from, in milliseconds.
    pub time_last_heard: u64,
}

/// No two entries carry the same name.
pub open spec fn names_unique(s: Seq<ModuleInfo>) -> bool {
    forall|i: int, j: int|
        0 <= i < s.len() && 0 <= j < s.len() && i != j ==> #[trigger] s[i].name@ != #[trigger] s[j].name@
}

/// The entries of `s` that satisfy `p`, in their order.
pub open spec fn select(s: Seq<ModuleInfo>, p: spec_fn(ModuleInfo) -> bool) -> Seq<ModuleInfo>
    decreases s.len(),
{
    if s.len() == 0 {
        s
    } else {
        let rest = select(s.drop_last(), p);
        if p(s.last()) {
            rest.push(s.last())
        } else {
            rest
        }
    }
}

/// An entry whose name is not `n`.
pub open spec fn other_name(n: Seq<u8>) -> spec_fn(ModuleInfo) -> bool {
    |e: ModuleInfo| e.name@ != n
}

/// The registry after an upsert of `m`: any entry of the same name is replaced.
pub open spec fn upserted(s: Seq<ModuleInfo>, m: ModuleInfo) -> Seq<ModuleInfo> {
    select(s, other_name(m.name@)).push(m)
}

/// The entry named `n`, if there is one.
pub open spec fn lookup(s: Seq<ModuleInfo>, n: Seq<u8>) -> Option<ModuleInfo> {
    if exists|i: int| 0 <= i < s.len() && #[trigger] s[i].name@ == n {
        let i = choose|i: int| 0 <= i < s.len() && #[trigger] s[i].name@ == n;
        Some(s[i])
    } else {
        None
    }
}

/// An entry last heard from more than `timeout` milliseconds before `now`.
pub open spec fn expired(e: ModuleInfo, now: u64, timeout: u64) -> bool {
    now as int - e.time_last_heard as int > timeout as int
}

/// Predicate form of `expired`.
pub open spec fn is_expired(now: u64, timeout: u64) -> spec_fn(ModuleInfo) -> bool {
    |e: ModuleInfo| expired(e, now, timeout)
}

/// Negation of `is_expired`.
pub open spec fn is_alive(now: u64, timeout: u64) -> spec_fn(ModuleInfo) -> bool {
    |e: ModuleInfo| !expired(e, now, timeout)
}

/// The entry `e`, last heard from at `now`.
pub open spec fn heard_at(e: ModuleInfo, now: u64) -> ModuleInfo {
    ModuleInfo { name: e.name, http_addr: e.http_addr, slot_addr: e.slot_addr, time_last_heard: now }
}

/// The registry after a heartbeat from `addr` at `now`.
pub open spec fn touched(s: Seq<ModuleInfo>, addr: NetAddr, now: u64) -> Seq<ModuleInfo> {
    s.map_values(|e: ModuleInfo| if e.slot_addr == addr { heard_at(e, now) } else { e })
}

/// An element of `select(s, p)` is an element of `s` that satisfies `p`.
pub proof fn lemma_select_contains(s: Seq<ModuleInfo>, p: spec_fn(ModuleInfo) -> bool, e: ModuleInfo)
    ensures
        select(s, p).contains(e) <==> s.contains(e) && p(e),
    decreases s.len(),
{
    if s.len() > 0 {
        let d = s.drop_last();
        lemma_select_contains(d, p, e);
        let rest = select(d, p);
        assert(s.contains(e) <==> d.contains(e) || e == s.last()) by {
            if s.contains(e) {
                let i = choose|i: int| 0 <= i < s.len() && s[i] == e;
                if i < d.len() {
                    assert(d[i] == e);
                } else {
                    assert(e == s.last());
                }
            }
            if d.contains(e) {
                let i = choose|i: int| 0 <= i < d.len() && d[i] == e;
                assert(s[i] == e);
            }
            if e == s.last() {
                assert(s[s.len() - 1] == e);
            }
        }
        if p(s.last()) {
            let r = rest.push(s.last());
            assert(r.contains(e) <==> rest.contains(e) || e == s.last()) by {
                if r.contains(e) {
                    let i = choose|i: int| 0 <= i < r.len() && r[i] == e;
                    if i < rest.len() {
                        assert(rest[i] == e);
                    }
                }
                if rest.contains(e) {
                    let i = choose|i: int| 0 <= i < rest.len() && rest[i] == e;
                    assert(r[i] == e);
                }
                if e == s.last() {
                    assert(r[r.len() - 1] == e);
                }
            }
        }
    }
}

/// Selecting from a registry with unique names keeps them unique.
pub proof fn lemma_select_unique(s: Seq<ModuleInfo>, p: spec_fn(ModuleInfo) -> bool)
    requires
        names_unique(s),
    ensures
        names_unique(select(s, p)),
        select(s, p).len() <= s.len(),
    decreases s.len(),
{
    if s.len() > 0 {
        let d = s.drop_last();
        assert(names_unique(d)) by {
            assert forall|i: int, j: int|
                0 <= i < d.len() && 0 <= j < d.len() && i != j implies #[trigger] d[i].name@ != #[trigger] d[j].name@ by {
                assert(s[i] == d[i] && s[j] == d[j]);
            }
        }
        lemma_select_unique(d, p);
        let rest = select(d, p);
        if p(s.last()) {
            assert forall|k: int| 0 <= k < rest.len() implies #[trigger] rest[k].name@ != s.last().name@ by {
                assert(rest.contains(rest[k]));
                lemma_select_contains(d, p, rest[k]);
                let i = choose|i: int| 0 <= i < d.len() && d[i] == rest[k];
                assert(s[i] == d[i]);
                assert(s[s.len() - 1] == s.last());
            }
            let r = rest.push(s.last());
            assert forall|i: int, j: int|
                0 <= i < r.len() && 0 <= j < r.len() && i != j implies #[trigger] r[i].name@ != #[trigger] r[j].name@ by {
                if i < rest.len() && j < rest.len() {
                    assert(r[i] == rest[i] && r[j] == rest[j]);
                } else if i < rest.len() {
                    assert(r[i] == rest[i]);
                } else {
                    assert(r[j] == rest[j]);
                }
            }
        }
    }
}

/// Appending an entry whose name is new keeps names unique.
pub proof fn lemma_push_unique(s: Seq<ModuleInfo>, m: ModuleInfo)
    requires
        names_unique(s),
        forall|k: int| 0 <= k < s.len() ==> #[trigger] s[k].name@ != m.name@,
    ensures
        names_unique(s.push(m)),
{
    let r = s.push(m);
    assert forall|i: int, j: int|
        0 <= i < r.len() && 0 <= j < r.len() && i != j implies #[trigger] r[i].name@ != #[trigger] r[j].name@ by {
        if i < s.len() && j < s.len() {
            assert(r[i] == s[i] && r[j] == s[j]);
        } else if i < s.len() {
            assert(r[i] == s[i]);
        } else {
            assert(r[j] == s[j]);
        }
    }
}

/// After an upsert of `m` into a registry with unique names, names stay
/// unique, `m` is the one entry of its name, and every entry of another name
/// is kept.
pub proof fn lemma_upsert(s: Seq<ModuleInfo>, m: ModuleInfo)
    requires
        names_unique(s),
    ensures
        names_unique(upserted(s, m)),
        lookup(upserted(s, m), m.name@) == Some(m),
        forall|i: int| 0 <= i < upserted(s, m).len() && #[trigger] upserted(s, m)[i].name@ == m.name@
            ==> upserted(s, m)[i] == m,
        forall|e: ModuleInfo| s.contains(e) && e.name@ != m.name@ ==> #[trigger] upserted(s, m).contains(e),
{
    let k = select(s, other_name(m.name@));
    lemma_select_unique(s, other_name(m.name@));
    assert forall|j: int| 0 <= j < k.len() implies #[trigger] k[j].name@ != m.name@ by {
        assert(k.contains(k[j]));
        lemma_select_contains(s, other_name(m.name@), k[j]);
    }
    lemma_push_unique(k, m);
    let t = k.push(m);
    assert(t[t.len() - 1] == m);
    let j = choose|j: int| 0 <= j < t.len() && #[trigger] t[j].name@ == m.name@;
    assert(j == t.len() - 1);
    assert forall|e: ModuleInfo| s.contains(e) && e.name@ != m.name@ implies #[trigger] t.contains(e) by {
        lemma_select_contains(s, other_name(m.name@), e);
        let i = choose|i: int| 0 <= i < k.len() && k[i] == e;
        assert(t[i] == e);
    }
}

/// Two upserts under one name leave exactly one entry of that name, the
/// later one: `find_module_by_name` then returns the latest addresses.
pub proof fn lemma_upsert_replaces(s: Seq<ModuleInfo>, m1: ModuleInfo, m2: ModuleInfo)
    requires
        names_unique(s),
        m1.name@ == m2.name@,
    ensures
        names_unique(upserted(upserted(s, m1), m2)),
        lookup(upserted(upserted(s, m1), m2), m2.name@) == Some(m2),
        forall|i: int|
            0 <= i < upserted(upserted(s, m1), m2).len() && #[trigger] upserted(upserted(s, m1), m2)[i].name@
                == m2.name@ ==> upserted(upserted(s, m1), m2)[i] == m2,
{
    lemma_upsert(s, m1);
    lemma_upsert(upserted(s, m1), m2);
}

/// Eviction at `now` with `timeout` on a registry with unique names: every
/// entry silent for longer than `timeout` is returned and no entry of its
/// name remains; every other entry remains and is not returned.
pub proof fn lemma_eviction(s: Seq<ModuleInfo>, now: u64, timeout: u64)
    requires
        names_unique(s),
    ensures
        forall|i: int| 0 <= i < s.len() && expired(#[trigger] s[i], now, timeout) ==> {
            &&& select(s, is_expired(now, timeout)).contains(s[i])
            &&& lookup(select(s, is_alive(now, timeout)), s[i].name@) is None
        },
        forall|i: int| 0 <= i < s.len() && !expired(#[trigger] s[i], now, timeout) ==> {
            &&& !select(s, is_expired(now, timeout)).contains(s[i])
            &&& lookup(select(s, is_alive(now, timeout)), s[i].name@) == Some(s[i])
        },
{
    let alive = select(s, is_alive(now, timeout));
    let dead = select(s, is_expired(now, timeout));
    lemma_select_unique(s, is_alive(now, timeout));
    assert forall|i: int| 0 <= i < s.len() implies {
        &&& expired(#[trigger] s[i], now, timeout) ==> dead.contains(s[i]) && lookup(alive, s[i].name@) is None
        &&& !expired(s[i], now, timeout) ==> !dead.contains(s[i]) && lookup(alive, s[i].name@) == Some(s[i])
    } by {
        assert(s.contains(s[i]));
        lemma_select_contains(s, is_expired(now, timeout), s[i]);
        lemma_select_contains(s, is_alive(now, timeout), s[i]);
        assert forall|k: int| 0 <= k < alive.len() && #[trigger] alive[k].name@ == s[i].name@ implies alive[k] == s[i] by {
            assert(alive.contains(alive[k]));
            lemma_select_contains(s, is_alive(now, timeout), alive[k]);
            let j = choose|j: int| 0 <= j < s.len() && s[j] == alive[k];
            assert(s[j].name@ == s[i].name@);
        }
        if !expired(s[i], now, timeout) {
            let k = choose|k: int| 0 <= k < alive.len() && alive[k] == s[i];
            assert(alive[k].name@ == s[i].name@);
        }
    }
}

/// The registry of live modules. Each name stands in at most one entry.
pub struct ModuleStore {
    modules: Vec<ModuleInfo>,
}

impl View for ModuleStore {
    type V = Seq<ModuleInfo>;

    closed spec fn view(&self) -> Seq<ModuleInfo> {
        self.modules@
    }
}

impl ModuleStore {
    #[verifier::type_invariant]
    spec fn inv(self) -> bool {
        names_unique(self.modules@)
    }

    /// An empty registry.
    pub fn new() -> (r: ModuleStore)
        ensures
            r@ == Seq::<ModuleInfo>::empty(),
            names_unique(r@),
    {
        ModuleStore { modules: Vec::new() }
    }

    /// Inserts `name`, or replaces the entry that carries it, heard from at `now`.
    pub fn store_module(&mut self, name: &ValidName, http_addr: &NetAddr, slot_addr: &NetAddr, now: u64)
        ensures
            final(self)@ == upserted(
                old(self)@,
                ModuleInfo { name: *name, http_addr: *http_addr, slot_addr: *slot_addr, time_last_heard: now },
            ),
            names_unique(final(self)@),
    {
        proof {
            use_type_invariant(&*self);
        }
        let ghost n = name@;
        let mut kept: Vec<ModuleInfo> = Vec::new();
        let mut i: usize = 0;
        while i < self.modules.len()
            invariant
                i <= self.modules@.len(),
                kept@ == select(self.modules@.subrange(0, i as int), other_name(n)),
                n == name@,
            decreases self.modules@.len() - i,
        {
            let e = self.modules[i];
            if !e.name.same_name(name) {
                kept.push(e);
            }
            proof {
                assert(self.modules@.subrange(0, i + 1).drop_last() =~= self.modules@.subrange(0, i as int));
            }
            i += 1;
        }
        let m = ModuleInfo { name: *name, http_addr: *http_addr, slot_addr: *slot_addr, time_last_heard: now };
        proof {
            assert(self.modules@.subrange(0, i as int) =~= self.modules@);
            lemma_select_unique(self.modules@, other_name(n));
            assert forall|k: int| 0 <= k < kept@.len() implies #[trigger] kept@[k].name@ != n by {
                assert(kept@.contains(kept@[k]));
                lemma_select_contains(self.modules@, other_name(n), kept@[k]);
            }
            lemma_push_unique(kept@, m);
        }
        kept.push(m);
        self.modules = kept;
    }

    /// The entry named `name`, if `name` is a valid name and such an entry exists.
    pub fn find_module_by_name(&self, name: &str) -> (r: Option<ModuleInfo>)
        ensures
            r == (if valid_name_chars(name@) { lookup(self@, ascii_bytes(name@)) } else { None }),
    {
        proof {
            use_type_invariant(self);
        }
        let validated = match ValidName::parse(name) {
            Ok(v) => v,
            Err(_) => return None,
        };
        let mut i: usize = 0;
        while i < self.modules.len()
            invariant
                i <= self.modules@.len(),
                names_unique(self.modules@),
                validated@ == ascii_bytes(name@),
                valid_name_chars(name@),
                forall|j: int| 0 <= j < i ==> #[trigger] self.modules@[j].name@ != validated@,
            decreases self.modules@.len() - i,
        {
            if self.modules[i].name.same_name(&validated) {
                proof {
                    let s = self.modules@;
                    assert(s[i as int].name@ == validated@);
                    let j = choose|j: int| 0 <= j < s.len() && #[trigger] s[j].name@ == validated@;
                    assert(j == i);
                }
                return Some(self.modules[i]);
            }
            i += 1;
        }
        None
    }

    /// Marks every entry whose slot address is `addr` as heard from at `now`.
    pub fn update_last_heard(&mut self, addr: &NetAddr, now: u64)
        ensures
            final(self)@ == touched(old(self)@, *addr, now),
            names_unique(final(self)@),
    {
        proof {
            use_type_invariant(&*self);
        }
        let mut out: Vec<ModuleInfo> = Vec::new();
        let mut i: usize = 0;
        while i < self.modules.len()
            invariant
                i <= self.modules@.len(),
                out@.len() == i,
                forall|j: int| 0 <= j < i ==> #[trigger] out@[j] == (if self.modules@[j].slot_addr == *addr {
                    heard_at(self.modules@[j], now)
                } else {
                    self.modules@[j]
                }),
            decreases self.modules@.len() - i,
        {
            let e = self.modules[i];
            if e.slot_addr == *addr {
                out.push(ModuleInfo { name: e.name, http_addr: e.http_addr, slot_addr: e.slot_addr, time_last_heard: now });
            } else {
                out.push(e);
            }
            i += 1;
        }
        proof {
            assert(out@ =~= touched(self.modules@, *addr, now));
            assert forall|a: int, b: int|
                0 <= a < out@.len() && 0 <= b < out@.len() && a != b implies #[trigger] out@[a].name@ != #[trigger] out@[b].name@ by {
                assert(out@[a].name == self.modules@[a].name);
                assert(out@[b].name == self.modules@[b].name);
            }
        }
        self.modules = out;
    }

    /// Removes and returns every entry last heard from more than `timeout`
    /// milliseconds before `now`.
    pub fn evict_expired(&mut self, now: u64, timeout: u64) -> (r: Vec<ModuleInfo>)
        ensures
            final(self)@ == select(old(self)@, is_alive(now, timeout)),
            r@ == select(old(self)@, is_expired(now, timeout)),
            names_unique(final(self)@),
    {
        proof {
            use_type_invariant(&*self);
        }
        let mut kept: Vec<ModuleInfo> = Vec::new();
        let mut dead: Vec<ModuleInfo> = Vec::new();
        let mut i: usize = 0;
        while i < self.modules.len()
            invariant
                i <= self.modules@.len(),
                kept@ == select(self.modules@.subrange(0, i as int), is_alive(now, timeout)),
                dead@ == select(self.modules@.subrange(0, i as int), is_expired(now, timeout)),
            decreases self.modules@.len() - i,
        {
            let e = self.modules[i];
            if now > e.time_last_heard && now - e.time_last_heard > timeout {
                dead.push(e);
            } else {
                kept.push(e);
            }
            proof {
                assert(self.modules@.subrange(0, i + 1).drop_last() =~= self.modules@.subrange(0, i as int));
            }
            i += 1;
        }
        proof {
            assert(self.modules@.subrange(0, i as int) =~= self.modules@);
            lemma_select_unique(self.modules@, is_alive(now, timeout));
        }
        self.modules = kept;
        dead
    }

    /// A copy of every entry.
    pub fn get_vec(&self) -> (r: Vec<ModuleInfo>)
        ensures
            r@ == self@,
    {
        let mut out: Vec<ModuleInfo> = Vec::new();
        let mut i: usize = 0;
        while i < self.modules.len()
            invariant
                i <= self.modules@.len(),
                out@ == self.modules@.subrange(0, i as int),
            decreases self.modules@.len() - i,
        {
            out.push(self.modules[i]);
            i += 1;
            assert(out@ =~= self.modules@.subrange(0, i as int));
        }
        assert(out@ =~= self.modules@);
        out
    }

    /// Number of registered modules.
    pub fn len(&self) -> (r: usize)
        ensures
            r == self@.len(),
    {
        self.modules.len()
    }
}

} // verus!
