//! Decisions of the gateway router: which module a request goes to, on which
//! path, and which response headers come back. The HTTP client and server
//! run outside the library.

use vstd::prelude::*;
use vstd::string::{StringExecFns, StrSliceExecFns};
use crate::protocol::{valid_name_chars, ascii_bytes};
use crate::protocol::ValidName;
use crate::server::{join_accepted, joined_entry};
use crate::store::{ModuleStore, NetAddr, lookup, names_unique, upserted, lemma_upsert};
use crate::protocol::SlotMsg;

verus! {

/// Where a request for `/{modname}/{rest}` goes.
#[derive(Debug)]
pub enum Route {
    /// To the module's HTTP address, on this path.
    Forward { http_addr: NetAddr, path: String },
    /// Nowhere: no such module is registered; the body says so.
    NotFound { body: String },
}

/// The module that a request names, if it is registered.
pub open spec fn routed_module(s: Seq<crate::store::ModuleInfo>, modname: Seq<char>) -> Option<
    crate::store::ModuleInfo,
> {
    if valid_name_chars(modname) {
        lookup(s, ascii_bytes(modname))
    } else {
        None
    }
}

/// Path of the forwarded request: the same module prefix and sub-path.
pub open spec fn forward_path(modname: Seq<char>, rest: Seq<char>) -> Seq<char> {
    "/"@ + modname + "/"@ + rest
}

/// Body of the not-found response.
pub open spec fn not_found_body(modname: Seq<char>) -> Seq<char> {
    "Module \""@ + modname + "\" is offline or does not exist"@
}

/// Body of the response for a module that did not answer.
pub open spec fn unreachable_body(modname: Seq<char>) -> Seq<char> {
    "Module \""@ + modname + "\" did not respond or unable to make request"@
}

/// Resolves a request for `/{modname}/{modurl}` through the registry.
pub fn module_redirect(store: &ModuleStore, modname: &str, modurl: &str) -> (r: Route)
    ensures
        routed_module(store@, modname@) matches Some(m) ==> (r matches Route::Forward { http_addr, path }
            && http_addr == m.http_addr && path@ == forward_path(modname@, modurl@)),
        routed_module(store@, modname@) is None ==> (r matches Route::NotFound { body } && body@
            == not_found_body(modname@)),
{
    match store.find_module_by_name(modname) {
        Some(m) => {
            let path = String::from_str("/").concat(modname).concat("/").concat(modurl);
            Route::Forward { http_addr: m.http_addr, path }
        },
        None => {
            let body = String::from_str("Module \"").concat(modname).concat("\" is offline or does not exist");
            Route::NotFound { body }
        },
    }
}

/// Once a Join for `modname` from `from` is accepted, a request for
/// `/{modname}/...` is routed to the sender's IP at the declared HTTP port.
pub proof fn lemma_join_then_route(
    s: Seq<crate::store::ModuleInfo>,
    pkt: SlotMsg,
    from: NetAddr,
    now: u64,
    modname: Seq<char>,
)
    requires
        names_unique(s),
        join_accepted(pkt),
        valid_name_chars(modname),
        ascii_bytes(modname) == pkt.name@.subrange(0, pkt.name_len as int),
    ensures
        routed_module(upserted(s, joined_entry(pkt, from, now)), modname) == Some(joined_entry(pkt, from, now)),
        joined_entry(pkt, from, now).http_addr == (NetAddr { ip: from.ip, port: pkt.module_http_port }),
{
    ValidName::lemma_raw_view(pkt.name_len, pkt.name);
    lemma_upsert(s, joined_entry(pkt, from, now));
}

/// Body of the server-error response when the module `modname` did not answer.
pub fn unreachable_message(modname: &str) -> (r: String)
    ensures
        r@ == unreachable_body(modname@),
{
    String::from_str("Module \"").concat(modname).concat("\" did not respond or unable to make request")
}

/// `c` is `t`, or its upper-case ASCII form.
pub open spec fn same_ignoring_case(c: char, t: char) -> bool {
    c == t || ('A' <= c <= 'Z' && c as u32 + 32 == t as u32)
}

/// `name` spells the lower-case `target` in any ASCII case.
pub open spec fn eq_ignoring_case(name: Seq<char>, target: Seq<char>) -> bool {
    name.len() == target.len() && forall|i: int| 0 <= i < name.len() ==> #[trigger] same_ignoring_case(name[i], target[i])
}

/// Response headers relayed back from a module.
pub open spec fn forwarded_header(name: Seq<char>) -> bool {
    eq_ignoring_case(name, "content-type"@) || eq_ignoring_case(name, "cache-control"@)
}

fn matches_ignoring_case(name: &str, target: &str) -> (r: bool)
    ensures
        r == eq_ignoring_case(name@, target@),
{
    let n = name.unicode_len();
    if n != target.unicode_len() {
        return false;
    }
    let mut i: usize = 0;
    while i < n
        invariant
            n == name@.len() == target@.len(),
            i <= n,
            forall|j: int| 0 <= j < i ==> #[trigger] same_ignoring_case(name@[j], target@[j]),
        decreases n - i,
    {
        let c = name.get_char(i);
        let t = target.get_char(i);
        if !(c == t || ('A' <= c && c <= 'Z' && c as u32 + 32 == t as u32)) {
            assert(!same_ignoring_case(name@[i as int], target@[i as int]));
            return false;
        }
        i += 1;
    }
    true
}

/// Whether a module's response header `name` is relayed to the caller:
/// `content-type` and `cache-control`, in any ASCII case.
pub fn is_forwarded_header(name: &str) -> (r: bool)
    ensures
        r == forwarded_header(name@),
{
    matches_ignoring_case(name, "content-type") || matches_ignoring_case(name, "cache-control")
}

} // verus!
