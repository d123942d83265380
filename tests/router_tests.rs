use slot::protocol::ValidName;
use slot::router::{is_forwarded_header, module_redirect, unreachable_message, Route};
use slot::store::{HostIp, ModuleStore, NetAddr};
use slot::supervisor::FailCounter;

#[test]
fn registered_module_gets_request_with_same_sub_path() {
    let mut s = ModuleStore::new();
    let http = NetAddr { ip: HostIp::V4(0x0A00_0005), port: 9001 };
    let slot_addr = NetAddr { ip: HostIp::V4(0x0A00_0005), port: 50123 };
    s.store_module(&ValidName::parse("audio01").unwrap(), &http, &slot_addr, 0);
    match module_redirect(&s, "audio01", "stream.mp3") {
        Route::Forward { http_addr, path } => {
            assert_eq!(http_addr, http);
            assert_eq!(path, "/audio01/stream.mp3");
        }
        Route::NotFound { .. } => panic!("module should be found"),
    }
}

#[test]
fn unknown_module_is_not_found() {
    let s = ModuleStore::new();
    match module_redirect(&s, "video", "a/b") {
        Route::NotFound { body } => assert_eq!(body, "Module \"video\" is offline or does not exist"),
        Route::Forward { .. } => panic!("module should not be found"),
    }
    assert!(matches!(module_redirect(&s, "no such", "x"), Route::NotFound { .. }));
}

#[test]
fn unreachable_module_message_names_it() {
    assert_eq!(
        unreachable_message("audio01"),
        "Module \"audio01\" did not respond or unable to make request"
    );
}

#[test]
fn only_content_type_and_cache_control_are_relayed() {
    assert!(is_forwarded_header("content-type"));
    assert!(is_forwarded_header("Content-Type"));
    assert!(is_forwarded_header("CACHE-CONTROL"));
    assert!(!is_forwarded_header("set-cookie"));
    assert!(!is_forwarded_header("content-typ"));
    assert!(!is_forwarded_header(""));
}

#[test]
fn fail_counter_restarts_at_limit() {
    let mut c = FailCounter::new();
    for _ in 0..4 {
        assert!(!c.record_failure());
    }
    assert_eq!(c.count(), 4);
    assert!(c.record_failure());
    assert_eq!(c.count(), 0);
}
