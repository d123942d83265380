use slot::protocol::{MsgIds, SlotMsg, ValidName, MAX_MOD_NAME_LEN, PKT_LEN};
use std::str::FromStr;

fn name_buf(s: &str) -> [u8; MAX_MOD_NAME_LEN] {
    let mut buf = [0u8; MAX_MOD_NAME_LEN];
    buf[..s.len()].copy_from_slice(s.as_bytes());
    buf
}

#[test]
fn packet_length_is_fixed() {
    assert_eq!(PKT_LEN, 24);
}

#[test]
fn command_codes_round_trip() {
    for m in [MsgIds::Join, MsgIds::ConfirmJoin, MsgIds::RejectJoin, MsgIds::Heartbeat, MsgIds::Bye] {
        assert_eq!(MsgIds::from_code(m.code()), Some(m));
    }
    assert_eq!(MsgIds::Join.code(), 0);
    assert_eq!(MsgIds::Bye.code(), 4);
    assert_eq!(MsgIds::from_code(5), None);
    assert_eq!(MsgIds::from_code(255), None);
}

#[test]
fn encode_lays_out_fields_with_big_endian_port() {
    let m = SlotMsg { cmd: 0, module_http_port: 9001, name_len: 7, name: name_buf("audio01") };
    let b = m.as_bytes();
    assert_eq!(b[0], 0);
    assert_eq!(b[1], 0x23);
    assert_eq!(b[2], 0x29);
    assert_eq!(b[3], 7);
    assert_eq!(&b[4..11], b"audio01");
    assert!(b[11..].iter().all(|x| *x == 0));
}

#[test]
fn decode_of_encode_gives_packet_back() {
    let m = SlotMsg { cmd: 3, module_http_port: 0xABCD, name_len: 20, name: [b'z'; MAX_MOD_NAME_LEN] };
    let d = SlotMsg::from_bytes(m.as_bytes());
    assert_eq!(d.cmd, 3);
    assert_eq!(d.module_http_port, 0xABCD);
    assert_eq!(d.name_len, 20);
    assert_eq!(d.name, [b'z'; MAX_MOD_NAME_LEN]);
}

#[test]
fn decode_accepts_any_bytes() {
    let mut b = [0xFFu8; PKT_LEN];
    b[1] = 0x01;
    b[2] = 0x02;
    let d = SlotMsg::from_bytes(b);
    assert_eq!(d.cmd, 0xFF);
    assert_eq!(d.module_http_port, 0x0102);
    assert_eq!(d.name_len, 0xFF);
    assert_eq!(d.as_bytes(), b);
}

#[test]
fn parse_accepts_alphanumeric_names() {
    let n = ValidName::parse("audio01").unwrap();
    let (len, buf) = n.get();
    assert_eq!(len, 7);
    assert_eq!(buf, name_buf("audio01"));
    assert_eq!(n.as_string(), "audio01");
    let longest = "A".repeat(MAX_MOD_NAME_LEN);
    assert!(ValidName::parse(&longest).is_ok());
    assert!(ValidName::from_str("Zz9").is_ok());
}

#[test]
fn parse_rejects_invalid_names() {
    assert_eq!(ValidName::parse("").unwrap_err(), "String is empty");
    assert_eq!(ValidName::parse("a\0b").unwrap_err(), "Not all characters are alphanumeric");
    assert_eq!(ValidName::parse("a-b").unwrap_err(), "Not all characters are alphanumeric");
    assert_eq!(ValidName::parse("caf\u{e9}").unwrap_err(), "Invalid characters in string");
    let long = "a".repeat(MAX_MOD_NAME_LEN + 1);
    assert_eq!(ValidName::parse(&long).unwrap_err(), "String is too long. Must be at most 20");
}

#[test]
fn names_compare_by_significant_bytes() {
    let a = ValidName::parse("abc").unwrap();
    let b = ValidName::new(3, name_buf("abc"));
    let c = ValidName::parse("abd").unwrap();
    assert!(a == b);
    assert!(a != c);
    assert!(a.same_name(&b));
    assert!(!a.same_name(&ValidName::parse("ab").unwrap()));
}

#[test]
fn from_raw_checks_length_characters_and_padding() {
    assert!(ValidName::from_raw(7, name_buf("audio01")).is_some());
    assert!(ValidName::from_raw(0, name_buf("")).is_none());
    assert!(ValidName::from_raw(21, [b'a'; MAX_MOD_NAME_LEN]).is_none());
    assert!(ValidName::from_raw(3, name_buf("a!c")).is_none());
    assert!(ValidName::from_raw(2, name_buf("abc")).is_none());
}
