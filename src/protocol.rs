//! Slot protocol: the fixed-size discovery packet and validated module names.

use vstd::prelude::*;
use vstd::string::StringExecFns;
use vstd::utf8::is_ascii_chars;

verus! {

/// Number of bytes reserved for a module name in a packet.
pub const MAX_MOD_NAME_LEN: usize = 20;

/// Number of bytes of one packet on the wire.
pub const PKT_LEN: usize = MAX_MOD_NAME_LEN + 4;

/// Commands carried in the `cmd` byte of a packet.
#[derive(Clone, Copy, Debug, PartialEq, Eq, Structural)]
pub enum MsgIds {
    /// Client asks to be registered.
    Join,
    /// Server accepted a join.
    ConfirmJoin,
    /// Server refused a join.
    RejectJoin,
    /// Liveness signal, both directions.
    Heartbeat,
    /// Server evicted the module.
    Bye,
}

impl MsgIds {
    /// The byte that stands for this command on the wire.
    pub open spec fn spec_code(self) -> u8 {
        match self {
            MsgIds::Join => 0,
            MsgIds::ConfirmJoin => 1,
            MsgIds::RejectJoin => 2,
            MsgIds::Heartbeat => 3,
            MsgIds::Bye => 4,
        }
    }

    /// The byte that stands for this command on the wire.
    pub fn code(self) -> (r: u8)
        ensures
            r == self.spec_code(),
    {
        match self {
            MsgIds::Join => 0,
            MsgIds::ConfirmJoin => 1,
            MsgIds::RejectJoin => 2,
            MsgIds::Heartbeat => 3,
            MsgIds::Bye => 4,
        }
    }

    /// The command whose byte is `b`, if any.
    pub fn from_code(b: u8) -> (r: Option<MsgIds>)
        ensures
            match r {
                Some(m) => m.spec_code() == b,
                None => b > 4,
            },
    {
        if b == 0 {
            Some(MsgIds::Join)
        } else if b == 1 {
            Some(MsgIds::ConfirmJoin)
        } else if b == 2 {
            Some(MsgIds::RejectJoin)
        } else if b == 3 {
            Some(MsgIds::Heartbeat)
        } else if b == 4 {
            Some(MsgIds::Bye)
        } else {
            None
        }
    }
}

/// One discovery packet, as its fields.
#[derive(Clone, Copy, Debug)]
pub struct SlotMsg {
    pub cmd: u8,
    pub module_http_port: u16,
    pub name_len: u8,
    pub name: [u8; MAX_MOD_NAME_LEN],
}

/// Field-wise mathematical value of a packet.
pub ghost struct PacketView {
    pub cmd: u8,
    pub port: u16,
    pub name_len: u8,
    pub name: Seq<u8>,
}

impl View for SlotMsg {
    type V = PacketView;

    open spec fn view(&self) -> PacketView {
        PacketView {
            cmd: self.cmd,
            port: self.module_http_port,
            name_len: self.name_len,
            name: self.name@,
        }
    }
}

/// Wire image of a packet: command, port big-endian, name length, name buffer.
pub open spec fn encode(p: PacketView) -> Seq<u8> {
    seq![p.cmd, (p.port / 256) as u8, (p.port % 256) as u8, p.name_len] + p.name
}

/// Packet read from a wire image; every image of `PKT_LEN` bytes reads as some packet.
pub open spec fn decode(b: Seq<u8>) -> PacketView {
    PacketView {
        cmd: b[0],
        port: (b[1] as int * 256 + b[2] as int) as u16,
        name_len: b[3],
        name: b.subrange(4, PKT_LEN as int),
    }
}

impl SlotMsg {
    /// A packet that carries only a command.
    pub fn command(cmd: MsgIds) -> (r: SlotMsg)
        ensures
            r.cmd == cmd.spec_code(),
            r.module_http_port == 0,
            r.name_len == 0,
            forall|i: int| 0 <= i < MAX_MOD_NAME_LEN ==> r.name[i] == 0,
    {
        SlotMsg { cmd: cmd.code(), module_http_port: 0, name_len: 0, name: [0u8; MAX_MOD_NAME_LEN] }
    }

    /// Encodes the packet field by field, the port in network byte order.
    pub fn as_bytes(&self) -> (r: [u8; PKT_LEN])
        ensures
            r@ == encode(self@),
    {
        let mut out = [0u8; PKT_LEN];
        out[0] = self.cmd;
        out[1] = (self.module_http_port / 256) as u8;
        out[2] = (self.module_http_port % 256) as u8;
        out[3] = self.name_len;
        let mut i: usize = 0;
        while i < MAX_MOD_NAME_LEN
            invariant
                i <= MAX_MOD_NAME_LEN,
                out@.len() == PKT_LEN,
                out@[0] == self.cmd,
                out@[1] == (self.module_http_port / 256) as u8,
                out@[2] == (self.module_http_port % 256) as u8,
                out@[3] == self.name_len,
                forall|j: int| 0 <= j < i ==> out@[4 + j] == self.name@[j],
            decreases MAX_MOD_NAME_LEN - i,
        {
            out[4 + i] = self.name[i];
            i += 1;
        }
        assert(out@ =~= encode(self@));
        out
    }

    /// Decodes a wire image; the port is read in network byte order.
    pub fn from_bytes(bytes: [u8; PKT_LEN]) -> (r: SlotMsg)
        ensures
            r@ == decode(bytes@),
    {
        let mut name = [0u8; MAX_MOD_NAME_LEN];
        let mut i: usize = 0;
        while i < MAX_MOD_NAME_LEN
            invariant
                i <= MAX_MOD_NAME_LEN,
                name@.len() == MAX_MOD_NAME_LEN,
                forall|j: int| 0 <= j < i ==> name@[j] == bytes@[4 + j],
            decreases MAX_MOD_NAME_LEN - i,
        {
            name[i] = bytes[4 + i];
            i += 1;
        }
        let port = bytes[1] as u16 * 256 + bytes[2] as u16;
        let r = SlotMsg { cmd: bytes[0], module_http_port: port, name_len: bytes[3], name };
        assert(r.name@ =~= bytes@.subrange(4, PKT_LEN as int));
        r
    }
}

/// Decoding the encoding of any packet gives the packet back, and a packet is
/// determined by its fields, so `from_bytes(as_bytes(p))` equals `p`.
pub proof fn lemma_round_trip(p: SlotMsg)
    ensures
        decode(encode(p@)) == p@,
        forall|q: SlotMsg| #[trigger] q@ == p@ ==> q == p,
{
    let e = encode(p@);
    assert(e.len() == PKT_LEN);
    assert(e.subrange(4, PKT_LEN as int) =~= p.name@);
    assert(decode(e) == p@);
    assert forall|q: SlotMsg| #[trigger] q@ == p@ implies q == p by {
        assert(q.name =~= p.name);
    }
}

/// An ASCII letter or digit.
pub open spec fn is_alnum_byte(b: u8) -> bool {
    (48 <= b <= 57) || (65 <= b <= 90) || (97 <= b <= 122)
}

/// An ASCII letter or digit, as a character.
pub open spec fn is_alnum_char(c: char) -> bool {
    ('0' <= c <= '9') || ('A' <= c <= 'Z') || ('a' <= c <= 'z')
}

/// A module name as bytes: 1 to `MAX_MOD_NAME_LEN` ASCII letters or digits.
pub open spec fn valid_name_bytes(s: Seq<u8>) -> bool {
    1 <= s.len() <= MAX_MOD_NAME_LEN && forall|i: int| 0 <= i < s.len() ==> is_alnum_byte(#[trigger] s[i])
}

/// A module name as text: 1 to `MAX_MOD_NAME_LEN` ASCII letters or digits.
pub open spec fn valid_name_chars(s: Seq<char>) -> bool {
    1 <= s.len() <= MAX_MOD_NAME_LEN && forall|i: int| 0 <= i < s.len() ==> is_alnum_char(#[trigger] s[i])
}

/// A fixed name buffer that holds a valid name in its first `len` bytes and zeros after it.
pub open spec fn valid_name_buf(len: u8, buf: Seq<u8>) -> bool {
    &&& buf.len() == MAX_MOD_NAME_LEN
    &&& len as int <= MAX_MOD_NAME_LEN
    &&& valid_name_bytes(buf.subrange(0, len as int))
    &&& forall|i: int| len <= i < MAX_MOD_NAME_LEN ==> buf[i] == 0
}

proof fn lemma_alnum_ascii(c: char)
    requires
        '\0' <= c <= '\u{7f}',
    ensures
        is_alnum_byte(c as u8) <==> is_alnum_char(c),
{
    assert(c as u32 == (c as u8) as u32);
}

/// The bytes of an ASCII text, one per character.
pub open spec fn ascii_bytes(s: Seq<char>) -> Seq<u8> {
    s.map_values(|c: char| c as u8)
}

/// The message with which `ValidName::parse` refuses `s`.
pub open spec fn name_error(s: Seq<char>) -> Seq<char> {
    if !is_ascii_chars(s) {
        "Invalid characters in string"@
    } else if s.len() > MAX_MOD_NAME_LEN {
        "String is too long. Must be at most 20"@
    } else if s.len() == 0 {
        "String is empty"@
    } else {
        "Not all characters are alphanumeric"@
    }
}

/// A module name that has passed validation, held as a length and a
/// zero-padded buffer.
#[derive(Clone, Copy, Debug)]
pub struct ValidName(u8, [u8; MAX_MOD_NAME_LEN]);

impl View for ValidName {
    type V = Seq<u8>;

    /// The significant bytes of the name.
    closed spec fn view(&self) -> Seq<u8> {
        self.1@.subrange(0, self.0 as int)
    }
}

impl ValidName {
    #[verifier::type_invariant]
    spec fn inv(self) -> bool {
        valid_name_buf(self.0, self.1@)
    }

    /// Validates `s` as a module name.
    pub fn parse(s: &str) -> (r: Result<ValidName, String>)
        ensures
            r is Ok <==> valid_name_chars(s@),
            r matches Ok(n) ==> n@ == ascii_bytes(s@),
            r matches Err(e) ==> e@ == name_error(s@),
    {
        if !s.is_ascii() {
            proof {
                if valid_name_chars(s@) {
                    assert forall|i: int| 0 <= i < s@.len() implies '\0' <= #[trigger] s@[i] <= '\u{7f}' by {
                        assert(is_alnum_char(s@[i]));
                    }
                }
            }
            return Err(String::from_str("Invalid characters in string"));
        }
        let bytes = s.as_bytes();
        proof {
            vstd::string::is_ascii_spec_bytes(s);
        }
        let len = bytes.len();
        if len > MAX_MOD_NAME_LEN {
            return Err(String::from_str("String is too long. Must be at most 20"));
        }
        if len == 0 {
            return Err(String::from_str("String is empty"));
        }
        let mut buf = [0u8; MAX_MOD_NAME_LEN];
        let mut i: usize = 0;
        while i < len
            invariant
                len == bytes@.len() == s@.len(),
                len <= MAX_MOD_NAME_LEN,
                i <= len,
                bytes@ == ascii_bytes(s@),
                is_ascii_chars(s@),
                0 < len,
                buf@.len() == MAX_MOD_NAME_LEN,
                forall|j: int| 0 <= j < i ==> buf@[j] == bytes@[j],
                forall|j: int| 0 <= j < i ==> is_alnum_char(#[trigger] s@[j]),
                forall|j: int| i <= j < MAX_MOD_NAME_LEN ==> buf@[j] == 0,
            decreases len - i,
        {
            let b = bytes[i];
            proof {
                assert(bytes@[i as int] == s@[i as int] as u8);
                assert('\0' <= s@[i as int] <= '\u{7f}');
                lemma_alnum_ascii(s@[i as int]);
            }
            if !((b >= 48 && b <= 57) || (b >= 65 && b <= 90) || (b >= 97 && b <= 122)) {
                proof {
                    assert(!is_alnum_char(s@[i as int]));
                }
                return Err(String::from_str("Not all characters are alphanumeric"));
            }
            assert(is_alnum_char(s@[i as int]));
            buf[i] = b;
            i += 1;
        }
        let n = ValidName(len as u8, buf);
        assert(n@ =~= ascii_bytes(s@));
        assert(valid_name_chars(s@));
        assert(valid_name_bytes(n@)) by {
            assert forall|j: int| 0 <= j < n@.len() implies is_alnum_byte(#[trigger] n@[j]) by {
                lemma_alnum_ascii(s@[j]);
            }
        }
        Ok(n)
    }

    /// The name's length and its zero-padded buffer.
    pub fn get(&self) -> (r: (u8, [u8; MAX_MOD_NAME_LEN]))
        ensures
            r.0 as int == self@.len(),
            valid_name_buf(r.0, r.1@),
            r.1@.subrange(0, r.0 as int) == self@,
    {
        proof {
            use_type_invariant(self);
        }
        (self.0, self.1)
    }

    /// Builds a name from a length and buffer that already hold a valid name.
    pub fn new(length: u8, buf: [u8; MAX_MOD_NAME_LEN]) -> (r: ValidName)
        requires
            valid_name_buf(length, buf@),
        ensures
            r@ == buf@.subrange(0, length as int),
    {
        ValidName(length, buf)
    }

    /// The name held by a length and a buffer.
    pub closed spec fn spec_raw(length: u8, buf: [u8; MAX_MOD_NAME_LEN]) -> ValidName {
        ValidName(length, buf)
    }

    /// The significant bytes of the name held by a length and a buffer.
    pub proof fn lemma_raw_view(length: u8, buf: [u8; MAX_MOD_NAME_LEN])
        ensures
            ValidName::spec_raw(length, buf)@ == buf@.subrange(0, length as int),
    {
    }

    /// Reads a name from a packet's length and buffer, if they hold a valid name.
    pub fn from_raw(length: u8, buf: [u8; MAX_MOD_NAME_LEN]) -> (r: Option<ValidName>)
        ensures
            r is Some <==> valid_name_buf(length, buf@),
            r matches Some(n) ==> n@ == buf@.subrange(0, length as int) && n == ValidName::spec_raw(length, buf),
    {
        if length == 0 || length as usize > MAX_MOD_NAME_LEN {
            return None;
        }
        let mut i: usize = 0;
        while i < MAX_MOD_NAME_LEN
            invariant
                1 <= length as int <= MAX_MOD_NAME_LEN,
                i <= MAX_MOD_NAME_LEN,
                forall|j: int| 0 <= j < i && j < length ==> is_alnum_byte(buf@[j]),
                forall|j: int| length <= j < i ==> buf@[j] == 0,
            decreases MAX_MOD_NAME_LEN - i,
        {
            let b = buf[i];
            if i < length as usize {
                if !((b >= 48 && b <= 57) || (b >= 65 && b <= 90) || (b >= 97 && b <= 122)) {
                    proof {
                        assert(buf@.subrange(0, length as int)[i as int] == b);
                    }
                    return None;
                }
            } else if b != 0 {
                return None;
            }
            i += 1;
        }
        assert forall|j: int| 0 <= j < length implies is_alnum_byte(#[trigger] buf@.subrange(0, length as int)[j]) by {
            assert(buf@.subrange(0, length as int)[j] == buf@[j]);
        }
        Some(ValidName(length, buf))
    }

    /// Compares the significant bytes of two names.
    pub fn same_name(&self, other: &ValidName) -> (r: bool)
        ensures
            r == (self@ == other@),
    {
        proof {
            use_type_invariant(self);
            use_type_invariant(other);
        }
        if self.0 != other.0 {
            assert(self@.len() != other@.len());
            return false;
        }
        let mut i: usize = 0;
        while i < self.0 as usize
            invariant
                self.0 == other.0,
                self.0 as int <= MAX_MOD_NAME_LEN,
                i <= self.0,
                forall|j: int| 0 <= j < i ==> self.1@[j] == other.1@[j],
            decreases self.0 - i,
        {
            if self.1[i] != other.1[i] {
                assert(self@[i as int] != other@[i as int]);
                return false;
            }
            i += 1;
        }
        assert(self@ =~= other@);
        true
    }

    /// The name as text.
    pub fn as_string(&self) -> (r: String)
        ensures
            r@ == self@.map_values(|b: u8| b as char),
    {
        proof {
            use_type_invariant(self);
        }
        let mut v: Vec<u8> = Vec::new();
        let mut i: usize = 0;
        while i < self.0 as usize
            invariant
                self.0 as int <= MAX_MOD_NAME_LEN,
                i <= self.0,
                v@ == self.1@.subrange(0, i as int),
            decreases self.0 - i,
        {
            v.push(self.1[i]);
            i += 1;
            assert(v@ =~= self.1@.subrange(0, i as int));
        }
        proof {
            assert(v@ =~= self@);
            assert forall|j: int| 0 <= j < v@.len() implies #[trigger] v@[j] < 128 by {
                assert(is_alnum_byte(self@[j]));
            }
        }
        ascii_to_string(v)
    }
}

impl PartialEq for ValidName {
    fn eq(&self, other: &ValidName) -> (r: bool) {
        self.same_name(other)
    }
}

impl vstd::std_specs::cmp::PartialEqSpecImpl for ValidName {
    open spec fn obeys_eq_spec() -> bool {
        true
    }

    open spec fn eq_spec(&self, other: &ValidName) -> bool {
        self@ == other@
    }
}

impl std::str::FromStr for ValidName {
    type Err = String;

    fn from_str(s: &str) -> Result<ValidName, String> {
        ValidName::parse(s)
    }
}

/// Relies on `String::from_utf8`: bytes below 0x80 are valid UTF-8, each the
/// ASCII character of that value.
#[verifier::external_body]
fn ascii_to_string(bytes: Vec<u8>) -> (r: String)
    requires
        forall|i: int| 0 <= i < bytes@.len() ==> #[trigger] bytes@[i] < 128,
    ensures
        r@ == bytes@.map_values(|b: u8| b as char),
{
    String::from_utf8(bytes).unwrap_or_default()
}

/// Client messages of the message-oriented draft of the protocol.
#[derive(Debug)]
pub enum ClientMsg {
    Join { name_len: u8, name: String, http_port: u16 },
    ReplyHeartbeat,
}

/// Server messages of the message-oriented draft of the protocol.
#[derive(Debug)]
pub enum ServerMsg {
    ConfirmJoin,
    Heartbeat,
}

} // verus!
