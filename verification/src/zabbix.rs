//! The Zabbix sender protocol: requests sent to a Zabbix server and the
//! reading of its replies.
use vstd::prelude::*;
use vstd::string::StringExecFns;
use crate::text::{all_hex, hex_digits_value, signed_decimal, i64_to_decimal, decimal, push_decimal, chars_of, push_char, parse_hex, parse_hex_short, is_scalar_value, char_from_u32};

verus! {

/// The 13 characters that open a server reply whose body is 90 bytes long:
/// `ZBXD`, protocol byte 1, then the body length as 8 little-endian bytes.
pub open spec fn reply_prefix() -> Seq<char> {
    seq!['Z', 'B', 'X', 'D', '\u{1}', 'Z', '\0', '\0', '\0', '\0', '\0', '\0', '\0']
}

/// The text with `reply_prefix()` removed when it starts with it.
pub open spec fn strip_reply_prefix(s: Seq<char>) -> Seq<char> {
    if s.len() >= 13 && s.take(13) == reply_prefix() { s.skip(13) } else { s }
}

/// What a `\u` escape followed by the (at most four) characters `d` becomes:
/// the character with that hexadecimal code when `d` reads as one, else the
/// escape itself, unchanged.
pub open spec fn escape_text(d: Seq<char>) -> Seq<char> {
    match parse_hex(d) {
        Some(v) => if is_scalar_value(v) { seq![(v as u32) as char] } else { seq!['\\', 'u'] + d },
        None => seq!['\\', 'u'] + d,
    }
}

/// Replaces each `\u` escape by the character it denotes. A backslash that is
/// not followed by `u` is kept and the character after it is dropped.
pub open spec fn decode_escapes(s: Seq<char>) -> Seq<char>
    decreases s.len(),
{
    if s.len() == 0 {
        seq![]
    } else if s[0] != '\\' {
        seq![s[0]] + decode_escapes(s.skip(1))
    } else if s.len() == 1 {
        seq!['\\']
    } else if s[1] != 'u' {
        seq!['\\'] + decode_escapes(s.skip(2))
    } else {
        let n = if s.len() >= 6 { 6 } else { s.len() as int };
        escape_text(s.subrange(2, n)) + decode_escapes(s.skip(n))
    }
}

/// The readable text of a server reply.
pub open spec fn decode_reply(s: Seq<char>) -> Seq<char> {
    decode_escapes(strip_reply_prefix(s))
}

fn has_reply_prefix(cs: &Vec<char>) -> (b: bool)
    ensures
        b == (cs@.len() >= 13 && cs@.take(13) == reply_prefix()),
{
    if cs.len() < 13 {
        return false;
    }
    let b = cs[0] == 'Z' && cs[1] == 'B' && cs[2] == 'X' && cs[3] == 'D' && cs[4] == '\u{1}'
        && cs[5] == 'Z' && cs[6] == '\0' && cs[7] == '\0' && cs[8] == '\0' && cs[9] == '\0'
        && cs[10] == '\0' && cs[11] == '\0' && cs[12] == '\0';
    assert(b <==> cs@.take(13) =~= reply_prefix());
    b
}

/// Decodes a Zabbix server reply for display: strips the protocol header of a
/// 90-byte reply and replaces `\uXXXX` escapes by the characters they denote.
pub fn decode_unicode_escape_sequences(input: &str) -> (decoded: String)
    ensures
        decoded@ == decode_reply(input@),
{
    let cs = chars_of(input);
    let base: usize = if has_reply_prefix(&cs) { 13 } else { 0 };
    let ghost t = cs@.skip(base as int);
    assert(t =~= strip_reply_prefix(input@));
    let mut out = String::new();
    let mut i: usize = base;
    while i < cs.len()
        invariant
            base <= i <= cs@.len(),
            t == cs@.skip(base as int),
            out@ + decode_escapes(cs@.skip(i as int)) == decode_escapes(t),
        decreases cs@.len() - i,
    {
        let ghost rest = cs@.skip(i as int);
        let ghost old_out = out@;
        let c = cs[i];
        if c != '\\' {
            push_char(&mut out, c);
            assert(rest.skip(1) =~= cs@.skip(i + 1));
            assert(out@ + decode_escapes(cs@.skip(i + 1)) =~= old_out + decode_escapes(rest));
            i = i + 1;
        } else if i + 1 == cs.len() {
            push_char(&mut out, '\\');
            assert(cs@.skip(i + 1) =~= Seq::<char>::empty());
            assert(out@ + decode_escapes(cs@.skip(i + 1)) =~= old_out + decode_escapes(rest));
            i = i + 1;
        } else if cs[i + 1] != 'u' {
            push_char(&mut out, '\\');
            assert(rest.skip(2) =~= cs@.skip(i + 2));
            assert(out@ + decode_escapes(cs@.skip(i + 2)) =~= old_out + decode_escapes(rest));
            i = i + 2;
        } else {
            let end: usize = if cs.len() - i >= 6 { i + 6 } else { cs.len() };
            let mut d: Vec<char> = Vec::new();
            let mut j: usize = i + 2;
            while j < end
                invariant
                    i + 2 <= j <= end <= cs@.len(),
                    d@ == cs@.subrange(i + 2, j as int),
                decreases end - j,
            {
                d.push(cs[j]);
                j = j + 1;
            }
            let ghost n: int = end - i;
            assert(d@ =~= rest.subrange(2, n));
            assert(rest.skip(n) =~= cs@.skip(end as int));
            let ghost before = out@;
            match parse_hex_short(&d) {
                Some(v) => {
                    match char_from_u32(v) {
                        Some(ch) => {
                            proof {
                                vstd::utf8::char_u32_cast(ch, v);
                            }
                            push_char(&mut out, ch);
                        },
                        None => {
                            push_char(&mut out, '\\');
                            push_char(&mut out, 'u');
                            let mut k: usize = 0;
                            while k < d.len()
                                invariant
                                    k <= d@.len(),
                                    out@ == before + seq!['\\', 'u'] + d@.take(k as int),
                                decreases d@.len() - k,
                            {
                                push_char(&mut out, d[k]);
                                assert(d@.take(k + 1) =~= d@.take(k as int).push(d@[k as int]));
                                k = k + 1;
                            }
                            assert(d@.take(d@.len() as int) =~= d@);
                        },
                    }
                },
                None => {
                    push_char(&mut out, '\\');
                    push_char(&mut out, 'u');
                    let mut k: usize = 0;
                    while k < d.len()
                        invariant
                            k <= d@.len(),
                            out@ == before + seq!['\\', 'u'] + d@.take(k as int),
                        decreases d@.len() - k,
                    {
                        push_char(&mut out, d[k]);
                        assert(d@.take(k + 1) =~= d@.take(k as int).push(d@[k as int]));
                        k = k + 1;
                    }
                    assert(d@.take(d@.len() as int) =~= d@);
                },
            }
            assert(out@ =~= before + escape_text(d@));
            assert(out@ + decode_escapes(cs@.skip(end as int)) =~= old_out + decode_escapes(rest));
            i = end;
        }
    }
    assert(cs@.skip(i as int) =~= Seq::<char>::empty());
    assert(out@ =~= out@ + decode_escapes(cs@.skip(i as int)));
    out
}

} // verus!

verus! {

/// Size of the buffer that holds one request packet.
pub const ZABBIX_MAX_LEN: usize = 300;

/// Length of the packet header: `ZBXD`, the protocol byte and an 8-byte length.
pub const ZABBIX_HEADER_LEN: usize = 13;

/// The JSON object that reports one item of a host.
pub open spec fn item_json(host: Seq<char>, key: Seq<char>, value: Seq<char>) -> Seq<char> {
    "{\"host\":\""@ + host + "\",\"key\":\""@ + key + "\",\"value\":\""@ + value + "\"}"@
}

/// The item objects of a host, separated by commas.
pub open spec fn items_json(host: Seq<char>, items: Seq<(Seq<char>, Seq<char>)>) -> Seq<char>
    decreases items.len(),
{
    if items.len() == 0 {
        seq![]
    } else if items.len() == 1 {
        item_json(host, items[0].0, items[0].1)
    } else {
        items_json(host, items.drop_last()) + ","@ + item_json(host, items.last().0, items.last().1)
    }
}

/// The `sender data` request for the items of a host.
pub open spec fn request_json(host: Seq<char>, items: Seq<(Seq<char>, Seq<char>)>) -> Seq<char> {
    "{\"request\":\"sender data\",\"data\":["@ + items_json(host, items) + "]}"@
}

/// `n` as `k` bytes, least significant first.
pub open spec fn le_bytes(n: nat, k: nat) -> Seq<u8>
    decreases k,
{
    if k == 0 { seq![] } else { seq![(n % 256) as u8] + le_bytes(n / 256, (k - 1) as nat) }
}

/// The number that little-endian bytes denote.
pub open spec fn le_value(b: Seq<u8>) -> nat
    decreases b.len(),
{
    if b.len() == 0 { 0 } else { b[0] as nat + 256 * le_value(b.skip(1)) }
}

/// The header of a packet whose body is `len` bytes long.
pub open spec fn packet_header(len: nat) -> Seq<u8> {
    seq![0x5Au8, 0x42u8, 0x58u8, 0x44u8, 0x01u8] + le_bytes(len, 8)
}

/// A complete packet: header, then the body.
pub open spec fn zabbix_packet(body: Seq<u8>) -> Seq<u8> {
    packet_header(body.len()) + body
}

/// Collects items of one host and frames them as a Zabbix sender request.
pub struct ZabbixSender {
    zabbix_server_addr: String,
    zabbix_item_host_name: String,
    zabbix_item_list: Vec<(String, String)>,
    zabbix_packet: Vec<u8>,
}

pub open spec fn pairs_view(v: Seq<(String, String)>) -> Seq<(Seq<char>, Seq<char>)> {
    v.map_values(|p: (String, String)| (p.0@, p.1@))
}

impl ZabbixSender {
    /// The server address, `host:port`.
    pub closed spec fn server_addr(&self) -> Seq<char> {
        self.zabbix_server_addr@
    }

    /// The host name the items are reported for.
    pub closed spec fn host_name(&self) -> Seq<char> {
        self.zabbix_item_host_name@
    }

    /// The (key, value) items collected so far, in order.
    pub closed spec fn items(&self) -> Seq<(Seq<char>, Seq<char>)> {
        pairs_view(self.zabbix_item_list@)
    }

    /// The packet buffer.
    pub closed spec fn packet(&self) -> Seq<u8> {
        self.zabbix_packet@
    }

    /// The JSON body of the request for the current items.
    pub open spec fn request_body(&self) -> Seq<u8> {
        vstd::utf8::encode_utf8(request_json(self.host_name(), self.items()))
    }

    pub open spec fn wf(&self) -> bool {
        self.packet().len() == ZABBIX_MAX_LEN
    }

    /// A sender with no items and a zeroed packet buffer.
    pub fn new(zabbix_server_addr: String, zabbix_item_host_name: String) -> (s: Self)
        ensures
            s.wf(),
            s.server_addr() == zabbix_server_addr@,
            s.host_name() == zabbix_item_host_name@,
            s.items() == Seq::<(Seq<char>, Seq<char>)>::empty(),
            s.packet() == Seq::new(ZABBIX_MAX_LEN as nat, |i: int| 0u8),
    {
        let s = ZabbixSender {
            zabbix_server_addr,
            zabbix_item_host_name,
            zabbix_item_list: Vec::new(),
            zabbix_packet: vec![0u8; ZABBIX_MAX_LEN],
        };
        assert(s.items() =~= Seq::<(Seq<char>, Seq<char>)>::empty());
        assert(s.packet() =~= Seq::new(ZABBIX_MAX_LEN as nat, |i: int| 0u8));
        s
    }

    /// The server address as given at creation.
    pub fn server(&self) -> (r: &String)
        ensures
            r@ == self.server_addr(),
    {
        &self.zabbix_server_addr
    }

    /// The packet buffer.
    pub fn packet_bytes(&self) -> (r: &[u8])
        ensures
            r@ == self.packet(),
    {
        self.zabbix_packet.as_slice()
    }

    /// Removes all items.
    pub fn clear_item(&mut self)
        requires
            old(self).wf(),
        ensures
            final(self).wf(),
            final(self).items() == Seq::<(Seq<char>, Seq<char>)>::empty(),
            final(self).server_addr() == old(self).server_addr(),
            final(self).host_name() == old(self).host_name(),
            final(self).packet() == old(self).packet(),
    {
        self.zabbix_item_list.clear();
        assert(self.items() =~= Seq::<(Seq<char>, Seq<char>)>::empty());
    }

    /// Appends one item.
    pub fn add_item(&mut self, key: String, value: String)
        requires
            old(self).wf(),
        ensures
            final(self).wf(),
            final(self).items() == old(self).items().push((key@, value@)),
            final(self).server_addr() == old(self).server_addr(),
            final(self).host_name() == old(self).host_name(),
            final(self).packet() == old(self).packet(),
    {
        let ghost k = key@;
        let ghost v = value@;
        self.zabbix_item_list.push((key, value));
        assert(self.items() =~= old(self).items().push((k, v)));
    }

    /// The JSON text of the request for the current items.
    pub fn request_json(&self) -> (json: String)
        ensures
            json@ == request_json(self.host_name(), self.items()),
    {
        let mut json = String::new();
        json.append("{\"request\":\"sender data\",\"data\":[");
        let ghost open = json@;
        let n = self.zabbix_item_list.len();
        let ghost host = self.host_name();
        let ghost items = self.items();
        let mut k: usize = 0;
        while k < n
            invariant
                n == self.zabbix_item_list@.len(),
                host == self.host_name(),
                items == self.items(),
                items.len() == n,
                k <= n,
                json@ == open + items_json(host, items.take(k as int)),
            decreases n - k,
        {
            let ghost before = json@;
            if k > 0 {
                json.append(",");
            }
            json.append("{\"host\":\"");
            json.append(self.zabbix_item_host_name.as_str());
            json.append("\",\"key\":\"");
            json.append(self.zabbix_item_list[k].0.as_str());
            json.append("\",\"value\":\"");
            json.append(self.zabbix_item_list[k].1.as_str());
            json.append("\"}");
            proof {
                let t = items.take(k + 1);
                assert(t.drop_last() =~= items.take(k as int));
                assert(t.last() == items[k as int]);
                assert(items[k as int] == (self.zabbix_item_list@[k as int].0@, self.zabbix_item_list@[k as int].1@));
                if k == 0 {
                    assert(t.len() == 1);
                    assert(items.take(0) =~= Seq::<(Seq<char>, Seq<char>)>::empty());
                }
                assert(json@ =~= open + items_json(host, t));
            }
            k = k + 1;
        }
        assert(items.take(n as int) =~= items);
        json.append("]}");
        json
    }

    /// Whether the request for the current items fits in the packet buffer.
    pub fn fits_in_packet(&self) -> (b: bool)
        ensures
            b == (ZABBIX_HEADER_LEN + self.request_body().len() <= ZABBIX_MAX_LEN),
    {
        let json = self.request_json();
        let bytes = json.as_str().as_bytes();
        bytes.len() <= ZABBIX_MAX_LEN - ZABBIX_HEADER_LEN
    }

    /// Writes the request packet for the current items at the start of the
    /// packet buffer and returns its length; the rest of the buffer is kept.
    pub fn create_zabbix_packet(&mut self) -> (packet_len: usize)
        requires
            old(self).wf(),
            ZABBIX_HEADER_LEN + old(self).request_body().len() <= ZABBIX_MAX_LEN,
        ensures
            final(self).wf(),
            packet_len == ZABBIX_HEADER_LEN + old(self).request_body().len(),
            final(self).packet() == zabbix_packet(old(self).request_body())
                + old(self).packet().skip(packet_len as int),
            final(self).items() == old(self).items(),
            final(self).server_addr() == old(self).server_addr(),
            final(self).host_name() == old(self).host_name(),
    {
        let json = self.request_json();
        let bytes = json.as_str().as_bytes();
        let json_len = bytes.len();
        let ghost body = bytes@;
        let ghost start = self.zabbix_packet@;
        let mut rem: usize = json_len;
        let mut i: usize = 0;
        while i < 8
            invariant
                i <= 8,
                start.len() == ZABBIX_MAX_LEN,
                self.zabbix_packet@.len() == ZABBIX_MAX_LEN,
                self.zabbix_packet@.subrange(5, 5 + i as int) + le_bytes(rem as nat, (8 - i) as nat)
                    == le_bytes(json_len as nat, 8),
                forall|j: int| 0 <= j < 5 || 13 <= j < ZABBIX_MAX_LEN ==> self.zabbix_packet@[j] == start[j],
                self.zabbix_item_list == old(self).zabbix_item_list,
                self.zabbix_item_host_name == old(self).zabbix_item_host_name,
                self.zabbix_server_addr == old(self).zabbix_server_addr,
            decreases 8 - i,
        {
            let ghost prev = self.zabbix_packet@;
            self.zabbix_packet[5 + i] = (rem % 256) as u8;
            proof {
                assert(le_bytes(rem as nat, (8 - i) as nat) == seq![(rem % 256) as u8]
                    + le_bytes((rem / 256) as nat, (8 - i - 1) as nat));
                assert(self.zabbix_packet@.subrange(5, 5 + i + 1) =~= prev.subrange(5, 5 + i as int)
                    + seq![(rem % 256) as u8]);
            }
            rem = rem / 256;
            i = i + 1;
        }
        self.zabbix_packet[0] = 0x5A;
        self.zabbix_packet[1] = 0x42;
        self.zabbix_packet[2] = 0x58;
        self.zabbix_packet[3] = 0x44;
        self.zabbix_packet[4] = 0x01;
        assert(le_bytes(rem as nat, 0) =~= Seq::<u8>::empty());
        let ghost with_header = self.zabbix_packet@;
        let mut j: usize = 0;
        while j < json_len
            invariant
                j <= json_len,
                json_len == body.len(),
                bytes@ == body,
                13 + json_len <= ZABBIX_MAX_LEN,
                start.len() == ZABBIX_MAX_LEN,
                with_header.len() == ZABBIX_MAX_LEN,
                self.zabbix_packet@.len() == ZABBIX_MAX_LEN,
                forall|p: int| 0 <= p < 13 ==> self.zabbix_packet@[p] == with_header[p],
                forall|p: int| 0 <= p < j ==> self.zabbix_packet@[13 + p] == body[p],
                forall|p: int| 13 + j <= p < ZABBIX_MAX_LEN ==> self.zabbix_packet@[p] == start[p],
                self.zabbix_item_list == old(self).zabbix_item_list,
                self.zabbix_item_host_name == old(self).zabbix_item_host_name,
                self.zabbix_server_addr == old(self).zabbix_server_addr,
            decreases json_len - j,
        {
            self.zabbix_packet[13 + j] = bytes[j];
            j = j + 1;
        }
        let packet_len = ZABBIX_HEADER_LEN + json_len;
        proof {
            assert(with_header.subrange(5, 13) =~= le_bytes(json_len as nat, 8));
            let expected = zabbix_packet(body) + start.skip(packet_len as int);
            assert(expected.len() == ZABBIX_MAX_LEN);
            assert forall|p: int| 0 <= p < ZABBIX_MAX_LEN implies self.zabbix_packet@[p] == expected[p] by {
                let hdr = packet_header(body.len());
                assert(hdr.len() == 13);
                assert(zabbix_packet(body).len() == packet_len);
                if p < 5 {
                    let magic = seq![0x5Au8, 0x42u8, 0x58u8, 0x44u8, 0x01u8];
                    assert(hdr.take(5) =~= magic);
                    assert(with_header.take(5) =~= magic);
                    assert(hdr.take(5)[p] == with_header.take(5)[p]);
                    assert(expected[p] == hdr[p]);
                    assert(self.zabbix_packet@[p] == expected[p]);
                } else if p < 13 {
                    assert(with_header.subrange(5, 13)[p - 5] == with_header[p]);
                    assert(expected[p] == hdr[p]);
                    assert(hdr[p] == le_bytes(json_len as nat, 8)[p - 5]);
                    assert(self.zabbix_packet@[p] == expected[p]);
                } else if p < packet_len {
                    assert(expected[p] == zabbix_packet(body)[p]);
                    assert(zabbix_packet(body)[p] == body[p - 13]);
                    assert(self.zabbix_packet@[p] == expected[p]);
                } else {
                    assert(expected[p] == start.skip(packet_len as int)[p - packet_len]);
                }
            }
            assert(self.zabbix_packet@ =~= expected);
        }
        packet_len
    }
}

} // verus!

verus! {

pub open spec fn pow256(k: nat) -> nat
    decreases k,
{
    if k == 0 { 1 } else { 256 * pow256((k - 1) as nat) }
}

proof fn lemma_le_roundtrip(n: nat, k: nat)
    ensures
        le_value(le_bytes(n, k)) == n % pow256(k),
        le_bytes(n, k).len() == k,
    decreases k,
{
    if k > 0 {
        lemma_le_roundtrip(n / 256, (k - 1) as nat);
        let b = le_bytes(n, k);
        assert(b.skip(1) =~= le_bytes(n / 256, (k - 1) as nat));
        assert(pow256(k) == 256 * pow256((k - 1) as nat));
        assert(pow256((k - 1) as nat) > 0) by {
            lemma_pow256_positive((k - 1) as nat);
        }
        vstd::arithmetic::div_mod::lemma_mod_breakdown(n as int, 256, pow256((k - 1) as nat) as int);
    }
}

proof fn lemma_pow256_positive(k: nat)
    ensures
        pow256(k) > 0,
    decreases k,
{
    if k > 0 {
        lemma_pow256_positive((k - 1) as nat);
    }
}

/// The length field of a packet header reads back, least significant byte
/// first, as the body length it was written for.
pub proof fn header_length_roundtrip(len: nat)
    requires
        len < pow256(8),
    ensures
        packet_header(len).len() == ZABBIX_HEADER_LEN,
        le_value(packet_header(len).subrange(5, 13)) == len,
{
    lemma_le_roundtrip(len, 8);
    assert(packet_header(len).subrange(5, 13) =~= le_bytes(len, 8));
    assert(len % pow256(8) == len) by {
        vstd::arithmetic::div_mod::lemma_small_mod(len, pow256(8));
    }
}

/// Every request the sender builds starts with the header for its body and
/// ends with its body.
pub proof fn packet_frames_body(body: Seq<u8>)
    requires
        body.len() < pow256(8),
    ensures
        zabbix_packet(body).len() == ZABBIX_HEADER_LEN + body.len(),
        zabbix_packet(body).take(5) == seq![0x5Au8, 0x42u8, 0x58u8, 0x44u8, 0x01u8],
        le_value(zabbix_packet(body).subrange(5, 13)) == body.len(),
        zabbix_packet(body).skip(13) == body,
{
    header_length_roundtrip(body.len());
    assert(zabbix_packet(body).take(5) =~= seq![0x5Au8, 0x42u8, 0x58u8, 0x44u8, 0x01u8]);
    assert(zabbix_packet(body).subrange(5, 13) =~= packet_header(body.len()).subrange(5, 13));
    assert(zabbix_packet(body).skip(13) =~= body);
}

/// The prefix that reply decoding strips is the header of a packet with a
/// 90-byte body, read as characters; a reply that starts with it is decoded
/// as its body alone.
pub proof fn reply_prefix_is_header(body: Seq<char>)
    ensures
        reply_prefix().len() == ZABBIX_HEADER_LEN,
        forall|i: int| 0 <= i < 13 ==> #[trigger] reply_prefix()[i] as u32 == packet_header(90)[i] as u32,
        decode_reply(reply_prefix() + body) == decode_escapes(body),
{
    reveal_with_fuel(le_bytes, 9);
    let h = packet_header(90);
    assert(h =~= seq![0x5Au8, 0x42u8, 0x58u8, 0x44u8, 0x01u8, 90u8, 0u8, 0u8, 0u8, 0u8, 0u8, 0u8, 0u8]);
    assert((reply_prefix() + body).take(13) =~= reply_prefix());
    assert((reply_prefix() + body).skip(13) =~= body);
}

/// What the server's reply to a request turned out to be.
pub enum ReplyOutcome {
    /// The reply, as text.
    Text(String),
    /// The server sent nothing back.
    Empty,
    /// The reply is not valid UTF-8.
    NotUtf8,
}

/// The text that UTF-8 bytes encode (`std::str::from_utf8`), or `None` when
/// they are not valid UTF-8.
#[verifier::external_body]
fn utf8_text(bytes: &[u8]) -> (r: Option<String>)
    ensures
        r is Some <==> vstd::utf8::valid_utf8(bytes@),
        r matches Some(s) ==> s@ == vstd::utf8::decode_utf8(bytes@),
{
    match std::str::from_utf8(bytes) {
        Ok(s) => Some(s.to_string()),
        Err(_) => None,
    }
}

/// How long the sender waits for the server's reply, in milliseconds.
pub const ZABBIX_TIMEOUT_MS: u64 = 1000;

/// The pause after a failed read of the reply, in milliseconds.
pub const READ_PAUSE_MS: u64 = 10;

/// How many times the reply is read for: the timeout in pauses.
pub const READ_ATTEMPTS: u64 = ZABBIX_TIMEOUT_MS / READ_PAUSE_MS;

/// What follows one try to read the server's reply.
pub enum ReadStep {
    /// The read returned this many bytes (0 when the server sent nothing).
    Done(usize),
    /// The read failed: pause, then try again only if `retry`.
    Pause { millis: u64, retry: bool },
}

/// What follows the `attempt`-th try (from 1) to read the reply, which gave
/// `got` bytes or failed: a read that returns ends the waiting; a failed one
/// is followed by a pause and, while tries remain, another read.
pub fn read_step(attempt: u64, got: Option<usize>) -> (r: ReadStep)
    requires
        1 <= attempt <= READ_ATTEMPTS,
    ensures
        got matches Some(n) ==> (r matches ReadStep::Done(m) && m == n),
        got is None ==> (r matches ReadStep::Pause { millis, retry } && millis == READ_PAUSE_MS
            && retry == (attempt < READ_ATTEMPTS)),
{
    match got {
        Some(n) => ReadStep::Done(n),
        None => ReadStep::Pause { millis: READ_PAUSE_MS, retry: attempt < READ_ATTEMPTS },
    }
}

/// Reads the bytes the server sent back: an empty read is no reply, and any
/// other reply must be UTF-8 text.
pub fn interpret_reply(reply: &[u8]) -> (r: ReplyOutcome)
    ensures
        reply@.len() == 0 ==> r is Empty,
        reply@.len() > 0 && !vstd::utf8::valid_utf8(reply@) ==> r is NotUtf8,
        reply@.len() > 0 && vstd::utf8::valid_utf8(reply@) ==> (r matches ReplyOutcome::Text(s)
            && s@ == vstd::utf8::decode_utf8(reply@)),
{
    if reply.len() == 0 {
        return ReplyOutcome::Empty;
    }
    match utf8_text(reply) {
        Some(s) => ReplyOutcome::Text(s),
        None => ReplyOutcome::NotUtf8,
    }
}

impl ZabbixSender {
    /// The log line that shows the request being sent.
    pub fn request_log(&self) -> (s: String)
        ensures
            s@ == "Request JSON: "@ + request_json(self.host_name(), self.items()),
    {
        let json = self.request_json();
        let mut s = String::new();
        s.append("Request JSON: ");
        s.append(json.as_str());
        s
    }

    /// The log line that counts the items being sent.
    pub fn sending_log(&self) -> (s: String)
        ensures
            s@ == "Zabbix: Sending "@ + decimal(self.items().len()) + " data items to server"@,
    {
        let mut s = String::new();
        s.append("Zabbix: Sending ");
        push_decimal(&mut s, self.zabbix_item_list.len() as u64);
        s.append(" data items to server");
        s
    }
}

} // verus!

verus! {

/// The value of a reported item: an integer, or any other JSON number,
/// kept as the text it is printed as.
pub enum ItemValue {
    Integer(i64),
    Float(String),
}

/// One reported item.
pub struct Item {
    pub key: String,
    pub value: ItemValue,
}

/// A data message: where to send it, for which host, and its items.
pub struct Data {
    pub zabbix_server: String,
    pub item_host_name: String,
    pub item: Vec<Item>,
}

/// The text sent to the server for an item value.
pub open spec fn value_text(v: ItemValue) -> Seq<char> {
    match v {
        ItemValue::Integer(i) => signed_decimal(i as int),
        ItemValue::Float(s) => s@,
    }
}

/// The (key, value text) pairs of a list of items.
pub open spec fn item_pairs(items: Seq<Item>) -> Seq<(Seq<char>, Seq<char>)> {
    items.map_values(|it: Item| (it.key@, value_text(it.value)))
}

/// The text sent to the server for an item value.
pub fn item_value_text(v: &ItemValue) -> (s: String)
    ensures
        s@ == value_text(*v),
{
    match v {
        ItemValue::Integer(i) => i64_to_decimal(*i),
        ItemValue::Float(t) => t.clone(),
    }
}

/// A sender loaded with the items of a data message, for its server and host.
pub fn sender_for(data: &Data) -> (s: ZabbixSender)
    ensures
        s.wf(),
        s.server_addr() == data.zabbix_server@,
        s.host_name() == data.item_host_name@,
        s.items() == item_pairs(data.item@),
        s.packet() == Seq::new(ZABBIX_MAX_LEN as nat, |i: int| 0u8),
{
    let mut s = ZabbixSender::new(data.zabbix_server.clone(), data.item_host_name.clone());
    let mut k: usize = 0;
    while k < data.item.len()
        invariant
            k <= data.item@.len(),
            s.wf(),
            s.server_addr() == data.zabbix_server@,
            s.host_name() == data.item_host_name@,
            s.items() == item_pairs(data.item@.take(k as int)),
            s.packet() == Seq::new(ZABBIX_MAX_LEN as nat, |i: int| 0u8),
        decreases data.item@.len() - k,
    {
        let key = data.item[k].key.clone();
        let value = item_value_text(&data.item[k].value);
        s.add_item(key, value);
        assert(item_pairs(data.item@.take(k + 1)) =~= item_pairs(data.item@.take(k as int)).push(
            (data.item@[k as int].key@, value_text(data.item@[k as int].value))));
        k = k + 1;
    }
    assert(data.item@.take(k as int) =~= data.item@);
    s
}

/// Why a data message received over MQTT is not forwarded.
pub enum PayloadIssue {
    MissingServer,
    MissingHostName,
    NoItems,
}

/// Checks the fields a data message must have before it is forwarded, in
/// order: a server, a host name, at least one item.
pub fn validate_data(data: &Data) -> (r: Result<(), PayloadIssue>)
    ensures
        data.zabbix_server@.len() == 0 ==> r == Err::<(), PayloadIssue>(PayloadIssue::MissingServer),
        data.zabbix_server@.len() > 0 && data.item_host_name@.len() == 0
            ==> r == Err::<(), PayloadIssue>(PayloadIssue::MissingHostName),
        data.zabbix_server@.len() > 0 && data.item_host_name@.len() > 0 && data.item@.len() == 0
            ==> r == Err::<(), PayloadIssue>(PayloadIssue::NoItems),
        r is Ok <==> (data.zabbix_server@.len() > 0 && data.item_host_name@.len() > 0
            && data.item@.len() > 0),
{
    if data.zabbix_server.as_str().is_empty() {
        Err(PayloadIssue::MissingServer)
    } else if data.item_host_name.as_str().is_empty() {
        Err(PayloadIssue::MissingHostName)
    } else if data.item.len() == 0 {
        Err(PayloadIssue::NoItems)
    } else {
        Ok(())
    }
}

/// The log line for a message that failed validation.
pub fn payload_issue_log(issue: &PayloadIssue) -> (s: String)
    ensures
        (*issue is MissingServer) ==> s@ == "MQTT Error: Missing zabbix_server field"@,
        (*issue is MissingHostName) ==> s@ == "MQTT Error: Missing item_host_name field"@,
        (*issue is NoItems) ==> s@ == "MQTT Error: No items in payload"@,
{
    match issue {
        PayloadIssue::MissingServer => String::from_str("MQTT Error: Missing zabbix_server field"),
        PayloadIssue::MissingHostName => String::from_str("MQTT Error: Missing item_host_name field"),
        PayloadIssue::NoItems => String::from_str("MQTT Error: No items in payload"),
    }
}

/// A reply without backslashes and without the 90-byte header is shown
/// exactly as it came.
pub proof fn plain_reply_is_unchanged(s: Seq<char>)
    requires
        forall|i: int| 0 <= i < s.len() ==> #[trigger] s[i] != '\\',
    ensures
        decode_escapes(s) == s,
    decreases s.len(),
{
    if s.len() > 0 {
        assert forall|i: int| 0 <= i < s.skip(1).len() implies #[trigger] s.skip(1)[i] != '\\' by {
            assert(s.skip(1)[i] == s[i + 1]);
        }
        plain_reply_is_unchanged(s.skip(1));
        assert(seq![s[0]] + s.skip(1) =~= s);
    }
}

/// An escape of four hexadecimal digits that name a character is replaced by
/// that character.
pub proof fn escape_decodes_to_char(d: Seq<char>, rest: Seq<char>)
    requires
        d.len() == 4,
        all_hex(d),
        is_scalar_value(hex_digits_value(d)),
    ensures
        decode_escapes(seq!['\\', 'u'] + d + rest)
            == seq![(hex_digits_value(d) as u32) as char] + decode_escapes(rest),
{
    let s = seq!['\\', 'u'] + d + rest;
    assert(s.subrange(2, 6) =~= d);
    assert(s.skip(6) =~= rest);
}

} // verus!
