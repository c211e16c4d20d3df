//! `/proc/net/tcp` and `/proc/net/tcp6`.
use vstd::prelude::*;

use crate::num::{parse_hex_u16, parse_hex_u32, parse_u32, parse_u32_spec, parse_unsigned_spec};
use crate::text::{
    concat, decimal, fields, fields_spec, lines, lines_spec, owned, split_once, split_once_spec,
    str_eq, u64_to_string, views, Sep,
};

verus! {

/// The number of bytes of a character in UTF-8.
pub open spec fn utf8_char_len(c: char) -> nat {
    if (c as u32) < 0x80 {
        1
    } else if (c as u32) < 0x800 {
        2
    } else if (c as u32) < 0x10000 {
        3
    } else {
        4
    }
}

/// The number of bytes of a string in UTF-8 (`str::len`).
pub open spec fn utf8_len(s: Seq<char>) -> nat
    decreases s.len(),
{
    if s.len() == 0 {
        0
    } else {
        utf8_len(s.drop_last()) + utf8_char_len(s.last())
    }
}

/// Whether the UTF-8 length of `s` is `n`.
pub fn utf8_len_is(s: &[char], n: usize) -> (r: bool)
    ensures
        r == (utf8_len(s@) == n),
{
    let mut total: usize = 0;
    let mut i: usize = 0;
    while i < s.len()
        invariant
            i <= s.len(),
            total == utf8_len(s@.take(i as int)),
            total <= n,
        decreases s.len() - i,
    {
        assert(s@.take(i + 1).drop_last() =~= s@.take(i as int));
        let c = s[i] as u32;
        let w: usize = if c < 0x80 {
            1
        } else if c < 0x800 {
            2
        } else if c < 0x10000 {
            3
        } else {
            4
        };
        if w > n - total {
            proof {
                lemma_utf8_len_prefix(s@, i + 1);
            }
            return false;
        }
        total = total + w;
        i = i + 1;
    }
    assert(s@.take(s.len() as int) =~= s@);
    total == n
}

proof fn lemma_utf8_len_prefix(s: Seq<char>, i: int)
    requires
        0 <= i <= s.len(),
    ensures
        utf8_len(s.take(i)) <= utf8_len(s),
    decreases s.len() - i,
{
    if i < s.len() {
        lemma_utf8_len_prefix(s.drop_last(), i);
        assert(s.drop_last().take(i) =~= s.take(i));
    } else {
        assert(s.take(i) =~= s);
    }
}

/// The name of a TCP state code of the kernel.
pub open spec fn tcp_state_name(code: Seq<char>) -> Seq<char> {
    if code == "01"@ {
        "ESTABLISHED"@
    } else if code == "02"@ {
        "SYN_SENT"@
    } else if code == "03"@ {
        "SYN_RECV"@
    } else if code == "04"@ {
        "FIN_WAIT1"@
    } else if code == "05"@ {
        "FIN_WAIT2"@
    } else if code == "06"@ {
        "TIME_WAIT"@
    } else if code == "07"@ {
        "CLOSE"@
    } else if code == "08"@ {
        "CLOSE_WAIT"@
    } else if code == "09"@ {
        "LAST_ACK"@
    } else if code == "0A"@ {
        "LISTEN"@
    } else if code == "0B"@ {
        "CLOSING"@
    } else {
        "UNKNOWN"@
    }
}

/// The name of a TCP state code.
pub fn tcp_state(code: &str) -> (r: &'static str)
    ensures
        r@ == tcp_state_name(code@),
{
    if str_eq(code, "01") {
        "ESTABLISHED"
    } else if str_eq(code, "02") {
        "SYN_SENT"
    } else if str_eq(code, "03") {
        "SYN_RECV"
    } else if str_eq(code, "04") {
        "FIN_WAIT1"
    } else if str_eq(code, "05") {
        "FIN_WAIT2"
    } else if str_eq(code, "06") {
        "TIME_WAIT"
    } else if str_eq(code, "07") {
        "CLOSE"
    } else if str_eq(code, "08") {
        "CLOSE_WAIT"
    } else if str_eq(code, "09") {
        "LAST_ACK"
    } else if str_eq(code, "0A") {
        "LISTEN"
    } else if str_eq(code, "0B") {
        "CLOSING"
    } else {
        "UNKNOWN"
    }
}

/// The dotted notation of the address whose bytes, lowest first, make `n`.
pub open spec fn dotted_le(n: nat) -> Seq<char> {
    decimal(n % 256) + "."@ + decimal((n / 256) % 256) + "."@ + decimal((n / 65536) % 256) + "."@
        + decimal((n / 16777216) % 256)
}

/// An address as `/proc/net/tcp` writes it: eight hex digits are an IPv4
/// address in little-endian order (0.0.0.0 where they do not parse); any
/// other text is kept as it is.
pub open spec fn hex_addr_text(hex: Seq<char>) -> Seq<char> {
    if utf8_len(hex) == 8 {
        match parse_unsigned_spec(hex, 16, u32::MAX as nat) {
            Some(n) => dotted_le(n),
            None => dotted_le(0),
        }
    } else {
        hex
    }
}

pub fn dotted_from(n: u32) -> (r: String)
    ensures
        r@ == dotted_le(n as nat),
{
    let b0 = u64_to_string((n % 256) as u64);
    let b1 = u64_to_string(((n / 256) % 256) as u64);
    let b2 = u64_to_string(((n / 65536) % 256) as u64);
    let b3 = u64_to_string(((n / 16777216) % 256) as u64);
    let mut r = concat(b0.as_str(), ".");
    r.append(b1.as_str());
    r.append(".");
    r.append(b2.as_str());
    r.append(".");
    r.append(b3.as_str());
    r
}

/// Decodes an address of `/proc/net/tcp` (see `hex_addr_text`).
pub fn decode_hex_addr(hex: &[char]) -> (r: String)
    ensures
        r@ == hex_addr_text(hex@),
{
    if utf8_len_is(hex, 8) {
        let n: u32 = match parse_hex_u32(hex) {
            Some(v) => v,
            None => 0,
        };
        dotted_from(n)
    } else {
        crate::text::from_chars(hex)
    }
}

/// One socket of a `/proc/net/tcp` line: local address, local port, state
/// name and owner uid; `None` for a line with fewer than eight fields or an
/// unreadable uid, address or port.
pub open spec fn tcp_socket_of(line: Seq<char>) -> Option<(Seq<char>, u16, Seq<char>, u32)> {
    let parts = fields_spec(line, Sep::Whitespace);
    if parts.len() < 8 {
        None
    } else {
        match parse_u32_spec(parts[7]) {
            None => None,
            Some(uid) => match split_once_spec(parts[1], ':') {
                None => None,
                Some((addr, port)) => match parse_unsigned_spec(port, 16, u16::MAX as nat) {
                    None => None,
                    Some(p) => Some((hex_addr_text(addr), p as u16, tcp_state_name(parts[3]), uid)),
                },
            },
        }
    }
}

/// The sockets of a sequence of lines, in order.
pub open spec fn tcp_sockets_of(ls: Seq<Seq<char>>) -> Seq<(Seq<char>, u16, Seq<char>, u32)>
    decreases ls.len(),
{
    if ls.len() == 0 {
        Seq::empty()
    } else {
        let rest = tcp_sockets_of(ls.drop_last());
        match tcp_socket_of(ls.last()) {
            Some(s) => rest.push(s),
            None => rest,
        }
    }
}

/// The lines of `s` after the first (the header).
pub open spec fn body_lines(s: Seq<char>) -> Seq<Seq<char>> {
    let ls = lines_spec(s);
    if ls.len() == 0 {
        ls
    } else {
        ls.drop_first()
    }
}

/// The sockets of the contents of `/proc/net/tcp` or `/proc/net/tcp6`.
pub open spec fn tcp_sockets_spec(content: Seq<char>) -> Seq<(Seq<char>, u16, Seq<char>, u32)> {
    tcp_sockets_of(body_lines(content))
}

/// The view of a socket tuple.
pub open spec fn socket_view(t: (String, u16, String, u32)) -> (Seq<char>, u16, Seq<char>, u32) {
    (t.0@, t.1, t.2@, t.3)
}

fn tcp_socket(line: &[char]) -> (r: Option<(String, u16, String, u32)>)
    ensures
        match r {
            Some(t) => tcp_socket_of(line@) == Some(socket_view(t)),
            None => tcp_socket_of(line@) is None,
        },
{
    let parts = fields(line, &Sep::Whitespace);
    let ghost ps = views(parts@);
    if parts.len() < 8 {
        return None;
    }
    assert(parts[7]@ == ps[7] && parts[1]@ == ps[1] && parts[3]@ == ps[3]);
    let uid = match parse_u32(parts[7].as_slice()) {
        Some(u) => u,
        None => return None,
    };
    let (addr, port_hex) = match split_once(parts[1].as_slice(), ':') {
        Some(pair) => pair,
        None => return None,
    };
    let port = match parse_hex_u16(port_hex.as_slice()) {
        Some(p) => p,
        None => return None,
    };
    let addr_text = decode_hex_addr(addr.as_slice());
    let state_code = crate::text::from_chars(parts[3].as_slice());
    let state = owned(tcp_state(state_code.as_str()));
    Some((addr_text, port, state, uid))
}

/// The sockets listed in the contents of `/proc/net/tcp` or
/// `/proc/net/tcp6` (see `tcp_socket_of`); the first line is a header.
pub fn parse_net_tcp(content: &str) -> (r: Vec<(String, u16, String, u32)>)
    ensures
        r@.map_values(|t: (String, u16, String, u32)| socket_view(t)) == tcp_sockets_spec(content@),
{
    let chars = crate::text::to_chars(content);
    let ls = lines(chars.as_slice());
    let ghost all = views(ls@);
    let ghost body = body_lines(content@);
    let mut out: Vec<(String, u16, String, u32)> = Vec::new();
    if ls.len() == 0 {
        assert(out@.map_values(|t: (String, u16, String, u32)| socket_view(t)) =~= Seq::empty());
        return out;
    }
    assert(body =~= all.drop_first());
    let mut i: usize = 1;
    while i < ls.len()
        invariant
            1 <= i <= ls.len(),
            all == views(ls@),
            body == all.drop_first(),
            out@.map_values(|t: (String, u16, String, u32)| socket_view(t)) == tcp_sockets_of(
                body.take(i - 1),
            ),
        decreases ls.len() - i,
    {
        proof {
            assert(body.take(i as int).drop_last() =~= body.take(i - 1));
            assert(body.take(i as int).last() == ls@[i as int]@);
        }
        let ghost before = out@.map_values(|t: (String, u16, String, u32)| socket_view(t));
        match tcp_socket(ls[i].as_slice()) {
            Some(t) => {
                out.push(t);
                assert(out@.map_values(|t: (String, u16, String, u32)| socket_view(t)) =~= before.push(
                    socket_view(t),
                ));
            },
            None => {},
        }
        i = i + 1;
    }
    assert(body.take(ls.len() - 1) =~= body);
    out
}

/// The sockets of `ss` in state `LISTEN`, in order.
pub open spec fn listening(ss: Seq<(Seq<char>, u16, Seq<char>, u32)>) -> Seq<(Seq<char>, u16, Seq<char>, u32)>
    decreases ss.len(),
{
    if ss.len() == 0 {
        Seq::empty()
    } else if ss.last().2 == "LISTEN"@ {
        listening(ss.drop_last()).push(ss.last())
    } else {
        listening(ss.drop_last())
    }
}

/// Keeping the listening sockets twice keeps the same sockets.
pub proof fn lemma_listening_idempotent(ss: Seq<(Seq<char>, u16, Seq<char>, u32)>)
    ensures
        listening(listening(ss)) == listening(ss),
    decreases ss.len(),
{
    if ss.len() > 0 {
        lemma_listening_idempotent(ss.drop_last());
        if ss.last().2 == "LISTEN"@ {
            let l = listening(ss.drop_last()).push(ss.last());
            assert(l.drop_last() =~= listening(ss.drop_last()));
        }
    }
}

/// The sockets of `v` in state `LISTEN` (state code `0A`), in order.
fn keep_listening(v: Vec<(String, u16, String, u32)>) -> (r: Vec<(String, u16, String, u32)>)
    ensures
        r@.map_values(|t: (String, u16, String, u32)| socket_view(t)) == listening(
            v@.map_values(|t: (String, u16, String, u32)| socket_view(t)),
        ),
{
    let ghost ss = v@.map_values(|t: (String, u16, String, u32)| socket_view(t));
    let mut out: Vec<(String, u16, String, u32)> = Vec::new();
    let mut rest = v;
    let ghost mut i: int = 0;
    while rest.len() > 0
        invariant
            0 <= i <= ss.len(),
            rest@.map_values(|t: (String, u16, String, u32)| socket_view(t)) == ss.skip(i),
            out@.map_values(|t: (String, u16, String, u32)| socket_view(t)) == listening(ss.take(i)),
        decreases rest.len(),
    {
        let ghost rv = rest@.map_values(|t: (String, u16, String, u32)| socket_view(t));
        assert(rv.len() == rest@.len());
        assert(i < ss.len());
        assert(rv[0] == ss.skip(i)[0]);
        let ghost old_rest = rest@;
        let t = rest.remove(0);
        proof {
            assert(rv[0] == socket_view(t));
            assert(socket_view(t) == ss[i]);
            assert(ss.take(i + 1).drop_last() =~= ss.take(i));
            assert(ss.take(i + 1).last() == ss[i]);
            assert forall|k: int| 0 <= k < rest@.len() implies #[trigger] socket_view(rest@[k]) == ss.skip(i + 1)[k] by {
                assert(rest@[k] == old_rest[k + 1]);
                assert(rv[k + 1] == socket_view(old_rest[k + 1]));
                assert(rv[k + 1] == ss.skip(i)[k + 1]);
            }
            assert(rest@.map_values(|t: (String, u16, String, u32)| socket_view(t)) =~= ss.skip(i + 1));
        }
        let ghost before = out@.map_values(|t: (String, u16, String, u32)| socket_view(t));
        if str_eq(t.2.as_str(), "LISTEN") {
            out.push(t);
            assert(out@.map_values(|t: (String, u16, String, u32)| socket_view(t)) =~= before.push(ss[i]));
        }
        proof {
            i = i + 1;
        }
    }
    assert(ss.take(i) =~= ss);
    out
}

/// The listening IPv4 sockets (state `LISTEN`) listed in the contents of
/// `/proc/net/tcp` (`None` where the file could not be read: no sockets).
pub fn read_tcp_sockets(proc_net_tcp: Option<&str>) -> (r: Vec<(String, u16, String, u32)>)
    ensures
        r@.map_values(|t: (String, u16, String, u32)| socket_view(t)) == match proc_net_tcp {
            Some(c) => listening(tcp_sockets_spec(c@)),
            None => Seq::empty(),
        },
{
    match proc_net_tcp {
        Some(c) => keep_listening(parse_net_tcp(c)),
        None => {
            let r: Vec<(String, u16, String, u32)> = Vec::new();
            assert(r@.map_values(|t: (String, u16, String, u32)| socket_view(t)) =~= Seq::empty());
            r
        },
    }
}

/// The listening IPv6 sockets (state `LISTEN`) listed in the contents of
/// `/proc/net/tcp6` (`None` where the file could not be read: no sockets).
pub fn read_tcp6_sockets(proc_net_tcp6: Option<&str>) -> (r: Vec<(String, u16, String, u32)>)
    ensures
        r@.map_values(|t: (String, u16, String, u32)| socket_view(t)) == match proc_net_tcp6 {
            Some(c) => listening(tcp_sockets_spec(c@)),
            None => Seq::empty(),
        },
{
    read_tcp_sockets(proc_net_tcp6)
}

} // verus!
