//! Windows networking: adapter facts, socket tables and the firewall
//! settings kept in the registry.
use vstd::prelude::*;

use crate::models::finding::opt_view;
use crate::models::system_info::{FirewallProfile, NetworkInterface, OpenPort};
use crate::text::{concat, concat3, decimal, owned, u64_to_string};

verus! {

/// The adapter flag that says DHCP is enabled.
pub const IP_ADAPTER_DHCP_ENABLED: u32 = 0x0004;

/// The state code of a listening TCP socket in the socket tables.
pub const TCP_STATE_LISTEN: u32 = 2;

/// The name of a firewall action value: 0 blocks, 1 allows; a missing value
/// is reported as blocking (the safe reading), any other as unknown.
pub open spec fn firewall_action_spec(v: Option<u32>) -> Seq<char> {
    match v {
        Some(0) => "Block"@,
        Some(1) => "Allow"@,
        Some(_) => "Unknown"@,
        None => "Block"@,
    }
}

/// The name of a firewall action value.
pub fn firewall_action_string(v: Option<u32>) -> (r: String)
    ensures
        r@ == firewall_action_spec(v),
{
    match v {
        Some(0) => owned("Block"),
        Some(1) => owned("Allow"),
        Some(_) => owned("Unknown"),
        None => owned("Block"),
    }
}

/// The bytes of `v`, least significant first.
pub open spec fn le_bytes(v: u32) -> Seq<u8> {
    seq![
        (v % 256) as u8,
        ((v / 256) % 256) as u8,
        ((v / 65536) % 256) as u8,
        ((v / 16777216) % 256) as u8,
    ]
}

/// The bytes of `v`, most significant first.
pub open spec fn be_bytes(v: u32) -> Seq<u8> {
    seq![
        ((v / 16777216) % 256) as u8,
        ((v / 65536) % 256) as u8,
        ((v / 256) % 256) as u8,
        (v % 256) as u8,
    ]
}

/// Whether `b` is the memory representation of `v` on a host of either
/// byte order (Rust targets are little-endian or big-endian).
pub open spec fn is_native_bytes(v: u32, b: Seq<u8>) -> bool {
    b == le_bytes(v) || b == be_bytes(v)
}

/// `u32::to_ne_bytes`: the memory representation of `v` in the host's byte
/// order. Which of the two orders that is depends on the machine and is not
/// stated.
#[verifier::external_body]
fn ne_bytes(v: u32) -> (r: [u8; 4])
    ensures
        is_native_bytes(v, r@),
{
    v.to_ne_bytes()
}

/// The port that the first two bytes of a socket-table value hold, in
/// network (big-endian) order.
pub open spec fn be16_of(b: Seq<u8>) -> u16 {
    (b[0] * 256 + b[1]) as u16
}

/// Whether `port` is the port that the socket-table value `v` stores: the
/// first two bytes of its memory representation, big-endian.
pub open spec fn is_table_port_value(v: u32, port: u16) -> bool {
    port == be16_of(le_bytes(v)) || port == be16_of(be_bytes(v))
}

/// The big-endian port held by the first two of the bytes `b`.
pub fn be16_from_bytes(b: [u8; 4]) -> (r: u16)
    ensures
        r == be16_of(b@),
{
    (b[0] as u16) * 256 + (b[1] as u16)
}

/// The port of a socket-table entry: the first two bytes of `v` in the
/// host's memory order, read big-endian.
pub fn be16_from_u32(v: u32) -> (r: u16)
    ensures
        is_table_port_value(v, r),
{
    let b = ne_bytes(v);
    be16_from_bytes(b)
}

/// The dotted text of four address bytes, in their order.
pub open spec fn dotted_bytes(b: Seq<u8>) -> Seq<char> {
    decimal(b[0] as nat) + "."@ + decimal(b[1] as nat) + "."@ + decimal(b[2] as nat) + "."@
        + decimal(b[3] as nat)
}

/// Whether `text` is the dotted IPv4 address that `v` stores in network
/// order: its bytes in the host's memory order.
pub open spec fn is_ipv4_text(v: u32, text: Seq<char>) -> bool {
    text == dotted_bytes(le_bytes(v)) || text == dotted_bytes(be_bytes(v))
}

/// The dotted text of the address bytes `b`.
pub fn dotted_from_bytes(b: [u8; 4]) -> (r: String)
    ensures
        r@ == dotted_bytes(b@),
{
    let b0 = u64_to_string(b[0] as u64);
    let b1 = u64_to_string(b[1] as u64);
    let b2 = u64_to_string(b[2] as u64);
    let b3 = u64_to_string(b[3] as u64);
    let mut r = concat(b0.as_str(), ".");
    r.append(b1.as_str());
    r.append(".");
    r.append(b2.as_str());
    r.append(".");
    r.append(b3.as_str());
    r
}

/// The dotted text of an IPv4 address stored in network byte order in a
/// 32-bit value: its bytes in the host's memory order.
pub fn ipv4_text(v: u32) -> (r: String)
    ensures
        is_ipv4_text(v, r@),
{
    let b = ne_bytes(v);
    dotted_from_bytes(b)
}

/// An IPv4 address with its prefix length where there is one
/// (`a.b.c.d/len`).
pub fn ipv4_with_prefix(v: u32, prefix: Option<u8>) -> (r: String)
    ensures
        exists|a: Seq<char>| #[trigger] is_ipv4_text(v, a) && r@ == match prefix {
            Some(p) => a + "/"@ + decimal(p as nat),
            None => a,
        },
{
    let a = ipv4_text(v);
    let ghost av = a@;
    match prefix {
        Some(p) => {
            let n = u64_to_string(p as u64);
            let r = concat3(a.as_str(), "/", n.as_str());
            assert(is_ipv4_text(v, av));
            r
        },
        None => {
            assert(is_ipv4_text(v, av));
            a
        },
    }
}

/// The upper-case hex digit of a value below 16.
pub open spec fn hex_upper(d: nat) -> char {
    if d < 10 {
        (48 + d) as char
    } else {
        (55 + d) as char
    }
}

/// A byte as two upper-case hex digits.
pub open spec fn hex_byte(b: u8) -> Seq<char> {
    seq![hex_upper((b / 16) as nat), hex_upper((b % 16) as nat)]
}

/// Bytes as upper-case hex pairs joined by colons.
pub open spec fn mac_spec(bytes: Seq<u8>) -> Seq<char>
    decreases bytes.len(),
{
    if bytes.len() == 0 {
        Seq::empty()
    } else if bytes.len() == 1 {
        hex_byte(bytes[0])
    } else {
        mac_spec(bytes.drop_last()) + ":"@ + hex_byte(bytes.last())
    }
}

fn hex_digit(d: u8) -> (c: char)
    requires
        d < 16,
    ensures
        c == hex_upper(d as nat),
{
    if d < 10 {
        crate::text::char_from_ascii(48 + d)
    } else {
        crate::text::char_from_ascii(55 + d)
    }
}

/// An adapter's physical address as text: none for an empty address.
pub fn mac_text(bytes: &[u8]) -> (r: Option<String>)
    ensures
        match r {
            Some(s) => bytes@.len() > 0 && s@ == mac_spec(bytes@),
            None => bytes@.len() == 0,
        },
{
    if bytes.len() == 0 {
        return None;
    }
    let mut out: Vec<char> = Vec::new();
    let mut i: usize = 0;
    while i < bytes.len()
        invariant
            i <= bytes.len(),
            out@ == mac_spec(bytes@.take(i as int)),
        decreases bytes.len() - i,
    {
        assert(bytes@.take(i + 1).drop_last() =~= bytes@.take(i as int));
        let b = bytes[i];
        if i > 0 {
            out.push(':');
        }
        out.push(hex_digit(b / 16));
        out.push(hex_digit(b % 16));
        proof {
            if i == 0 {
                assert(out@ =~= hex_byte(b));
            } else {
                assert(out@ =~= mac_spec(bytes@.take(i as int)) + ":"@ + hex_byte(b)) by {
                    reveal_strlit(":");
                }
            }
        }
        i = i + 1;
    }
    assert(bytes@.take(bytes.len() as int) =~= bytes@);
    Some(crate::text::from_chars(out.as_slice()))
}

/// An interface from what the adapter list reports: its friendly name,
/// physical address, addresses, DNS servers, flags and operational state.
pub fn adapter_interface(
    name: String,
    mac_bytes: &[u8],
    ip_addresses: Vec<String>,
    dns_servers: Vec<String>,
    flags: u32,
    oper_up: bool,
) -> (r: NetworkInterface)
    ensures
        r.name@ == name@,
        opt_view(r.mac_address) == if mac_bytes@.len() == 0 {
            None
        } else {
            Some(mac_spec(mac_bytes@))
        },
        r.ip_addresses@ == ip_addresses@,
        r.dns_servers@ == dns_servers@,
        r.dhcp_enabled == (flags & IP_ADAPTER_DHCP_ENABLED != 0),
        r.is_up == oper_up,
{
    NetworkInterface {
        name,
        mac_address: mac_text(mac_bytes),
        ip_addresses,
        dns_servers,
        dhcp_enabled: flags & IP_ADAPTER_DHCP_ENABLED != 0,
        is_up: oper_up,
    }
}

/// A port of a socket table: reported as listening, with its owner's pid.
pub fn table_port(protocol: &str, local_addr: String, raw_port: u32, pid: u32) -> (p: OpenPort)
    ensures
        p.protocol@ == protocol@,
        p.local_addr@ == local_addr@,
        is_table_port_value(raw_port, p.local_port),
        p.state@ == "LISTEN"@,
        p.pid == Some(pid),
        p.remote_addr is None && p.remote_port is None && p.process_name is None,
{
    OpenPort {
        protocol: owned(protocol),
        local_addr,
        local_port: be16_from_u32(raw_port),
        remote_addr: None,
        remote_port: None,
        state: owned("LISTEN"),
        pid: Some(pid),
        process_name: None,
    }
}

/// A TCP row of a socket table as a port, where it is listening.
pub fn tcp_row_port(protocol: &str, state: u32, local_addr: String, raw_port: u32, pid: u32) -> (r: Option<OpenPort>)
    ensures
        match r {
            Some(p) => state == TCP_STATE_LISTEN && p.protocol@ == protocol@ && p.local_addr@ == local_addr@
                && is_table_port_value(raw_port, p.local_port) && p.state@ == "LISTEN"@ && p.pid == Some(pid)
                && p.remote_addr is None && p.remote_port is None && p.process_name is None,
            None => state != TCP_STATE_LISTEN,
        },
{
    if state != TCP_STATE_LISTEN {
        return None;
    }
    Some(table_port(protocol, local_addr, raw_port, pid))
}

/// The firewall profiles read: the registry subkey of each and the name it
/// is reported under.
pub open spec fn firewall_profile_keys_spec() -> Seq<(Seq<char>, Seq<char>)> {
    seq![
        ("DomainProfile"@, "Domain"@),
        ("StandardProfile"@, "Private"@),
        ("PublicProfile"@, "Public"@),
    ]
}

/// The firewall profiles read: registry subkey and reported name.
pub fn firewall_profile_keys() -> (r: Vec<(&'static str, &'static str)>)
    ensures
        r@.map_values(|p: (&str, &str)| (p.0@, p.1@)) == firewall_profile_keys_spec(),
{
    let mut r: Vec<(&'static str, &'static str)> = Vec::new();
    r.push(("DomainProfile", "Domain"));
    r.push(("StandardProfile", "Private"));
    r.push(("PublicProfile", "Public"));
    assert(r@.map_values(|p: (&str, &str)| (p.0@, p.1@)) =~= firewall_profile_keys_spec());
    r
}

/// The registry key of a firewall profile.
pub fn firewall_profile_key(subkey: &str) -> (r: String)
    ensures
        r@ == "HKLM\\SYSTEM\\CurrentControlSet\\Services\\SharedAccess\\Parameters\\FirewallPolicy\\"@ + subkey@,
{
    concat("HKLM\\SYSTEM\\CurrentControlSet\\Services\\SharedAccess\\Parameters\\FirewallPolicy\\", subkey)
}

/// A firewall profile from its registry values: none where
/// `EnableFirewall` could not be read; enabled where it is not 0; the
/// default actions named by `firewall_action_spec`.
pub fn firewall_profile_from(
    display_name: &str,
    enable_firewall: Option<u32>,
    default_inbound: Option<u32>,
    default_outbound: Option<u32>,
) -> (r: Option<FirewallProfile>)
    ensures
        match r {
            Some(p) => enable_firewall is Some && p.name@ == display_name@ && p.enabled == (
            enable_firewall.unwrap() != 0) && p.inbound_default@ == firewall_action_spec(default_inbound)
                && p.outbound_default@ == firewall_action_spec(default_outbound),
            None => enable_firewall is None,
        },
{
    let enabled = match enable_firewall {
        Some(v) => v != 0,
        None => return None,
    };
    Some(
        FirewallProfile {
            name: owned(display_name),
            enabled,
            inbound_default: firewall_action_string(default_inbound),
            outbound_default: firewall_action_string(default_outbound),
        },
    )
}

/// The firewall profiles from the registry values read for each profile of
/// `firewall_profile_keys`, in that order (`EnableFirewall`,
/// `DefaultInboundAction`, `DefaultOutboundAction`): those whose
/// `EnableFirewall` could be read.
pub fn get_firewall_profiles(values: &[(Option<u32>, Option<u32>, Option<u32>)]) -> (r: Vec<FirewallProfile>)
    requires
        values@.len() == 3,
    ensures
        r@.len() == firewall_profiles_present(values@, 3),
        forall|k: int|
            0 <= k < 3 && values@[k].0 is Some ==> {
                let p = r@[firewall_profiles_present(values@, k) as int];
                &&& p.name@ == firewall_profile_keys_spec()[k].1
                &&& p.enabled == (values@[k].0.unwrap() != 0)
                &&& p.inbound_default@ == firewall_action_spec(values@[k].1)
                &&& p.outbound_default@ == firewall_action_spec(values@[k].2)
            },
{
    let keys = firewall_profile_keys();
    assert(keys@.map_values(|p: (&str, &str)| (p.0@, p.1@)).len() == keys@.len());
    assert(firewall_profile_keys_spec().len() == 3);
    let mut out: Vec<FirewallProfile> = Vec::new();
    let mut i: usize = 0;
    while i < 3
        invariant
            i <= 3,
            values@.len() == 3,
            keys@.len() == 3,
            keys@.map_values(|p: (&str, &str)| (p.0@, p.1@)) == firewall_profile_keys_spec(),
            out@.len() == firewall_profiles_present(values@, i as int),
            forall|k: int|
                0 <= k < i && values@[k].0 is Some ==> {
                    let p = out@[firewall_profiles_present(values@, k) as int];
                    &&& p.name@ == firewall_profile_keys_spec()[k].1
                    &&& p.enabled == (values@[k].0.unwrap() != 0)
                    &&& p.inbound_default@ == firewall_action_spec(values@[k].1)
                    &&& p.outbound_default@ == firewall_action_spec(values@[k].2)
                },
        decreases 3 - i,
    {
        let (en, inb, outb) = values[i];
        assert(keys@.map_values(|p: (&str, &str)| (p.0@, p.1@))[i as int] == (keys@[i as int].0@, keys@[i as int].1@));
        proof {
            lemma_present_monotone(values@, i as int);
        }
        match firewall_profile_from(keys[i].1, en, inb, outb) {
            Some(p) => {
                out.push(p);
            },
            None => {},
        }
        i = i + 1;
    }
    out
}

/// How many of the first `n` profiles could be read.
pub open spec fn firewall_profiles_present(values: Seq<(Option<u32>, Option<u32>, Option<u32>)>, n: int) -> nat
    decreases n,
{
    if n <= 0 {
        0
    } else {
        firewall_profiles_present(values, n - 1) + if values[n - 1].0 is Some {
            1nat
        } else {
            0nat
        }
    }
}

proof fn lemma_present_monotone(values: Seq<(Option<u32>, Option<u32>, Option<u32>)>, n: int)
    requires
        n >= 0,
    ensures
        forall|k: int| 0 <= k < n ==> #[trigger] firewall_profiles_present(values, k) < firewall_profiles_present(values, n) || values[k].0 is None,
    decreases n,
{
    if n > 0 {
        lemma_present_monotone(values, n - 1);
        assert forall|k: int| 0 <= k < n implies #[trigger] firewall_profiles_present(values, k) < firewall_profiles_present(values, n) || values[k].0 is None by {
            if k < n - 1 {
                lemma_present_le(values, k + 1, n - 1);
            }
        }
    }
}

proof fn lemma_present_le(values: Seq<(Option<u32>, Option<u32>, Option<u32>)>, a: int, b: int)
    requires
        0 <= a <= b,
    ensures
        firewall_profiles_present(values, a) <= firewall_profiles_present(values, b),
    decreases b - a,
{
    if a < b {
        lemma_present_le(values, a, b - 1);
    }
}

/// A row of an owner-pid socket table (TCP or UDP, IPv4 or IPv6), with its
/// local address already written as text. UDP rows carry no state.
#[derive(Debug, Clone)]
pub struct SocketRow {
    pub local_addr: String,
    /// The port as the table stores it (network order in the low 16 bits).
    pub raw_port: u32,
    /// The TCP state (`TCP_STATE_LISTEN` when listening); unused for UDP.
    pub state: u32,
    pub owning_pid: u32,
}

/// Whether `p` is the port that `row` of a `protocol` table gives: reported
/// as listening, with the row's address, big-endian port and owner's pid.
pub open spec fn is_table_port(p: OpenPort, row: SocketRow, protocol: Seq<char>) -> bool {
    &&& p.protocol@ == protocol
    &&& p.local_addr@ == row.local_addr@
    &&& is_table_port_value(row.raw_port, p.local_port)
    &&& p.state@ == "LISTEN"@
    &&& p.pid == Some(row.owning_pid)
    &&& p.remote_addr is None
    &&& p.remote_port is None
    &&& p.process_name is None
}

/// The rows of a table that give ports: for TCP those in state
/// `TCP_STATE_LISTEN`, for UDP all of them; in table order.
pub open spec fn port_rows(rows: Seq<SocketRow>, tcp: bool) -> Seq<SocketRow>
    decreases rows.len(),
{
    if rows.len() == 0 {
        Seq::empty()
    } else if !tcp || rows.last().state == TCP_STATE_LISTEN {
        port_rows(rows.drop_last(), tcp).push(rows.last())
    } else {
        port_rows(rows.drop_last(), tcp)
    }
}

/// Appends to `out` the ports of the rows of a `protocol` table.
fn push_table_ports(out: &mut Vec<OpenPort>, rows: &Vec<SocketRow>, protocol: &str, tcp: bool)
    ensures
        final(out)@.len() == old(out)@.len() + port_rows(rows@, tcp).len(),
        forall|k: int| 0 <= k < old(out)@.len() ==> #[trigger] final(out)@[k] == old(out)@[k],
        forall|k: int|
            0 <= k < port_rows(rows@, tcp).len() ==> is_table_port(
                #[trigger] final(out)@[old(out)@.len() + k],
                port_rows(rows@, tcp)[k],
                protocol@,
            ),
{
    let ghost start = out@;
    let mut i: usize = 0;
    while i < rows.len()
        invariant
            i <= rows.len(),
            out@.len() == start.len() + port_rows(rows@.take(i as int), tcp).len(),
            forall|k: int| 0 <= k < start.len() ==> #[trigger] out@[k] == start[k],
            forall|k: int|
                0 <= k < port_rows(rows@.take(i as int), tcp).len() ==> is_table_port(
                    #[trigger] out@[start.len() + k],
                    port_rows(rows@.take(i as int), tcp)[k],
                    protocol@,
                ),
        decreases rows.len() - i,
    {
        proof {
            assert(rows@.take(i + 1).drop_last() =~= rows@.take(i as int));
            assert(rows@.take(i + 1).last() == rows@[i as int]);
        }
        let row = &rows[i];
        let port = if tcp {
            tcp_row_port(protocol, row.state, owned(row.local_addr.as_str()), row.raw_port, row.owning_pid)
        } else {
            Some(table_port(protocol, owned(row.local_addr.as_str()), row.raw_port, row.owning_pid))
        };
        match port {
            Some(p) => {
                out.push(p);
            },
            None => {},
        }
        i = i + 1;
    }
    assert(rows@.take(rows.len() as int) =~= rows@);
}

/// The ports of the socket tables: the listening rows of the IPv4 and IPv6
/// TCP tables, then every row of the IPv4 and IPv6 UDP tables, each in table
/// order and reported by `is_table_port` as TCP, TCP6, UDP and UDP6.
pub fn list_open_ports(
    tcp4: &Vec<SocketRow>,
    tcp6: &Vec<SocketRow>,
    udp4: &Vec<SocketRow>,
    udp6: &Vec<SocketRow>,
) -> (r: Vec<OpenPort>)
    ensures
        ({
            let a = port_rows(tcp4@, true);
            let b = port_rows(tcp6@, true);
            let c = port_rows(udp4@, false);
            let d = port_rows(udp6@, false);
            &&& r@.len() == a.len() + b.len() + c.len() + d.len()
            &&& forall|k: int| 0 <= k < a.len() ==> is_table_port(#[trigger] r@[k], a[k], "TCP"@)
            &&& forall|k: int| 0 <= k < b.len() ==> is_table_port(#[trigger] r@[a.len() + k], b[k], "TCP6"@)
            &&& forall|k: int|
                0 <= k < c.len() ==> is_table_port(#[trigger] r@[a.len() + b.len() + k], c[k], "UDP"@)
            &&& forall|k: int|
                0 <= k < d.len() ==> is_table_port(
                    #[trigger] r@[a.len() + b.len() + c.len() + k],
                    d[k],
                    "UDP6"@,
                )
        }),
{
    let mut out: Vec<OpenPort> = Vec::new();
    push_table_ports(&mut out, tcp4, "TCP", true);
    let ghost s1 = out@;
    push_table_ports(&mut out, tcp6, "TCP6", true);
    let ghost s2 = out@;
    push_table_ports(&mut out, udp4, "UDP", false);
    let ghost s3 = out@;
    push_table_ports(&mut out, udp6, "UDP6", false);
    proof {
        let a = port_rows(tcp4@, true);
        let b = port_rows(tcp6@, true);
        let c = port_rows(udp4@, false);
        assert forall|k: int| 0 <= k < a.len() implies is_table_port(#[trigger] out@[k], a[k], "TCP"@) by {
            assert(s1[0 + k] == s1[k]);
            assert(out@[k] == s3[k] && s3[k] == s2[k] && s2[k] == s1[k]);
        }
        assert forall|k: int| 0 <= k < b.len() implies is_table_port(#[trigger] out@[a.len() + k], b[k], "TCP6"@) by {
            assert(out@[a.len() + k] == s3[a.len() + k] && s3[a.len() + k] == s2[a.len() + k]);
        }
        assert forall|k: int|
            0 <= k < c.len() implies is_table_port(#[trigger] out@[a.len() + b.len() + k], c[k], "UDP"@) by {
            assert(out@[a.len() + b.len() + k] == s3[a.len() + b.len() + k]);
        }
    }
    out
}

} // verus!
