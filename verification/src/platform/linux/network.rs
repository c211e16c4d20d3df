//! Network facts on Linux: `resolvectl`, `ip addr`, sysfs, firewall tools,
//! the sockets of /proc and the Samba configuration.
use vstd::prelude::*;

use crate::models::finding::opt_view;
use crate::models::system_info::{DnsInfo, DnsLinkInfo, FirewallProfile, OpenPort};
use crate::platform::linux::etc::strings_view;
use crate::platform::linux::proc::listening;
use crate::text::{
    find_char, find_char_spec, has_prefix, lines, lines_spec, owned, slice_to_vec, split_once,
    split_once_spec, starts_with, str_eq, to_chars, to_lowercase, trim, trim_end_any,
    trim_end_any_spec, trim_spec, trim_start, trim_start_spec, unicode_lowercase, views,
};

verus! {

// ---------------------------------------------------------------------------
// resolvectl status
// ---------------------------------------------------------------------------

/// The resolver settings of one link, as values.
#[verifier::ext_equal]
pub struct DnsLinkView {
    pub index: u32,
    pub name: Seq<char>,
    pub current_scopes: Option<Seq<char>>,
    pub protocols: Option<Seq<char>>,
    pub current_dns_server: Option<Seq<char>>,
    pub dns_servers: Seq<Seq<char>>,
    pub dns_domain: Option<Seq<char>>,
}

/// The global resolver settings and those of each link, as values.
#[verifier::ext_equal]
pub struct DnsInfoView {
    pub protocols: Option<Seq<char>>,
    pub resolv_conf_mode: Option<Seq<char>>,
    pub current_dns_server: Option<Seq<char>>,
    pub dns_servers: Seq<Seq<char>>,
    pub dns_domain: Option<Seq<char>>,
    pub links: Seq<DnsLinkView>,
}

pub open spec fn link_view(l: DnsLinkInfo) -> DnsLinkView {
    DnsLinkView {
        index: l.index,
        name: l.name@,
        current_scopes: opt_view(l.current_scopes),
        protocols: opt_view(l.protocols),
        current_dns_server: opt_view(l.current_dns_server),
        dns_servers: strings_view(l.dns_servers@),
        dns_domain: opt_view(l.dns_domain),
    }
}

pub open spec fn info_view(i: DnsInfo) -> DnsInfoView {
    DnsInfoView {
        protocols: opt_view(i.protocols),
        resolv_conf_mode: opt_view(i.resolv_conf_mode),
        current_dns_server: opt_view(i.current_dns_server),
        dns_servers: strings_view(i.dns_servers@),
        dns_domain: opt_view(i.dns_domain),
        links: i.links@.map_values(|l: DnsLinkInfo| link_view(l)),
    }
}

/// Where a reading of `resolvectl status` stands: what was read so far, the
/// link section being read, and whether the global section is being read.
#[verifier::ext_equal]
pub struct DnsParse {
    pub info: DnsInfoView,
    pub current: Option<DnsLinkView>,
    pub in_global: bool,
}

/// The settings read so far, with the current link section closed.
pub open spec fn flushed(st: DnsParse) -> DnsInfoView {
    match st.current {
        Some(l) => DnsInfoView { links: st.info.links.push(l), ..st.info },
        None => st.info,
    }
}

/// The link that a header `Link <index> (<name>)` opens, from the text
/// after `Link `: the number before `(` (0 if it does not parse) and the
/// trimmed text after `(` without closing parentheses.
pub open spec fn link_header(rest: Seq<char>) -> DnsLinkView {
    let paren = match find_char_spec(rest, '(') {
        Some(p) => p,
        None => rest.len() as int,
    };
    let index = match crate::num::parse_u32_spec(trim_spec(rest.take(paren))) {
        Some(n) => n,
        None => 0,
    };
    let name = if paren < rest.len() && rest.len() - paren > 1 {
        trim_spec(trim_end_any_spec(rest.skip(paren + 1), seq![')']))
    } else {
        Seq::empty()
    };
    DnsLinkView {
        index,
        name,
        current_scopes: None,
        protocols: None,
        current_dns_server: None,
        dns_servers: Seq::empty(),
        dns_domain: None,
    }
}

/// The global settings after a `key: value` line of the global section.
pub open spec fn global_set(info: DnsInfoView, key: Seq<char>, val: Seq<char>) -> DnsInfoView {
    if key == "protocols"@ {
        DnsInfoView { protocols: Some(val), ..info }
    } else if key == "resolv.conf mode"@ {
        DnsInfoView { resolv_conf_mode: Some(val), ..info }
    } else if key == "current dns server"@ {
        DnsInfoView { current_dns_server: Some(val), ..info }
    } else if key == "dns servers"@ {
        if val.len() > 0 {
            DnsInfoView { dns_servers: info.dns_servers.push(val), ..info }
        } else {
            info
        }
    } else if key == "dns domain"@ {
        DnsInfoView { dns_domain: Some(val), ..info }
    } else {
        info
    }
}

/// A link's settings after a `key: value` line of its section.
pub open spec fn link_set(l: DnsLinkView, key: Seq<char>, val: Seq<char>) -> DnsLinkView {
    if key == "current scopes"@ {
        DnsLinkView { current_scopes: Some(val), ..l }
    } else if key == "protocols"@ {
        DnsLinkView { protocols: Some(val), ..l }
    } else if key == "current dns server"@ {
        DnsLinkView { current_dns_server: Some(val), ..l }
    } else if key == "dns servers"@ {
        if val.len() > 0 {
            DnsLinkView { dns_servers: l.dns_servers.push(val), ..l }
        } else {
            l
        }
    } else if key == "dns domain"@ {
        DnsLinkView { dns_domain: Some(val), ..l }
    } else {
        l
    }
}

/// A further value of a list (a line without `:` that is indented by eight
/// spaces): another DNS server of the section being read.
pub open spec fn add_server(st: DnsParse, val: Seq<char>) -> DnsParse {
    if st.in_global {
        DnsParse { info: DnsInfoView { dns_servers: st.info.dns_servers.push(val), ..st.info }, ..st }
    } else {
        match st.current {
            Some(l) => DnsParse {
                current: Some(DnsLinkView { dns_servers: l.dns_servers.push(val), ..l }),
                ..st
            },
            None => st,
        }
    }
}

/// One line of `resolvectl status`.
pub open spec fn dns_step(st: DnsParse, line: Seq<char>) -> DnsParse {
    let t = trim_start_spec(line);
    if t == "Global"@ {
        DnsParse { info: flushed(st), current: None, in_global: true }
    } else if has_prefix(line, "Link "@) && line.contains('(') {
        DnsParse { info: flushed(st), current: Some(link_header(line.skip(5))), in_global: false }
    } else {
        match split_once_spec(t, ':') {
            Some((rk, v0)) => {
                let key = unicode_lowercase(trim_spec(rk));
                let val = trim_spec(v0);
                if st.in_global {
                    DnsParse { info: global_set(st.info, key, val), ..st }
                } else {
                    match st.current {
                        Some(l) => DnsParse { current: Some(link_set(l, key, val)), ..st },
                        None => st,
                    }
                }
            },
            None => {
                if has_prefix(t, " "@) || has_prefix(line, "        "@) {
                    let val = trim_spec(t);
                    if val.len() > 0 {
                        add_server(st, val)
                    } else {
                        st
                    }
                } else {
                    st
                }
            },
        }
    }
}

pub open spec fn dns_fold(ls: Seq<Seq<char>>) -> DnsParse
    decreases ls.len(),
{
    if ls.len() == 0 {
        DnsParse {
            info: DnsInfoView {
                protocols: None,
                resolv_conf_mode: None,
                current_dns_server: None,
                dns_servers: Seq::empty(),
                dns_domain: None,
                links: Seq::empty(),
            },
            current: None,
            in_global: false,
        }
    } else {
        dns_step(dns_fold(ls.drop_last()), ls.last())
    }
}

/// The resolver settings in the output of `resolvectl status`: none for
/// blank output; else the global section and one entry per link section.
pub open spec fn dns_info_spec(text: Seq<char>) -> Option<DnsInfoView> {
    if trim_spec(text).len() == 0 {
        None
    } else {
        Some(flushed(dns_fold(lines_spec(text))))
    }
}

struct DnsState {
    info: DnsInfo,
    current: Option<DnsLinkInfo>,
    in_global: bool,
}

spec fn state_view(s: DnsState) -> DnsParse {
    DnsParse {
        info: info_view(s.info),
        current: match s.current {
            Some(l) => Some(link_view(l)),
            None => None,
        },
        in_global: s.in_global,
    }
}

fn flush(info: DnsInfo, current: Option<DnsLinkInfo>) -> (r: DnsInfo)
    ensures
        info_view(r) == flushed(DnsParse {
            info: info_view(info),
            current: match current {
                Some(l) => Some(link_view(l)),
                None => None,
            },
            in_global: false,
        }),
{
    let mut info = info;
    match current {
        Some(l) => {
            let ghost before = info.links@;
            let ghost lv = link_view(l);
            info.links.push(l);
            assert(info.links@.map_values(|l: DnsLinkInfo| link_view(l)) =~= before.map_values(
                |l: DnsLinkInfo| link_view(l),
            ).push(lv));
        },
        None => {},
    }
    info
}

fn new_link(rest: &[char]) -> (r: DnsLinkInfo)
    ensures
        link_view(r) == link_header(rest@),
{
    let paren: usize = match find_char(rest, '(') {
        Some(p) => p,
        None => rest.len(),
    };
    let head = slice_to_vec(rest, 0, paren);
    assert(head@ =~= rest@.take(paren as int));
    let head_t = trim(head.as_slice());
    let index: u32 = match crate::num::parse_u32(head_t.as_slice()) {
        Some(n) => n,
        None => 0,
    };
    let name = if paren < rest.len() && rest.len() - paren > 1 {
        let tail = slice_to_vec(rest, paren + 1, rest.len());
        assert(tail@ =~= rest@.skip(paren + 1));
        let close: [char; 1] = [')'];
        assert(close@ =~= seq![')']);
        let a = trim_end_any(tail.as_slice(), close.as_slice());
        let b = trim(a.as_slice());
        crate::text::from_chars(b.as_slice())
    } else {
        String::new()
    };
    let r = DnsLinkInfo {
        index,
        name,
        current_scopes: None,
        protocols: None,
        current_dns_server: None,
        dns_servers: Vec::new(),
        dns_domain: None,
    };
    assert(strings_view(r.dns_servers@) =~= Seq::<Seq<char>>::empty());
    r
}

fn push_string(v: &mut Vec<String>, s: String)
    ensures
        strings_view(final(v)@) == strings_view(old(v)@).push(s@),
{
    let ghost before = strings_view(v@);
    let ghost sv = s@;
    v.push(s);
    assert(strings_view(v@) =~= before.push(sv));
}

fn set_global(info: &mut DnsInfo, key: &str, val: String)
    ensures
        info_view(*final(info)) == global_set(info_view(*old(info)), key@, val@),
{
    if str_eq(key, "protocols") {
        info.protocols = Some(val);
    } else if str_eq(key, "resolv.conf mode") {
        info.resolv_conf_mode = Some(val);
    } else if str_eq(key, "current dns server") {
        info.current_dns_server = Some(val);
    } else if str_eq(key, "dns servers") {
        if val.as_str().unicode_len() > 0 {
            push_string(&mut info.dns_servers, val);
        }
    } else if str_eq(key, "dns domain") {
        info.dns_domain = Some(val);
    }
}

fn set_link(l: &mut DnsLinkInfo, key: &str, val: String)
    ensures
        link_view(*final(l)) == link_set(link_view(*old(l)), key@, val@),
{
    if str_eq(key, "current scopes") {
        l.current_scopes = Some(val);
    } else if str_eq(key, "protocols") {
        l.protocols = Some(val);
    } else if str_eq(key, "current dns server") {
        l.current_dns_server = Some(val);
    } else if str_eq(key, "dns servers") {
        if val.as_str().unicode_len() > 0 {
            push_string(&mut l.dns_servers, val);
        }
    } else if str_eq(key, "dns domain") {
        l.dns_domain = Some(val);
    }
}

fn dns_line(st: DnsState, line: &[char]) -> (r: DnsState)
    ensures
        state_view(r) == dns_step(state_view(st), line@),
{
    let t = trim_start(line);
    let ts = crate::text::from_chars(t.as_slice());
    let DnsState { info, current, in_global } = st;
    if str_eq(ts.as_str(), "Global") {
        let info = flush(info, current);
        return DnsState { info, current: None, in_global: true };
    }
    let link_prefix = to_chars("Link ");
    if starts_with(line, link_prefix.as_slice()) && find_char(line, '(').is_some() {
        proof {
            reveal_strlit("Link ");
        }
        let info = flush(info, current);
        let rest = slice_to_vec(line, 5, line.len());
        assert(rest@ =~= line@.skip(5));
        let link = new_link(rest.as_slice());
        return DnsState { info, current: Some(link), in_global: false };
    }
    match split_once(t.as_slice(), ':') {
        Some((rk, v0)) => {
            let k = trim(rk.as_slice());
            let ks = crate::text::from_chars(k.as_slice());
            let key = to_lowercase(ks.as_str());
            let v = trim(v0.as_slice());
            let val = crate::text::from_chars(v.as_slice());
            if in_global {
                let mut info = info;
                set_global(&mut info, key.as_str(), val);
                DnsState { info, current, in_global }
            } else {
                match current {
                    Some(l) => {
                        let mut l = l;
                        set_link(&mut l, key.as_str(), val);
                        DnsState { info, current: Some(l), in_global }
                    },
                    None => DnsState { info, current: None, in_global },
                }
            }
        },
        None => {
            let space = to_chars(" ");
            let eight = to_chars("        ");
            if starts_with(t.as_slice(), space.as_slice()) || starts_with(line, eight.as_slice()) {
                let v = trim(t.as_slice());
                assert(trim_spec(t@) == v@);
                if v.len() > 0 {
                    let val = crate::text::from_chars(v.as_slice());
                    if in_global {
                        let mut info = info;
                        push_string(&mut info.dns_servers, val);
                        DnsState { info, current, in_global }
                    } else {
                        match current {
                            Some(l) => {
                                let mut l = l;
                                push_string(&mut l.dns_servers, val);
                                DnsState { info, current: Some(l), in_global }
                            },
                            None => DnsState { info, current: None, in_global },
                        }
                    }
                } else {
                    DnsState { info, current, in_global }
                }
            } else {
                DnsState { info, current, in_global }
            }
        },
    }
}

/// The resolver settings in the output of `resolvectl status` (see
/// `dns_info_spec`); none where the tool could not be run.
pub fn collect_dns_info(resolvectl_status: Option<&str>) -> (r: Option<DnsInfo>)
    ensures
        match resolvectl_status {
            Some(t) => match r {
                Some(i) => dns_info_spec(t@) == Some(info_view(i)),
                None => dns_info_spec(t@) is None,
            },
            None => r is None,
        },
{
    match resolvectl_status {
        Some(t) => dns_info_of(t),
        None => None,
    }
}

fn dns_info_of(text: &str) -> (r: Option<DnsInfo>)
    ensures
        match r {
            Some(i) => dns_info_spec(text@) == Some(info_view(i)),
            None => dns_info_spec(text@) is None,
        },
{
    let chars = to_chars(text);
    let tt = trim(chars.as_slice());
    if tt.len() == 0 {
        return None;
    }
    let ls = lines(chars.as_slice());
    let ghost all = views(ls@);
    let empty_info = DnsInfo {
        protocols: None,
        resolv_conf_mode: None,
        current_dns_server: None,
        dns_servers: Vec::new(),
        dns_domain: None,
        links: Vec::new(),
    };
    let mut st = DnsState { info: empty_info, current: None, in_global: false };
    assert(state_view(st) =~= dns_fold(all.take(0)));
    let mut i: usize = 0;
    while i < ls.len()
        invariant
            i <= ls.len(),
            all == views(ls@),
            state_view(st) == dns_fold(all.take(i as int)),
        decreases ls.len() - i,
    {
        proof {
            assert(all.take(i + 1).drop_last() =~= all.take(i as int));
            assert(all.take(i + 1).last() == ls@[i as int]@);
        }
        st = dns_line(st, ls[i].as_slice());
        i = i + 1;
    }
    assert(all.take(ls.len() as int) =~= all);
    let DnsState { info, current, in_global: _ } = st;
    Some(flush(info, current))
}

// ---------------------------------------------------------------------------
// Interfaces
// ---------------------------------------------------------------------------

/// The addresses in the output of `ip addr show`: the second
/// whitespace-separated word of each line that, trimmed, starts with
/// `inet ` or `inet6 ` (an address with its prefix length).
pub open spec fn ip_addresses_of(ls: Seq<Seq<char>>) -> Seq<Seq<char>>
    decreases ls.len(),
{
    if ls.len() == 0 {
        Seq::empty()
    } else {
        let t = trim_spec(ls.last());
        let words = crate::text::fields_spec(t, crate::text::Sep::Whitespace);
        if (has_prefix(t, "inet "@) || has_prefix(t, "inet6 "@)) && words.len() >= 2 {
            ip_addresses_of(ls.drop_last()).push(words[1])
        } else {
            ip_addresses_of(ls.drop_last())
        }
    }
}

/// The addresses in the output of `ip addr show <interface>`.
pub fn get_ip_addresses(ip_output: &str) -> (r: Vec<String>)
    ensures
        strings_view(r@) == ip_addresses_of(lines_spec(ip_output@)),
{
    let chars = to_chars(ip_output);
    let ls = lines(chars.as_slice());
    let ghost all = views(ls@);
    let p4 = to_chars("inet ");
    let p6 = to_chars("inet6 ");
    let mut out: Vec<String> = Vec::new();
    let mut i: usize = 0;
    while i < ls.len()
        invariant
            i <= ls.len(),
            all == views(ls@),
            p4@ == "inet "@,
            p6@ == "inet6 "@,
            strings_view(out@) == ip_addresses_of(all.take(i as int)),
        decreases ls.len() - i,
    {
        proof {
            assert(all.take(i + 1).drop_last() =~= all.take(i as int));
            assert(all.take(i + 1).last() == ls@[i as int]@);
        }
        let t = trim(ls[i].as_slice());
        if starts_with(t.as_slice(), p4.as_slice()) || starts_with(t.as_slice(), p6.as_slice()) {
            let words = crate::text::fields(t.as_slice(), &crate::text::Sep::Whitespace);
            if words.len() >= 2 {
                assert(views(words@)[1] == words@[1]@);
                push_string(&mut out, crate::text::from_chars(words[1].as_slice()));
            }
        }
        i = i + 1;
    }
    assert(all.take(ls.len() as int) =~= all);
    out
}

/// Whether an interface is up, from the contents of its `operstate` file
/// (`None` where it could not be read): the trimmed contents are `up`.
pub fn interface_is_up(operstate: Option<&str>) -> (r: bool)
    ensures
        r == match operstate {
            Some(s) => trim_spec(s@) == "up"@,
            None => false,
        },
{
    match operstate {
        Some(s) => {
            let c = to_chars(s);
            let t = trim(c.as_slice());
            let ts = crate::text::from_chars(t.as_slice());
            str_eq(ts.as_str(), "up")
        },
        None => false,
    }
}

/// An interface's MAC address, from the contents of its `address` file:
/// the trimmed contents, unless empty or all zero.
pub fn mac_address_from(address: Option<&str>) -> (r: Option<String>)
    ensures
        opt_view(r) == match address {
            Some(s) => if trim_spec(s@).len() > 0 && trim_spec(s@) != "00:00:00:00:00:00"@ {
                Some(trim_spec(s@))
            } else {
                None
            },
            None => None,
        },
{
    match address {
        Some(s) => {
            let c = to_chars(s);
            let t = trim(c.as_slice());
            let ts = crate::text::from_chars(t.as_slice());
            if t.len() > 0 && !str_eq(ts.as_str(), "00:00:00:00:00:00") {
                Some(ts)
            } else {
                None
            }
        },
        None => None,
    }
}

// ---------------------------------------------------------------------------
// Listening ports
// ---------------------------------------------------------------------------

/// Whether `p` is the listening port of socket `s`, reported under `protocol`.
pub open spec fn describes_port(p: OpenPort, s: (Seq<char>, u16, Seq<char>, u32), protocol: Seq<char>) -> bool {
    &&& p.protocol@ == protocol
    &&& p.local_addr@ == s.0
    &&& p.local_port == s.1
    &&& p.state@ == s.2
    &&& p.remote_addr is None
    &&& p.remote_port is None
    &&& p.pid is None
    &&& p.process_name is None
}

fn push_listening(
    out: &mut Vec<OpenPort>,
    sockets: &Vec<(String, u16, String, u32)>,
    protocol: &str,
)
    ensures
        final(out)@.len() == old(out)@.len() + listening(
            sockets@.map_values(|t: (String, u16, String, u32)| crate::platform::linux::proc::socket_view(t)),
        ).len(),
        forall|k: int| 0 <= k < old(out)@.len() ==> #[trigger] final(out)@[k] == old(out)@[k],
        forall|k: int|
            0 <= k < listening(
                sockets@.map_values(|t: (String, u16, String, u32)| crate::platform::linux::proc::socket_view(t)),
            ).len() ==> describes_port(
                #[trigger] final(out)@[old(out)@.len() + k],
                listening(
                    sockets@.map_values(
                        |t: (String, u16, String, u32)| crate::platform::linux::proc::socket_view(t),
                    ),
                )[k],
                protocol@,
            ),
{
    let ghost start = out@;
    let ghost ss = sockets@.map_values(
        |t: (String, u16, String, u32)| crate::platform::linux::proc::socket_view(t),
    );
    let mut i: usize = 0;
    while i < sockets.len()
        invariant
            i <= sockets.len(),
            ss == sockets@.map_values(
                |t: (String, u16, String, u32)| crate::platform::linux::proc::socket_view(t),
            ),
            out@.len() == start.len() + listening(ss.take(i as int)).len(),
            forall|k: int| 0 <= k < start.len() ==> #[trigger] out@[k] == start[k],
            forall|k: int|
                0 <= k < listening(ss.take(i as int)).len() ==> describes_port(
                    #[trigger] out@[start.len() + k],
                    listening(ss.take(i as int))[k],
                    protocol@,
                ),
        decreases sockets.len() - i,
    {
        proof {
            assert(ss.take(i + 1).drop_last() =~= ss.take(i as int));
            assert(ss.take(i + 1).last() == ss[i as int]);
        }
        let s = &sockets[i];
        if str_eq(s.2.as_str(), "LISTEN") {
            out.push(
                OpenPort {
                    protocol: owned(protocol),
                    local_addr: owned(s.0.as_str()),
                    local_port: s.1,
                    remote_addr: None,
                    remote_port: None,
                    state: owned(s.2.as_str()),
                    pid: None,
                    process_name: find_process_for_port(s.1),
                },
            );
        }
        i = i + 1;
    }
    assert(ss.take(sockets.len() as int) =~= ss);
}

/// The process that owns a listening port: not determined (it would take
/// matching socket inodes against every process's descriptors).
pub fn find_process_for_port(port: u16) -> (r: Option<String>)
    ensures
        r is None,
{
    None
}

/// The listening ports among the IPv4 and IPv6 sockets, IPv4 first, each
/// reported as TCP or TCP6 without its process.
pub fn list_open_ports(tcp: &Vec<(String, u16, String, u32)>, tcp6: &Vec<(String, u16, String, u32)>) -> (r: Vec<OpenPort>)
    ensures
        ({
            let l4 = listening(
                tcp@.map_values(|t: (String, u16, String, u32)| crate::platform::linux::proc::socket_view(t)),
            );
            let l6 = listening(
                tcp6@.map_values(|t: (String, u16, String, u32)| crate::platform::linux::proc::socket_view(t)),
            );
            &&& r@.len() == l4.len() + l6.len()
            &&& forall|k: int| 0 <= k < l4.len() ==> describes_port(#[trigger] r@[k], l4[k], "TCP"@)
            &&& forall|k: int| 0 <= k < l6.len() ==> describes_port(#[trigger] r@[l4.len() + k], l6[k], "TCP6"@)
        }),
{
    let mut out: Vec<OpenPort> = Vec::new();
    push_listening(&mut out, tcp, "TCP");
    let ghost first = out@;
    push_listening(&mut out, tcp6, "TCP6");
    proof {
        let l4 = listening(
            tcp@.map_values(|t: (String, u16, String, u32)| crate::platform::linux::proc::socket_view(t)),
        );
        assert forall|k: int| 0 <= k < l4.len() implies describes_port(#[trigger] out@[k], l4[k], "TCP"@) by {
            assert(out@[k] == first[k]);
            assert(first[0 + k] == first[k]);
        }
    }
    out
}

// ---------------------------------------------------------------------------
// Firewall and Samba
// ---------------------------------------------------------------------------

/// Whether `p` is the profile named `name`, enabled or not, with the given
/// default actions.
pub open spec fn is_profile(p: FirewallProfile, name: Seq<char>, enabled: bool, inbound: Seq<char>, outbound: Seq<char>) -> bool {
    p.name@ == name && p.enabled == enabled && p.inbound_default@ == inbound && p.outbound_default@ == outbound
}

/// The firewall profiles from the output of `ufw status` and of
/// `iptables -L -n --line-numbers` (`None` where the tool could not be run).
/// Where ufw ran: one `ufw` profile, enabled when the output says
/// `Status: active`, blocking inbound traffic by default when enabled.
/// Else, where iptables ran: one `iptables` profile, enabled when the output
/// has more than ten lines, with unknown defaults. Else none.
pub fn get_firewall_status(ufw_status: Option<&str>, iptables_list: Option<&str>) -> (r: Vec<FirewallProfile>)
    ensures
        match ufw_status {
            Some(out) => r@.len() == 1 && is_profile(
                r@[0],
                "ufw"@,
                crate::text::contains_seq(out@, "Status: active"@),
                if crate::text::contains_seq(out@, "Status: active"@) {
                    "Block"@
                } else {
                    "Allow"@
                },
                "Allow"@,
            ),
            None => match iptables_list {
                Some(out) => r@.len() == 1 && is_profile(
                    r@[0],
                    "iptables"@,
                    lines_spec(out@).len() > 10,
                    "Unknown"@,
                    "Unknown"@,
                ),
                None => r@.len() == 0,
            },
        },
{
    let mut profiles: Vec<FirewallProfile> = Vec::new();
    match ufw_status {
        Some(out) => {
            let enabled = crate::text::str_contains(out, "Status: active");
            profiles.push(
                FirewallProfile {
                    name: owned("ufw"),
                    enabled,
                    inbound_default: if enabled {
                        owned("Block")
                    } else {
                        owned("Allow")
                    },
                    outbound_default: owned("Allow"),
                },
            );
            return profiles;
        },
        None => {},
    }
    match iptables_list {
        Some(out) => {
            let chars = to_chars(out);
            let ls = lines(chars.as_slice());
            profiles.push(
                FirewallProfile {
                    name: owned("iptables"),
                    enabled: ls.len() > 10,
                    inbound_default: owned("Unknown"),
                    outbound_default: owned("Unknown"),
                },
            );
        },
        None => {},
    }
    profiles
}

/// Whether smb.conf allows SMBv1: decided by its first line that, trimmed
/// and lowercased, starts with `min protocol`: allowed when that line names
/// `nt1` or `smb1`. None without such a line or without the file.
pub open spec fn smb_v1_spec(ls: Seq<Seq<char>>) -> Option<bool>
    decreases ls.len(),
{
    if ls.len() == 0 {
        None
    } else {
        let l = unicode_lowercase(trim_spec(ls[0]));
        if has_prefix(l, "min protocol"@) {
            Some(crate::text::contains_seq(l, "nt1"@) || crate::text::contains_seq(l, "smb1"@))
        } else {
            smb_v1_spec(ls.drop_first())
        }
    }
}

/// Whether SMBv1 is enabled, from the contents of smb.conf.
pub fn check_smb_v1(smb_conf: Option<&str>) -> (r: Option<bool>)
    ensures
        r == match smb_conf {
            Some(c) => smb_v1_spec(lines_spec(c@)),
            None => None,
        },
{
    match smb_conf {
        Some(c) => {
            let chars = to_chars(c);
            let ls = lines(chars.as_slice());
            let ghost all = views(ls@);
            let prefix = to_chars("min protocol");
            let mut i: usize = 0;
            assert(all.skip(0) =~= all);
            while i < ls.len()
                invariant
                    i <= ls.len(),
                    all == views(ls@),
                    all == lines_spec(c@),
                    smb_conf == Some(c),
                    prefix@ == "min protocol"@,
                    smb_v1_spec(all) == smb_v1_spec(all.skip(i as int)),
                decreases ls.len() - i,
            {
                assert(all.skip(i as int)[0] == ls@[i as int]@);
                let t = trim(ls[i].as_slice());
                let ts = crate::text::from_chars(t.as_slice());
                let l = to_lowercase(ts.as_str());
                let lc = to_chars(l.as_str());
                if starts_with(lc.as_slice(), prefix.as_slice()) {
                    return Some(
                        crate::text::str_contains(l.as_str(), "nt1") || crate::text::str_contains(
                            l.as_str(),
                            "smb1",
                        ),
                    );
                }
                assert(all.skip(i as int).drop_first() =~= all.skip(i + 1));
                i = i + 1;
            }
            assert(all.skip(ls.len() as int) =~= Seq::<Seq<char>>::empty());
            None
        },
        None => None,
    }
}

} // verus!
