//! sshd_config and the kernel parameters under /proc/sys.
use vstd::prelude::*;

use crate::models::system_info::lookup_spec;
use crate::table::{keys_unique, upsert, find_key};
use crate::text::{
    lines, lines_spec, split_first, split_first_spec, to_chars, to_lowercase, trim, trim_spec,
    unicode_lowercase, views, Sep,
};

verus! {

/// The keyword and value of a line of sshd_config: the trimmed line up to
/// its first ASCII whitespace, lowercased, and the rest, trimmed; none for a
/// comment, a blank line or a line with a keyword alone.
pub open spec fn sshd_entry(line: Seq<char>) -> Option<(Seq<char>, Seq<char>)> {
    let t = trim_spec(line);
    if t.len() == 0 || t[0] == '#' {
        None
    } else {
        match split_first_spec(t, Sep::AsciiWhitespace) {
            Some((k, v)) => Some((unicode_lowercase(k), trim_spec(v))),
            None => None,
        }
    }
}

/// The value that the lines of sshd_config give a keyword: that of its
/// first line, as sshd reads it.
pub open spec fn sshd_value(ls: Seq<Seq<char>>, key: Seq<char>) -> Option<Seq<char>>
    decreases ls.len(),
{
    if ls.len() == 0 {
        None
    } else {
        match sshd_value(ls.drop_last(), key) {
            Some(v) => Some(v),
            None => match sshd_entry(ls.last()) {
                Some((k, v)) if k == key => Some(v),
                _ => None,
            },
        }
    }
}

fn sshd_line(line: &[char]) -> (r: Option<(String, String)>)
    ensures
        match r {
            Some((k, v)) => sshd_entry(line@) == Some((k@, v@)),
            None => sshd_entry(line@) is None,
        },
{
    let t = trim(line);
    if t.len() == 0 || t[0] == '#' {
        return None;
    }
    match split_first(t.as_slice(), &Sep::AsciiWhitespace) {
        Some((k, v)) => {
            let ks = crate::text::from_chars(k.as_slice());
            let key = to_lowercase(ks.as_str());
            let val = trim(v.as_slice());
            Some((key, crate::text::from_chars(val.as_slice())))
        },
        None => None,
    }
}

/// The keywords of sshd_config, lowercased, each with the value of its
/// first line.
pub fn read_ssh_config(content: &str) -> (r: Vec<(String, String)>)
    ensures
        keys_unique(r@),
        forall|key: Seq<char>| #[trigger] lookup_spec(r@, key) == sshd_value(lines_spec(content@), key),
{
    let chars = to_chars(content);
    let ls = lines(chars.as_slice());
    let ghost all = views(ls@);
    let mut t: Vec<(String, String)> = Vec::new();
    let mut i: usize = 0;
    while i < ls.len()
        invariant
            i <= ls.len(),
            all == views(ls@),
            keys_unique(t@),
            forall|key: Seq<char>| #[trigger] lookup_spec(t@, key) == sshd_value(all.take(i as int), key),
        decreases ls.len() - i,
    {
        proof {
            assert(all.take(i + 1).drop_last() =~= all.take(i as int));
            assert(all.take(i + 1).last() == ls@[i as int]@);
        }
        match sshd_line(ls[i].as_slice()) {
            Some((k, v)) => {
                if find_key(&t, k.as_str()).is_none() {
                    let ghost before = t@;
                    let ghost kv = k;
                    let ghost vv = v;
                    assert(lookup_spec(before, kv@) is None);
                    upsert(&mut t, k, v);
                    proof {
                        crate::table::lemma_upsert_keeps_unique(before, kv, vv);
                        assert forall|q: Seq<char>| #[trigger] lookup_spec(t@, q) == sshd_value(all.take(i + 1), q) by {
                            crate::table::lemma_upsert_then_lookup(before, kv, vv, q);
                            assert(lookup_spec(before, q) == sshd_value(all.take(i as int), q));
                        }
                    }
                } else {
                    proof {
                        assert forall|q: Seq<char>| #[trigger] lookup_spec(t@, q) == sshd_value(all.take(i + 1), q) by {
                            assert(lookup_spec(t@, q) == sshd_value(all.take(i as int), q));
                        }
                    }
                }
            },
            None => {},
        }
        i = i + 1;
    }
    assert(all.take(ls.len() as int) =~= all);
    t
}

/// The kernel parameters whose values are read, as paths under /proc/sys.
pub open spec fn kernel_param_names_spec() -> Seq<Seq<char>> {
    seq![
        "kernel/randomize_va_space"@,
        "kernel/dmesg_restrict"@,
        "kernel/kptr_restrict"@,
        "kernel/core_uses_pid"@,
        "kernel/perf_event_paranoid"@,
        "fs/suid_dumpable"@,
        "net/ipv4/ip_forward"@,
        "net/ipv4/tcp_syncookies"@,
        "net/ipv4/conf/all/accept_redirects"@,
        "net/ipv4/conf/all/accept_source_route"@,
        "net/ipv4/conf/all/log_martians"@,
        "net/ipv4/conf/all/rp_filter"@,
        "net/ipv6/conf/all/accept_redirects"@,
        "net/ipv6/conf/all/disable_ipv6"@,
    ]
}

/// The kernel parameters whose values are read, as paths under /proc/sys.
pub fn kernel_param_names() -> (r: Vec<&'static str>)
    ensures
        r@.map_values(|s: &str| s@) == kernel_param_names_spec(),
{
    let mut r: Vec<&'static str> = Vec::new();
    r.push("kernel/randomize_va_space");
    r.push("kernel/dmesg_restrict");
    r.push("kernel/kptr_restrict");
    r.push("kernel/core_uses_pid");
    r.push("kernel/perf_event_paranoid");
    r.push("fs/suid_dumpable");
    r.push("net/ipv4/ip_forward");
    r.push("net/ipv4/tcp_syncookies");
    r.push("net/ipv4/conf/all/accept_redirects");
    r.push("net/ipv4/conf/all/accept_source_route");
    r.push("net/ipv4/conf/all/log_martians");
    r.push("net/ipv4/conf/all/rp_filter");
    r.push("net/ipv6/conf/all/accept_redirects");
    r.push("net/ipv6/conf/all/disable_ipv6");
    assert(r@.map_values(|s: &str| s@) =~= kernel_param_names_spec());
    r
}

/// Records the value read for a kernel parameter: the file's contents,
/// trimmed, under the parameter's name.
pub fn record_kernel_param(params: &mut Vec<(String, String)>, name: &str, content: &str)
    ensures
        keys_unique(old(params)@) ==> keys_unique(final(params)@),
        keys_unique(old(params)@) ==> lookup_spec(final(params)@, name@) == Some(trim_spec(content@)),
        keys_unique(old(params)@) ==> forall|q: Seq<char>|
            q != name@ ==> #[trigger] lookup_spec(final(params)@, q) == lookup_spec(old(params)@, q),
{
    let chars = to_chars(content);
    let v = trim(chars.as_slice());
    let key = crate::text::owned(name);
    let val = crate::text::from_chars(v.as_slice());
    let ghost before = params@;
    let ghost kv = key;
    let ghost vv = val;
    upsert(params, key, val);
    proof {
        if keys_unique(before) {
            crate::table::lemma_upsert_keeps_unique(before, kv, vv);
            crate::table::lemma_upsert_then_lookup(before, kv, vv, name@);
            assert forall|q: Seq<char>| q != name@ implies #[trigger] lookup_spec(params@, q) == lookup_spec(before, q) by {
                crate::table::lemma_upsert_then_lookup(before, kv, vv, q);
            }
        }
    }
}

/// The value read for kernel parameter `q` from the files `files` (each a
/// parameter's name and the contents of its file, in reading order): the
/// trimmed contents of the last file of that name; none where no file of
/// that name was read.
pub open spec fn kernel_value_read(files: Seq<(String, String)>, q: Seq<char>) -> Option<Seq<char>>
    decreases files.len(),
{
    if files.len() == 0 {
        None
    } else if files.last().0@ == q {
        Some(trim_spec(files.last().1@))
    } else {
        kernel_value_read(files.drop_last(), q)
    }
}

/// The table of kernel parameters from the files that could be read, each
/// given as its parameter's name and its contents: no name twice, and each
/// with the trimmed value read for it.
pub fn read_kernel_params(files: &Vec<(String, String)>) -> (r: Vec<(String, String)>)
    ensures
        keys_unique(r@),
        forall|q: Seq<char>| #[trigger] lookup_spec(r@, q) == kernel_value_read(files@, q),
{
    let mut t: Vec<(String, String)> = Vec::new();
    let mut i: usize = 0;
    while i < files.len()
        invariant
            i <= files.len(),
            keys_unique(t@),
            forall|q: Seq<char>| #[trigger] lookup_spec(t@, q) == kernel_value_read(files@.take(i as int), q),
        decreases files.len() - i,
    {
        proof {
            assert(files@.take(i + 1).drop_last() =~= files@.take(i as int));
            assert(files@.take(i + 1).last() == files@[i as int]);
        }
        let ghost before = t@;
        record_kernel_param(&mut t, files[i].0.as_str(), files[i].1.as_str());
        proof {
            assert forall|q: Seq<char>| #[trigger] lookup_spec(t@, q) == kernel_value_read(files@.take(i + 1), q) by {
                if q != files@[i as int].0@ {
                    assert(lookup_spec(t@, q) == lookup_spec(before, q));
                }
            }
        }
        i = i + 1;
    }
    assert(files@.take(files.len() as int) =~= files@);
    t
}

} // verus!
