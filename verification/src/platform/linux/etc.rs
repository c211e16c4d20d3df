//! The configuration files under `/etc`: release, domain, accounts, PAM
//! policies, resolver, and the package list.
use vstd::prelude::*;

use crate::models::system_info::{lookup, lookup_spec, LockoutPolicy, PasswordPolicy};
use crate::table::{keys_unique, upsert, value_of};
use crate::text::{
    has_prefix, lines, str_contains, lines_spec, owned, slice_to_vec, split, split_once, split_once_spec,
    split_spec, starts_with, to_chars, trim, trim_any, trim_any_spec, trim_spec, views, Sep,
};

verus! {

// ---------------------------------------------------------------------------
// os-release
// ---------------------------------------------------------------------------

/// The value that the lines `ls` of an os-release file give `key`: that of
/// the last line `key=value`, without the double quotes around it.
pub open spec fn release_value(ls: Seq<Seq<char>>, key: Seq<char>) -> Option<Seq<char>>
    decreases ls.len(),
{
    if ls.len() == 0 {
        None
    } else {
        match split_once_spec(ls.last(), '=') {
            Some((k, v)) if k == key => Some(trim_any_spec(v, seq!['"'])),
            _ => release_value(ls.drop_last(), key),
        }
    }
}

/// The keys and values of an os-release file, as a table in which each key
/// occurs once and gives the value of its last line.
pub fn read_os_release(content: &str) -> (r: Vec<(String, String)>)
    ensures
        keys_unique(r@),
        forall|key: Seq<char>| #[trigger] lookup_spec(r@, key) == release_value(lines_spec(content@), key),
{
    let chars = to_chars(content);
    let ls = lines(chars.as_slice());
    let ghost all = views(ls@);
    let mut t: Vec<(String, String)> = Vec::new();
    let mut i: usize = 0;
    while i < ls.len()
        invariant
            i <= ls.len(),
            all == views(ls@),
            all == lines_spec(content@),
            keys_unique(t@),
            forall|key: Seq<char>| #[trigger] lookup_spec(t@, key) == release_value(all.take(i as int), key),
        decreases ls.len() - i,
    {
        proof {
            assert(all.take(i + 1).drop_last() =~= all.take(i as int));
            assert(all.take(i + 1).last() == ls@[i as int]@);
        }
        match split_once(ls[i].as_slice(), '=') {
            Some((k, v)) => {
                let key = crate::text::from_chars(k.as_slice());
                let quote: [char; 1] = ['"'];
                let val_chars = trim_any(v.as_slice(), quote.as_slice());
                assert(quote@ =~= seq!['"']);
                let val = crate::text::from_chars(val_chars.as_slice());
                let ghost before = t@;
                let ghost kv = key;
                let ghost vv = val;
                upsert(&mut t, key, val);
                proof {
                    crate::table::lemma_upsert_keeps_unique(before, kv, vv);
                    assert(split_once_spec(all.take(i + 1).last(), '=') == Some((kv@, v@)));
                    assert(vv@ == trim_any_spec(v@, seq!['"']));
                    assert forall|q: Seq<char>| #[trigger] lookup_spec(t@, q) == release_value(all.take(i + 1), q) by {
                        crate::table::lemma_upsert_then_lookup(before, kv, vv, q);
                        if q == kv@ {
                            assert(release_value(all.take(i + 1), q) == Some(vv@));
                            assert(lookup_spec(t@, q) == Some(vv@));
                        } else {
                            assert(release_value(all.take(i + 1), q) == release_value(all.take(i as int), q));
                            assert(lookup_spec(before, q) == release_value(all.take(i as int), q));
                            assert(lookup_spec(t@, q) == lookup_spec(before, q));
                        }
                    }
                }
            },
            None => {},
        }
        i = i + 1;
    }
    assert(all.take(ls.len() as int) =~= all);
    t
}

/// The operating system's name from an os-release table: `PRETTY_NAME`,
/// else `NAME`, else `Linux`.
pub open spec fn release_name_spec(t: Seq<(String, String)>) -> Seq<char> {
    match lookup_spec(t, "PRETTY_NAME"@) {
        Some(v) => v,
        None => match lookup_spec(t, "NAME"@) {
            Some(v) => v,
            None => "Linux"@,
        },
    }
}

/// The operating system's name from an os-release table.
pub fn release_name(t: &Vec<(String, String)>) -> (r: String)
    ensures
        r@ == release_name_spec(t@),
{
    match lookup(t, "PRETTY_NAME") {
        Some(v) => owned(v.as_str()),
        None => match lookup(t, "NAME") {
            Some(v) => owned(v.as_str()),
            None => owned("Linux"),
        },
    }
}

/// The operating system's version from an os-release table: `VERSION_ID`,
/// else empty.
pub fn release_version(t: &Vec<(String, String)>) -> (r: String)
    ensures
        r@ == match lookup_spec(t@, "VERSION_ID"@) {
            Some(v) => v,
            None => Seq::<char>::empty(),
        },
{
    match lookup(t, "VERSION_ID") {
        Some(v) => owned(v.as_str()),
        None => String::new(),
    }
}

// ---------------------------------------------------------------------------
// Domain and resolver
// ---------------------------------------------------------------------------

/// The first line of `ls` that, trimmed, starts with `prefix`; trimmed.
pub open spec fn first_trimmed_with_prefix(ls: Seq<Seq<char>>, prefix: Seq<char>) -> Option<Seq<char>>
    decreases ls.len(),
{
    if ls.len() == 0 {
        None
    } else if has_prefix(trim_spec(ls[0]), prefix) {
        Some(trim_spec(ls[0]))
    } else {
        first_trimmed_with_prefix(ls.drop_first(), prefix)
    }
}

fn first_line_with_prefix(ls: &Vec<Vec<char>>, prefix: &str) -> (r: Option<Vec<char>>)
    ensures
        match r {
            Some(l) => first_trimmed_with_prefix(views(ls@), prefix@) == Some(l@) && has_prefix(
                l@,
                prefix@,
            ),
            None => first_trimmed_with_prefix(views(ls@), prefix@) is None,
        },
{
    let p = to_chars(prefix);
    let ghost all = views(ls@);
    let mut i: usize = 0;
    assert(all.skip(0) =~= all);
    while i < ls.len()
        invariant
            i <= ls.len(),
            all == views(ls@),
            p@ == prefix@,
            first_trimmed_with_prefix(all, prefix@) == first_trimmed_with_prefix(all.skip(i as int), prefix@),
        decreases ls.len() - i,
    {
        let t = trim(ls[i].as_slice());
        assert(all.skip(i as int)[0] == ls@[i as int]@);
        if starts_with(t.as_slice(), p.as_slice()) {
            return Some(t);
        }
        assert(all.skip(i as int).drop_first() =~= all.skip(i + 1));
        i = i + 1;
    }
    None
}

/// The domain that a `default_realm` line of krb5.conf gives: the text after
/// its first `=` and up to the next `=`, trimmed; none without `=`.
pub open spec fn realm_of(line: Seq<char>) -> Option<Seq<char>> {
    let parts = split_spec(line, Sep::Char('='));
    if parts.len() >= 2 {
        Some(trim_spec(parts[1]))
    } else {
        None
    }
}

/// The host's domain: the Kerberos default realm where krb5.conf has a
/// `default_realm` line (which decides even when it holds no `=`), else the
/// `domain` entry of resolv.conf, else none. An absent file is `None`.
pub open spec fn domain_spec(krb5_conf: Option<Seq<char>>, resolv_conf: Option<Seq<char>>) -> Option<Seq<char>> {
    let krb = match krb5_conf {
        Some(c) => first_trimmed_with_prefix(lines_spec(c), "default_realm"@),
        None => None,
    };
    match krb {
        Some(line) => realm_of(line),
        None => match resolv_conf {
            Some(c) => match first_trimmed_with_prefix(lines_spec(c), "domain "@) {
                Some(line) => Some(trim_spec(line.skip(7))),
                None => None,
            },
            None => None,
        },
    }
}

/// The host's domain from the contents of krb5.conf and resolv.conf.
pub fn read_domain(krb5_conf: Option<&str>, resolv_conf: Option<&str>) -> (r: Option<String>)
    ensures
        match r {
            Some(d) => domain_spec(opt_str_view(krb5_conf), opt_str_view(resolv_conf)) == Some(d@),
            None => domain_spec(opt_str_view(krb5_conf), opt_str_view(resolv_conf)) is None,
        },
{
    match krb5_conf {
        Some(c) => {
            let chars = to_chars(c);
            let ls = lines(chars.as_slice());
            match first_line_with_prefix(&ls, "default_realm") {
                Some(line) => {
                    let parts = split(line.as_slice(), &Sep::Char('='));
                    if parts.len() >= 2 {
                        assert(views(parts@)[1] == parts@[1]@);
                        let v = trim(parts[1].as_slice());
                        return Some(crate::text::from_chars(v.as_slice()));
                    } else {
                        return None;
                    }
                },
                None => {},
            }
        },
        None => {},
    }
    match resolv_conf {
        Some(c) => {
            let chars = to_chars(c);
            let ls = lines(chars.as_slice());
            match first_line_with_prefix(&ls, "domain ") {
                Some(line) => {
                    proof {
                        reveal_strlit("domain ");
                    }
                    let rest = slice_to_vec(line.as_slice(), 7, line.len());
                    assert(rest@ =~= line@.skip(7));
                    let v = trim(rest.as_slice());
                    Some(crate::text::from_chars(v.as_slice()))
                },
                None => None,
            }
        },
        None => None,
    }
}

/// The view of an optional string slice.
pub open spec fn opt_str_view(o: Option<&str>) -> Option<Seq<char>> {
    match o {
        Some(s) => Some(s@),
        None => None,
    }
}

/// The name servers of resolv.conf lines: the text after `nameserver ` of
/// each line that, trimmed, starts with it, trimmed again.
pub open spec fn nameservers_of(ls: Seq<Seq<char>>) -> Seq<Seq<char>>
    decreases ls.len(),
{
    if ls.len() == 0 {
        Seq::empty()
    } else if has_prefix(trim_spec(ls.last()), "nameserver "@) {
        nameservers_of(ls.drop_last()).push(trim_spec(trim_spec(ls.last()).skip(11)))
    } else {
        nameservers_of(ls.drop_last())
    }
}

/// The name servers listed in the contents of resolv.conf.
pub fn read_dns_servers(resolv_conf: &str) -> (r: Vec<String>)
    ensures
        r@.map_values(|s: String| s@) == nameservers_of(lines_spec(resolv_conf@)),
{
    let chars = to_chars(resolv_conf);
    let ls = lines(chars.as_slice());
    let ghost all = views(ls@);
    let p = to_chars("nameserver ");
    let mut out: Vec<String> = Vec::new();
    let mut i: usize = 0;
    while i < ls.len()
        invariant
            i <= ls.len(),
            all == views(ls@),
            p@ == "nameserver "@,
            out@.map_values(|s: String| s@) == nameservers_of(all.take(i as int)),
        decreases ls.len() - i,
    {
        proof {
            assert(all.take(i + 1).drop_last() =~= all.take(i as int));
            assert(all.take(i + 1).last() == ls@[i as int]@);
        }
        let t = trim(ls[i].as_slice());
        if starts_with(t.as_slice(), p.as_slice()) {
            proof {
                reveal_strlit("nameserver ");
            }
            let rest = slice_to_vec(t.as_slice(), 11, t.len());
            assert(rest@ =~= t@.skip(11));
            let v = trim(rest.as_slice());
            let ghost before = out@.map_values(|s: String| s@);
            out.push(crate::text::from_chars(v.as_slice()));
            assert(out@.map_values(|s: String| s@) =~= before.push(v@));
        }
        i = i + 1;
    }
    assert(all.take(ls.len() as int) =~= all);
    out
}

// ---------------------------------------------------------------------------
// Accounts: shadow, group, passwd
// ---------------------------------------------------------------------------

/// The part of a shadow entry that the account checks read.
#[derive(Debug)]
pub struct ShadowEntry {
    pub password_hash: String,
    pub max_days: Option<i64>,
}

/// The view of a shadow entry: its hash and its maximum password age.
pub open spec fn shadow_view(e: ShadowEntry) -> (Seq<char>, Option<i64>) {
    (e.password_hash@, e.max_days)
}

/// The entry of `name` in a shadow table.
pub open spec fn shadow_lookup(t: Seq<(String, ShadowEntry)>, name: Seq<char>) -> Option<(Seq<char>, Option<i64>)> {
    match value_of(t, name) {
        Some(e) => Some(shadow_view(e)),
        None => None,
    }
}

/// The `i64` that a text gives, if any.
pub open spec fn i64_of(s: Seq<char>) -> Option<i64> {
    match crate::num::parse_signed_spec(s, i64::MAX as nat) {
        Some(v) => Some(v as i64),
        None => None,
    }
}

/// The entry that the lines of /etc/shadow give `name`: that of the last
/// line with at least five `:`-separated fields whose first field is `name`.
pub open spec fn shadow_entry_of(ls: Seq<Seq<char>>, name: Seq<char>) -> Option<(Seq<char>, Option<i64>)>
    decreases ls.len(),
{
    if ls.len() == 0 {
        None
    } else {
        let parts = split_spec(ls.last(), Sep::Char(':'));
        if parts.len() >= 5 && parts[0] == name {
            Some((parts[1], i64_of(parts[4])))
        } else {
            shadow_entry_of(ls.drop_last(), name)
        }
    }
}

/// The entries of /etc/shadow, keyed by user name, each name once.
pub fn parse_shadow(content: &str) -> (r: Vec<(String, ShadowEntry)>)
    ensures
        keys_unique(r@),
        forall|name: Seq<char>| #[trigger] shadow_lookup(r@, name) == shadow_entry_of(lines_spec(content@), name),
{
    let chars = to_chars(content);
    let ls = lines(chars.as_slice());
    let ghost all = views(ls@);
    let mut t: Vec<(String, ShadowEntry)> = Vec::new();
    let mut i: usize = 0;
    while i < ls.len()
        invariant
            i <= ls.len(),
            all == views(ls@),
            keys_unique(t@),
            forall|name: Seq<char>| #[trigger] shadow_lookup(t@, name) == shadow_entry_of(all.take(i as int), name),
        decreases ls.len() - i,
    {
        proof {
            assert(all.take(i + 1).drop_last() =~= all.take(i as int));
            assert(all.take(i + 1).last() == ls@[i as int]@);
        }
        let parts = split(ls[i].as_slice(), &Sep::Char(':'));
        let ghost ps = views(parts@);
        if parts.len() >= 5 {
            assert(ps[0] == parts@[0]@ && ps[1] == parts@[1]@ && ps[4] == parts@[4]@);
            let name = crate::text::from_chars(parts[0].as_slice());
            let hash = crate::text::from_chars(parts[1].as_slice());
            let max_days = crate::num::parse_i64(parts[4].as_slice());
            let entry = ShadowEntry { password_hash: hash, max_days };
            assert(shadow_view(entry) == (ps[1], i64_of(ps[4])));
            let ghost before = t@;
            let ghost nv = name;
            let ghost ev = entry;
            upsert(&mut t, name, entry);
            proof {
                crate::table::lemma_upsert_keeps_unique(before, nv, ev);
                assert forall|q: Seq<char>| #[trigger] shadow_lookup(t@, q) == shadow_entry_of(all.take(i + 1), q) by {
                    crate::table::lemma_upsert_then_lookup(before, nv, ev, q);
                    if q == nv@ {
                        assert(shadow_lookup(t@, q) == Some(shadow_view(ev)));
                    } else {
                        assert(shadow_lookup(before, q) == shadow_entry_of(all.take(i as int), q));
                    }
                }
            }
        }
        i = i + 1;
    }
    assert(all.take(ls.len() as int) =~= all);
    t
}

/// The non-empty trimmed pieces of `ps`, in order.
pub open spec fn trimmed_nonempty(ps: Seq<Seq<char>>) -> Seq<Seq<char>>
    decreases ps.len(),
{
    if ps.len() == 0 {
        Seq::empty()
    } else if trim_spec(ps.last()).len() > 0 {
        trimmed_nonempty(ps.drop_last()).push(trim_spec(ps.last()))
    } else {
        trimmed_nonempty(ps.drop_last())
    }
}

/// Whether a group name is one whose members administer the host.
pub open spec fn is_admin_group(name: Seq<char>) -> bool {
    name == "sudo"@ || name == "wheel"@ || name == "admin"@
}

/// The members of the administrative groups in lines of /etc/group, in
/// order: of each line with at least four `:`-separated fields whose group
/// is `sudo`, `wheel` or `admin`, the non-empty trimmed names of the
/// comma-separated fourth field.
pub open spec fn admins_of(ls: Seq<Seq<char>>) -> Seq<Seq<char>>
    decreases ls.len(),
{
    if ls.len() == 0 {
        Seq::empty()
    } else {
        let parts = split_spec(ls.last(), Sep::Char(':'));
        if parts.len() >= 4 && is_admin_group(parts[0]) {
            admins_of(ls.drop_last()) + trimmed_nonempty(split_spec(parts[3], Sep::Char(',')))
        } else {
            admins_of(ls.drop_last())
        }
    }
}

/// The views of a sequence of strings.
pub open spec fn strings_view(v: Seq<String>) -> Seq<Seq<char>> {
    v.map_values(|s: String| s@)
}

fn push_trimmed_nonempty(out: &mut Vec<String>, pieces: &Vec<Vec<char>>)
    ensures
        strings_view(final(out)@) == strings_view(old(out)@) + trimmed_nonempty(views(pieces@)),
{
    let ghost start = strings_view(out@);
    let ghost all = views(pieces@);
    let mut i: usize = 0;
    while i < pieces.len()
        invariant
            i <= pieces.len(),
            all == views(pieces@),
            strings_view(out@) == start + trimmed_nonempty(all.take(i as int)),
        decreases pieces.len() - i,
    {
        proof {
            assert(all.take(i + 1).drop_last() =~= all.take(i as int));
            assert(all.take(i + 1).last() == pieces@[i as int]@);
        }
        let m = trim(pieces[i].as_slice());
        if m.len() > 0 {
            let ghost before = strings_view(out@);
            out.push(crate::text::from_chars(m.as_slice()));
            assert(strings_view(out@) =~= before.push(m@));
        }
        i = i + 1;
    }
    assert(all.take(pieces.len() as int) =~= all);
}

fn is_admin_group_name(name: &[char]) -> (r: bool)
    ensures
        r == is_admin_group(name@),
{
    let n = crate::text::from_chars(name);
    crate::text::str_eq(n.as_str(), "sudo") || crate::text::str_eq(n.as_str(), "wheel")
        || crate::text::str_eq(n.as_str(), "admin")
}

/// The members of the administrative groups listed in /etc/group.
pub fn read_sudo_group(group_file: &str) -> (r: Vec<String>)
    ensures
        strings_view(r@) == admins_of(lines_spec(group_file@)),
{
    let chars = to_chars(group_file);
    let ls = lines(chars.as_slice());
    let ghost all = views(ls@);
    let mut out: Vec<String> = Vec::new();
    let mut i: usize = 0;
    while i < ls.len()
        invariant
            i <= ls.len(),
            all == views(ls@),
            strings_view(out@) == admins_of(all.take(i as int)),
        decreases ls.len() - i,
    {
        proof {
            assert(all.take(i + 1).drop_last() =~= all.take(i as int));
            assert(all.take(i + 1).last() == ls@[i as int]@);
        }
        let parts = split(ls[i].as_slice(), &Sep::Char(':'));
        let ghost ps = views(parts@);
        if parts.len() >= 4 {
            assert(ps[0] == parts@[0]@ && ps[3] == parts@[3]@);
            if is_admin_group_name(parts[0].as_slice()) {
                let members = split(parts[3].as_slice(), &Sep::Char(','));
                push_trimmed_nonempty(&mut out, &members);
            }
        }
        i = i + 1;
    }
    assert(all.take(ls.len() as int) =~= all);
    out
}

/// Whether a line of /etc/passwd describes an account: at least seven
/// `:`-separated fields, the third a `u32`.
pub open spec fn passwd_line_ok(line: Seq<char>) -> bool {
    let parts = split_spec(line, Sep::Char(':'));
    parts.len() >= 7 && crate::num::parse_u32_spec(parts[2]) is Some
}

/// Whether a shadow entry requires a password: its hash is neither `*`,
/// `!` nor empty; an account without an entry requires one.
pub open spec fn password_required_spec(entry: Option<(Seq<char>, Option<i64>)>) -> bool {
    match entry {
        Some((hash, _)) => hash != "*"@ && hash != "!"@ && hash.len() > 0,
        None => true,
    }
}

/// Whether a shadow entry makes the password expire: a maximum age above 0.
pub open spec fn password_expires_spec(entry: Option<(Seq<char>, Option<i64>)>) -> bool {
    match entry {
        Some((_, Some(d))) => d > 0,
        _ => false,
    }
}

/// Whether `u` is the account that a good line of /etc/passwd describes,
/// given the account's shadow entry and the administrators' names: its
/// name and uid, enabled unless its shell ends with `nologin`, `/false` or
/// `/sync`, an administrator if it is named among them or has uid 0.
pub open spec fn describes_passwd_user(
    u: crate::models::system_info::LocalUser,
    line: Seq<char>,
    entry: Option<(Seq<char>, Option<i64>)>,
    admins: Seq<Seq<char>>,
) -> bool {
    let parts = split_spec(line, Sep::Char(':'));
    let uid = crate::num::parse_u32_spec(parts[2]).unwrap();
    let shell = parts[6];
    &&& u.username@ == parts[0]
    &&& u.uid == Some(uid)
    &&& u.enabled == (!crate::text::has_suffix(shell, "nologin"@) && !crate::text::has_suffix(
        shell,
        "/false"@,
    ) && !crate::text::has_suffix(shell, "/sync"@))
    &&& u.is_admin == (admins.contains(parts[0]) || uid == 0)
    &&& u.password_required == password_required_spec(entry)
    &&& u.password_expires == password_expires_spec(entry)
    &&& u.full_name is None
    &&& u.sid is None
    &&& u.password_last_set is None
    &&& u.last_logon is None
    &&& u.groups@.len() == 0
}

fn contains_string(v: &[String], s: &str) -> (r: bool)
    ensures
        r == strings_view(v@).contains(s@),
{
    let mut i: usize = 0;
    while i < v.len()
        invariant
            i <= v.len(),
            forall|j: int| 0 <= j < i ==> v@[j]@ != s@,
        decreases v.len() - i,
    {
        if crate::text::str_eq(v[i].as_str(), s) {
            assert(strings_view(v@)[i as int] == s@);
            return true;
        }
        i = i + 1;
    }
    assert forall|j: int| 0 <= j < strings_view(v@).len() implies strings_view(v@)[j] != s@ by {
        assert(strings_view(v@)[j] == v@[j]@);
    }
    false
}

/// The account that a line of /etc/passwd describes, if it is a good line.
pub fn parse_passwd_line(
    line: &str,
    shadow: &Vec<(String, ShadowEntry)>,
    sudo_members: &[String],
) -> (r: Option<crate::models::system_info::LocalUser>)
    ensures
        match r {
            Some(u) => passwd_line_ok(line@) && describes_passwd_user(
                u,
                line@,
                shadow_lookup(shadow@, split_spec(line@, Sep::Char(':'))[0]),
                strings_view(sudo_members@),
            ),
            None => !passwd_line_ok(line@),
        },
{
    let chars = to_chars(line);
    let parts = split(chars.as_slice(), &Sep::Char(':'));
    let ghost ps = views(parts@);
    if parts.len() < 7 {
        return None;
    }
    assert(ps[0] == parts@[0]@ && ps[2] == parts@[2]@ && ps[6] == parts@[6]@);
    let username = crate::text::from_chars(parts[0].as_slice());
    let uid = match crate::num::parse_u32(parts[2].as_slice()) {
        Some(u) => u,
        None => return None,
    };
    let shell = parts[6].as_slice();
    let s_nologin = to_chars("nologin");
    let s_false = to_chars("/false");
    let s_sync = to_chars("/sync");
    let enabled = !crate::text::ends_with(shell, s_nologin.as_slice()) && !crate::text::ends_with(
        shell,
        s_false.as_slice(),
    ) && !crate::text::ends_with(shell, s_sync.as_slice());
    let is_admin = contains_string(sudo_members, username.as_str()) || uid == 0;
    let (password_required, password_expires) = match crate::table::find_key(shadow, username.as_str()) {
        Some(k) => {
            let e = &shadow[k].1;
            let h = e.password_hash.as_str();
            proof {
                reveal_strlit("");
            }
            let req = !crate::text::str_eq(h, "*") && !crate::text::str_eq(h, "!") && !crate::text::str_eq(h, "");
            assert(h@.len() == 0 ==> h@ =~= ""@);
            assert(value_of(shadow@, username@) == Some(shadow@[k as int].1));
            assert(shadow_lookup(shadow@, username@) == Some(shadow_view(*e)));
            assert(req == password_required_spec(shadow_lookup(shadow@, username@)));
            let exp = match e.max_days {
                Some(d) => d > 0,
                None => false,
            };
            (req, exp)
        },
        None => (true, false),
    };
    let ghost entry = shadow_lookup(shadow@, ps[0]);
    assert(password_required == password_required_spec(entry));
    assert(password_expires == password_expires_spec(entry));
    assert(is_admin == (strings_view(sudo_members@).contains(ps[0]) || uid == 0));
    assert(uid == crate::num::parse_u32_spec(ps[2]).unwrap());
    Some(
        crate::models::system_info::LocalUser {
            username,
            full_name: None,
            sid: None,
            uid: Some(uid),
            enabled,
            password_required,
            password_expires,
            password_last_set: None,
            last_logon: None,
            groups: Vec::new(),
            is_admin,
        },
    )
}

/// The good lines of /etc/passwd, in order.
pub open spec fn passwd_accounts(ls: Seq<Seq<char>>) -> Seq<Seq<char>>
    decreases ls.len(),
{
    if ls.len() == 0 {
        Seq::empty()
    } else if passwd_line_ok(ls.last()) {
        passwd_accounts(ls.drop_last()).push(ls.last())
    } else {
        passwd_accounts(ls.drop_last())
    }
}

/// The local accounts from the contents of /etc/passwd, /etc/shadow and
/// /etc/group: one per good passwd line, in order.
pub fn read_passwd_users(passwd: &str, shadow_file: &str, group_file: &str) -> (r: Vec<
    crate::models::system_info::LocalUser,
>)
    ensures
        r@.len() == passwd_accounts(lines_spec(passwd@)).len(),
        forall|k: int|
            0 <= k < r@.len() ==> {
                let line = passwd_accounts(lines_spec(passwd@))[k];
                let name = split_spec(line, Sep::Char(':'))[0];
                describes_passwd_user(
                    #[trigger] r@[k],
                    line,
                    shadow_entry_of(lines_spec(shadow_file@), name),
                    admins_of(lines_spec(group_file@)),
                )
            },
{
    let shadow = parse_shadow(shadow_file);
    let admins = read_sudo_group(group_file);
    let chars = to_chars(passwd);
    let ls = lines(chars.as_slice());
    let ghost all = views(ls@);
    let mut out: Vec<crate::models::system_info::LocalUser> = Vec::new();
    let mut i: usize = 0;
    while i < ls.len()
        invariant
            i <= ls.len(),
            all == views(ls@),
            all == lines_spec(passwd@),
            forall|name: Seq<char>| #[trigger] shadow_lookup(shadow@, name) == shadow_entry_of(lines_spec(shadow_file@), name),
            strings_view(admins@) == admins_of(lines_spec(group_file@)),
            out@.len() == passwd_accounts(all.take(i as int)).len(),
            forall|k: int|
                0 <= k < out@.len() ==> {
                    let line = passwd_accounts(all.take(i as int))[k];
                    let name = split_spec(line, Sep::Char(':'))[0];
                    describes_passwd_user(
                        #[trigger] out@[k],
                        line,
                        shadow_entry_of(lines_spec(shadow_file@), name),
                        admins_of(lines_spec(group_file@)),
                    )
                },
        decreases ls.len() - i,
    {
        proof {
            assert(all.take(i + 1).drop_last() =~= all.take(i as int));
            assert(all.take(i + 1).last() == ls@[i as int]@);
        }
        let line = crate::text::from_chars(ls[i].as_slice());
        let ghost prev = passwd_accounts(all.take(i as int));
        match parse_passwd_line(line.as_str(), &shadow, admins.as_slice()) {
            Some(u) => {
                let ghost name = split_spec(line@, Sep::Char(':'))[0];
                assert(shadow_lookup(shadow@, name) == shadow_entry_of(lines_spec(shadow_file@), name));
                out.push(u);
                assert(passwd_accounts(all.take(i + 1)) == prev.push(line@));
            },
            None => {},
        }
        i = i + 1;
    }
    assert(all.take(ls.len() as int) =~= all);
    out
}

// ---------------------------------------------------------------------------
// PAM policies
// ---------------------------------------------------------------------------

/// Whether a trimmed configuration line is a comment or empty.
pub open spec fn is_blank_or_comment(t: Seq<char>) -> bool {
    t.len() == 0 || t[0] == '#'
}

/// The `i32` that a text gives, 0 where it gives none.
pub open spec fn i32_or_zero(s: Seq<char>) -> int {
    match crate::num::parse_signed_spec(s, i32::MAX as nat) {
        Some(v) => v,
        None => 0,
    }
}

/// The policy after one line of pwquality.conf: `minlen` sets the minimum
/// length, a negative `dcredit`, `ucredit`, `ocredit` or `lcredit` requires
/// complexity, `remember` sets the history; other lines change nothing.
pub open spec fn pwquality_step(p: PasswordPolicy, line: Seq<char>) -> PasswordPolicy {
    let t = trim_spec(line);
    if is_blank_or_comment(t) {
        p
    } else {
        match split_once_spec(t, '=') {
            Some((k0, v0)) => {
                let k = trim_spec(k0);
                let v = trim_spec(v0);
                if k == "minlen"@ {
                    PasswordPolicy { min_length: crate::num::parse_u32_spec(v), ..p }
                } else if k == "dcredit"@ || k == "ucredit"@ || k == "ocredit"@ || k == "lcredit"@ {
                    if i32_or_zero(v) < 0 {
                        PasswordPolicy { complexity_required: Some(true), ..p }
                    } else {
                        p
                    }
                } else if k == "remember"@ {
                    PasswordPolicy { history_count: crate::num::parse_u32_spec(v), ..p }
                } else {
                    p
                }
            },
            None => p,
        }
    }
}

/// The policy after one line of login.defs: `PASS_MAX_DAYS` and
/// `PASS_MIN_DAYS` set the ages, `PASS_MIN_LEN` the minimum length where
/// pwquality.conf set none; other lines change nothing.
pub open spec fn login_defs_step(p: PasswordPolicy, line: Seq<char>) -> PasswordPolicy {
    let t = trim_spec(line);
    let parts = crate::text::fields_spec(t, Sep::Whitespace);
    if is_blank_or_comment(t) || parts.len() < 2 {
        p
    } else if parts[0] == "PASS_MAX_DAYS"@ {
        PasswordPolicy { max_age_days: crate::num::parse_u32_spec(parts[1]), ..p }
    } else if parts[0] == "PASS_MIN_DAYS"@ {
        PasswordPolicy { min_age_days: crate::num::parse_u32_spec(parts[1]), ..p }
    } else if parts[0] == "PASS_MIN_LEN"@ && p.min_length is None {
        PasswordPolicy { min_length: crate::num::parse_u32_spec(parts[1]), ..p }
    } else {
        p
    }
}

pub open spec fn pwquality_fold(p: PasswordPolicy, ls: Seq<Seq<char>>) -> PasswordPolicy
    decreases ls.len(),
{
    if ls.len() == 0 {
        p
    } else {
        pwquality_step(pwquality_fold(p, ls.drop_last()), ls.last())
    }
}

pub open spec fn login_defs_fold(p: PasswordPolicy, ls: Seq<Seq<char>>) -> PasswordPolicy
    decreases ls.len(),
{
    if ls.len() == 0 {
        p
    } else {
        login_defs_step(login_defs_fold(p, ls.drop_last()), ls.last())
    }
}

/// The password policy from the contents of pwquality.conf and login.defs
/// (an absent file is `None`): pwquality.conf first, then login.defs.
pub open spec fn password_policy_spec(pwquality: Option<Seq<char>>, login_defs: Option<Seq<char>>) -> PasswordPolicy {
    let p = match pwquality {
        Some(c) => pwquality_fold(PasswordPolicy::empty_spec(), lines_spec(c)),
        None => PasswordPolicy::empty_spec(),
    };
    match login_defs {
        Some(c) => login_defs_fold(p, lines_spec(c)),
        None => p,
    }
}

fn key_is(k: &[char], name: &str) -> (r: bool)
    ensures
        r == (k@ == name@),
{
    let s = crate::text::from_chars(k);
    crate::text::str_eq(s.as_str(), name)
}

fn apply_pwquality_line(p: PasswordPolicy, line: &[char]) -> (r: PasswordPolicy)
    ensures
        r == pwquality_step(p, line@),
{
    let t = trim(line);
    if t.len() == 0 || t[0] == '#' {
        return p;
    }
    match split_once(t.as_slice(), '=') {
        Some((k0, v0)) => {
            let k = trim(k0.as_slice());
            let v = trim(v0.as_slice());
            if key_is(k.as_slice(), "minlen") {
                PasswordPolicy { min_length: crate::num::parse_u32(v.as_slice()), ..p }
            } else if key_is(k.as_slice(), "dcredit") || key_is(k.as_slice(), "ucredit") || key_is(
                k.as_slice(),
                "ocredit",
            ) || key_is(k.as_slice(), "lcredit") {
                let n: i32 = match crate::num::parse_i32(v.as_slice()) {
                    Some(x) => x,
                    None => 0,
                };
                if n < 0 {
                    PasswordPolicy { complexity_required: Some(true), ..p }
                } else {
                    p
                }
            } else if key_is(k.as_slice(), "remember") {
                PasswordPolicy { history_count: crate::num::parse_u32(v.as_slice()), ..p }
            } else {
                p
            }
        },
        None => p,
    }
}

fn apply_login_defs_line(p: PasswordPolicy, line: &[char]) -> (r: PasswordPolicy)
    ensures
        r == login_defs_step(p, line@),
{
    let t = trim(line);
    let parts = crate::text::fields(t.as_slice(), &Sep::Whitespace);
    let ghost ps = views(parts@);
    if t.len() == 0 || t[0] == '#' || parts.len() < 2 {
        return p;
    }
    assert(ps[0] == parts@[0]@ && ps[1] == parts@[1]@);
    if key_is(parts[0].as_slice(), "PASS_MAX_DAYS") {
        PasswordPolicy { max_age_days: crate::num::parse_u32(parts[1].as_slice()), ..p }
    } else if key_is(parts[0].as_slice(), "PASS_MIN_DAYS") {
        PasswordPolicy { min_age_days: crate::num::parse_u32(parts[1].as_slice()), ..p }
    } else if key_is(parts[0].as_slice(), "PASS_MIN_LEN") && p.min_length.is_none() {
        PasswordPolicy { min_length: crate::num::parse_u32(parts[1].as_slice()), ..p }
    } else {
        p
    }
}

/// The password policy from the contents of pwquality.conf and login.defs.
pub fn read_pam_password_policy(pwquality: Option<&str>, login_defs: Option<&str>) -> (r: PasswordPolicy)
    ensures
        r == password_policy_spec(opt_str_view(pwquality), opt_str_view(login_defs)),
{
    let mut p = PasswordPolicy::default();
    match pwquality {
        Some(c) => {
            let chars = to_chars(c);
            let ls = lines(chars.as_slice());
            let ghost all = views(ls@);
            let mut i: usize = 0;
            while i < ls.len()
                invariant
                    i <= ls.len(),
                    all == views(ls@),
                    p == pwquality_fold(PasswordPolicy::empty_spec(), all.take(i as int)),
                decreases ls.len() - i,
            {
                proof {
                    assert(all.take(i + 1).drop_last() =~= all.take(i as int));
                    assert(all.take(i + 1).last() == ls@[i as int]@);
                }
                p = apply_pwquality_line(p, ls[i].as_slice());
                i = i + 1;
            }
            assert(all.take(ls.len() as int) =~= all);
        },
        None => {},
    }
    let ghost start = p;
    match login_defs {
        Some(c) => {
            let chars = to_chars(c);
            let ls = lines(chars.as_slice());
            let ghost all = views(ls@);
            let mut i: usize = 0;
            while i < ls.len()
                invariant
                    i <= ls.len(),
                    all == views(ls@),
                    p == login_defs_fold(start, all.take(i as int)),
                decreases ls.len() - i,
            {
                proof {
                    assert(all.take(i + 1).drop_last() =~= all.take(i as int));
                    assert(all.take(i + 1).last() == ls@[i as int]@);
                }
                p = apply_login_defs_line(p, ls[i].as_slice());
                i = i + 1;
            }
            assert(all.take(ls.len() as int) =~= all);
        },
        None => {},
    }
    p
}

/// The lockout policy after one line of faillock.conf: `deny` sets the
/// threshold, `unlock_time` and `fail_interval` (in seconds) the duration
/// and the observation window in whole minutes; other lines change nothing.
pub open spec fn faillock_step(p: LockoutPolicy, line: Seq<char>) -> LockoutPolicy {
    let t = trim_spec(line);
    if is_blank_or_comment(t) {
        p
    } else {
        match split_once_spec(t, '=') {
            Some((k0, v0)) => {
                let k = trim_spec(k0);
                let v = trim_spec(v0);
                if k == "deny"@ {
                    LockoutPolicy { threshold: crate::num::parse_u32_spec(v), ..p }
                } else if k == "unlock_time"@ {
                    LockoutPolicy { duration_minutes: minutes_of(crate::num::parse_u32_spec(v)), ..p }
                } else if k == "fail_interval"@ {
                    LockoutPolicy {
                        observation_window_minutes: minutes_of(crate::num::parse_u32_spec(v)),
                        ..p
                    }
                } else {
                    p
                }
            },
            None => p,
        }
    }
}

/// Whole minutes of a number of seconds.
pub open spec fn minutes_of(secs: Option<u32>) -> Option<u32> {
    match secs {
        Some(s) => Some((s / 60) as u32),
        None => None,
    }
}

pub open spec fn faillock_fold(ls: Seq<Seq<char>>) -> LockoutPolicy
    decreases ls.len(),
{
    if ls.len() == 0 {
        LockoutPolicy::empty_spec()
    } else {
        faillock_step(faillock_fold(ls.drop_last()), ls.last())
    }
}

fn apply_faillock_line(p: LockoutPolicy, line: &[char]) -> (r: LockoutPolicy)
    ensures
        r == faillock_step(p, line@),
{
    let t = trim(line);
    if t.len() == 0 || t[0] == '#' {
        return p;
    }
    match split_once(t.as_slice(), '=') {
        Some((k0, v0)) => {
            let k = trim(k0.as_slice());
            let v = trim(v0.as_slice());
            let secs = crate::num::parse_u32(v.as_slice());
            let mins: Option<u32> = match secs {
                Some(x) => Some(x / 60),
                None => None,
            };
            if key_is(k.as_slice(), "deny") {
                LockoutPolicy { threshold: secs, ..p }
            } else if key_is(k.as_slice(), "unlock_time") {
                LockoutPolicy { duration_minutes: mins, ..p }
            } else if key_is(k.as_slice(), "fail_interval") {
                LockoutPolicy { observation_window_minutes: mins, ..p }
            } else {
                p
            }
        },
        None => p,
    }
}

/// The lockout policy from the contents of faillock.conf (`None` where the
/// file is absent: nothing is set).
pub fn read_pam_lockout_policy(faillock: Option<&str>) -> (r: LockoutPolicy)
    ensures
        r == match opt_str_view(faillock) {
            Some(c) => faillock_fold(lines_spec(c)),
            None => LockoutPolicy::empty_spec(),
        },
{
    let mut p = LockoutPolicy::default();
    match faillock {
        Some(c) => {
            let chars = to_chars(c);
            let ls = lines(chars.as_slice());
            let ghost all = views(ls@);
            let mut i: usize = 0;
            while i < ls.len()
                invariant
                    i <= ls.len(),
                    all == views(ls@),
                    p == faillock_fold(all.take(i as int)),
                decreases ls.len() - i,
            {
                proof {
                    assert(all.take(i + 1).drop_last() =~= all.take(i as int));
                    assert(all.take(i + 1).last() == ls@[i as int]@);
                }
                p = apply_faillock_line(p, ls[i].as_slice());
                i = i + 1;
            }
            assert(all.take(ls.len() as int) =~= all);
        },
        None => {},
    }
    p
}

// ---------------------------------------------------------------------------
// Packages and cron
// ---------------------------------------------------------------------------

/// Words whose presence in a package name marks an antivirus or EDR product.
pub open spec fn av_keywords() -> Seq<Seq<char>> {
    seq!["clamav"@, "sophos"@, "eset"@, "avast"@, "kaspersky"@, "trend"@, "crowdstrike"@, "sentinel"@, "cylance"@, "carbon"@, "defender"@, "rkhunter"@, "chkrootkit"@]
}

/// Whether a package is an antivirus or EDR product: its lowercase name
/// contains one of `av_keywords`.
pub open spec fn is_av_package_spec(name: Seq<char>) -> bool {
    exists|i: int| 0 <= i < av_keywords().len() && crate::text::contains_seq(
        crate::text::unicode_lowercase(name),
        #[trigger] av_keywords()[i],
    )
}

/// Whether a package is an antivirus or EDR product.
pub fn is_av_package(name: &str) -> (r: bool)
    ensures
        r == is_av_package_spec(name@),
{
    let lower = crate::text::to_lowercase(name);
    let r = str_contains(lower.as_str(), "clamav")
        || str_contains(lower.as_str(), "sophos")
        || str_contains(lower.as_str(), "eset")
        || str_contains(lower.as_str(), "avast")
        || str_contains(lower.as_str(), "kaspersky")
        || str_contains(lower.as_str(), "trend")
        || str_contains(lower.as_str(), "crowdstrike")
        || str_contains(lower.as_str(), "sentinel")
        || str_contains(lower.as_str(), "cylance")
        || str_contains(lower.as_str(), "carbon")
        || str_contains(lower.as_str(), "defender")
        || str_contains(lower.as_str(), "rkhunter")
        || str_contains(lower.as_str(), "chkrootkit");
    proof {
        let ks = av_keywords();
        assert(ks[0] == "clamav"@);
        assert(ks[1] == "sophos"@);
        assert(ks[2] == "eset"@);
        assert(ks[3] == "avast"@);
        assert(ks[4] == "kaspersky"@);
        assert(ks[5] == "trend"@);
        assert(ks[6] == "crowdstrike"@);
        assert(ks[7] == "sentinel"@);
        assert(ks[8] == "cylance"@);
        assert(ks[9] == "carbon"@);
        assert(ks[10] == "defender"@);
        assert(ks[11] == "rkhunter"@);
        assert(ks[12] == "chkrootkit"@);
    }
    r
}

/// A line of `dpkg-query` output `name<TAB>version[<TAB>maintainer]`, split:
/// the name, the version and, after a second tab, the maintainer (which
/// keeps any further tabs); `None` without a tab.
pub open spec fn dpkg_fields(line: Seq<char>) -> Option<(Seq<char>, Seq<char>, Option<Seq<char>>)> {
    match split_once_spec(line, '\t') {
        None => None,
        Some((name, rest)) => match split_once_spec(rest, '\t') {
            None => Some((name, rest, None)),
            Some((version, vendor)) => Some((name, version, Some(vendor))),
        },
    }
}

/// Whether `p` is the package that a line of `dpkg-query` output describes.
pub open spec fn describes_package(p: crate::models::system_info::InstalledSoftware, line: Seq<char>) -> bool {
    match dpkg_fields(line) {
        Some((name, version, vendor)) => {
            &&& p.name@ == name
            &&& crate::models::finding::opt_view(p.version) == Some(version)
            &&& crate::models::finding::opt_view(p.vendor) == vendor
            &&& p.install_date is None
            &&& p.install_location is None
            &&& p.is_av_or_edr == is_av_package_spec(name)
        },
        None => false,
    }
}

/// The lines of `dpkg-query` output that describe a package, in order.
pub open spec fn package_lines(ls: Seq<Seq<char>>) -> Seq<Seq<char>>
    decreases ls.len(),
{
    if ls.len() == 0 {
        Seq::empty()
    } else if dpkg_fields(ls.last()) is Some {
        package_lines(ls.drop_last()).push(ls.last())
    } else {
        package_lines(ls.drop_last())
    }
}

fn parse_dpkg_line(line: &[char]) -> (r: Option<crate::models::system_info::InstalledSoftware>)
    ensures
        match r {
            Some(p) => describes_package(p, line@),
            None => dpkg_fields(line@) is None,
        },
{
    match split_once(line, '\t') {
        None => None,
        Some((name, rest)) => {
            let name_s = crate::text::from_chars(name.as_slice());
            let is_av = is_av_package(name_s.as_str());
            let (version, vendor) = match split_once(rest.as_slice(), '\t') {
                None => (crate::text::from_chars(rest.as_slice()), None),
                Some((v, m)) => (
                    crate::text::from_chars(v.as_slice()),
                    Some(crate::text::from_chars(m.as_slice())),
                ),
            };
            Some(
                crate::models::system_info::InstalledSoftware {
                    name: name_s,
                    version: Some(version),
                    vendor,
                    install_date: None,
                    install_location: None,
                    is_av_or_edr: is_av,
                },
            )
        },
    }
}

/// The packages listed by `dpkg-query --show` with the format
/// `${Package}\t${Version}\t${Maintainer}\n`, in order.
pub fn list_installed_packages(output: &str) -> (r: Vec<crate::models::system_info::InstalledSoftware>)
    ensures
        r@.len() == package_lines(lines_spec(output@)).len(),
        forall|k: int| 0 <= k < r@.len() ==> describes_package(#[trigger] r@[k], package_lines(lines_spec(output@))[k]),
{
    let chars = to_chars(output);
    let ls = lines(chars.as_slice());
    let ghost all = views(ls@);
    let mut out: Vec<crate::models::system_info::InstalledSoftware> = Vec::new();
    let mut i: usize = 0;
    while i < ls.len()
        invariant
            i <= ls.len(),
            all == views(ls@),
            out@.len() == package_lines(all.take(i as int)).len(),
            forall|k: int| 0 <= k < out@.len() ==> describes_package(#[trigger] out@[k], package_lines(all.take(i as int))[k]),
        decreases ls.len() - i,
    {
        proof {
            assert(all.take(i + 1).drop_last() =~= all.take(i as int));
            assert(all.take(i + 1).last() == ls@[i as int]@);
        }
        match parse_dpkg_line(ls[i].as_slice()) {
            Some(p) => {
                out.push(p);
            },
            None => {},
        }
        i = i + 1;
    }
    assert(all.take(ls.len() as int) =~= all);
    out
}

/// The names of the antivirus or EDR products among the packages, in order.
pub open spec fn av_names(ps: Seq<crate::models::system_info::InstalledSoftware>) -> Seq<Seq<char>>
    decreases ps.len(),
{
    if ps.len() == 0 {
        Seq::empty()
    } else if ps.last().is_av_or_edr {
        av_names(ps.drop_last()).push(ps.last().name@)
    } else {
        av_names(ps.drop_last())
    }
}

/// The names of the packages marked as antivirus or EDR products.
pub fn av_products(pkgs: &[crate::models::system_info::InstalledSoftware]) -> (r: Vec<String>)
    ensures
        strings_view(r@) == av_names(pkgs@),
{
    let mut out: Vec<String> = Vec::new();
    let mut i: usize = 0;
    while i < pkgs.len()
        invariant
            i <= pkgs.len(),
            strings_view(out@) == av_names(pkgs@.take(i as int)),
        decreases pkgs.len() - i,
    {
        proof {
            assert(pkgs@.take(i + 1).drop_last() =~= pkgs@.take(i as int));
        }
        if pkgs[i].is_av_or_edr {
            let ghost before = strings_view(out@);
            out.push(owned(pkgs[i].name.as_str()));
            assert(strings_view(out@) =~= before.push(pkgs@[i as int].name@));
        }
        i = i + 1;
    }
    assert(pkgs@.take(pkgs.len() as int) =~= pkgs@);
    out
}

/// The task for a file of a cron directory: none for a hidden file (its
/// name starts with `.`), else an enabled task run as root.
pub fn cron_task(name: &str, path: &str) -> (r: Option<crate::models::system_info::ScheduledTask>)
    ensures
        match r {
            Some(t) => {
                &&& !(name@.len() > 0 && name@[0] == '.')
                &&& t.name@ == name@
                &&& crate::models::finding::opt_view(t.path) == Some(path@)
                &&& t.enabled
                &&& crate::models::finding::opt_view(t.run_as) == Some("root"@)
                &&& t.action is None && t.trigger is None && t.last_run is None && t.next_run is None
                &&& !t.hidden
            },
            None => name@.len() > 0 && name@[0] == '.',
        },
{
    let chars = to_chars(name);
    if chars.len() > 0 && chars[0] == '.' {
        return None;
    }
    Some(
        crate::models::system_info::ScheduledTask {
            name: owned(name),
            path: Some(owned(path)),
            action: None,
            run_as: Some(owned("root")),
            trigger: None,
            enabled: true,
            last_run: None,
            next_run: None,
            hidden: false,
        },
    )
}

/// The task for /etc/crontab.
pub fn crontab_task() -> (t: crate::models::system_info::ScheduledTask)
    ensures
        t.name@ == "crontab"@,
        crate::models::finding::opt_view(t.path) == Some("/etc/crontab"@),
        t.enabled,
        t.run_as is None && t.action is None && t.trigger is None,
        t.last_run is None && t.next_run is None && !t.hidden,
{
    crate::models::system_info::ScheduledTask {
        name: owned("crontab"),
        path: Some(owned("/etc/crontab")),
        action: None,
        run_as: None,
        trigger: None,
        enabled: true,
        last_run: None,
        next_run: None,
        hidden: false,
    }
}

} // verus!
