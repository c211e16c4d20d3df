//! Windows services: the codes of the service manager, service image
//! paths, and the access-control entries of service binaries.
use vstd::prelude::*;

use crate::models::finding::opt_view;
use crate::models::system_info::{ServiceInfo, ServiceStartType, ServiceState};
use crate::text::{
    ascii_lower_spec, concat3, find, find_char, find_char_spec, find_seq, first_sep, has_prefix,
    owned, slice_to_vec, starts_with, to_ascii_lowercase, to_chars, trim, trim_end_any,
    trim_end_any_spec, trim_spec, Sep,
};

verus! {

/// The start type of a service-manager start code: 2 automatic, 3 on
/// demand, 4 disabled.
pub open spec fn start_type_of_code(v: u32) -> ServiceStartType {
    if v == 2 {
        ServiceStartType::Automatic
    } else if v == 3 {
        ServiceStartType::Manual
    } else if v == 4 {
        ServiceStartType::Disabled
    } else {
        ServiceStartType::Unknown
    }
}

/// The start type of a service-manager start code.
pub fn start_type_to_enum(v: u32) -> (r: ServiceStartType)
    ensures
        r == start_type_of_code(v),
{
    if v == 2 {
        ServiceStartType::Automatic
    } else if v == 3 {
        ServiceStartType::Manual
    } else if v == 4 {
        ServiceStartType::Disabled
    } else {
        ServiceStartType::Unknown
    }
}

/// The run state of a service-manager state code: 4 running, 1 stopped,
/// 7 paused.
pub open spec fn state_of_code(v: u32) -> ServiceState {
    if v == 4 {
        ServiceState::Running
    } else if v == 1 {
        ServiceState::Stopped
    } else if v == 7 {
        ServiceState::Paused
    } else {
        ServiceState::Unknown
    }
}

/// The run state of a service-manager state code.
pub fn current_state_to_enum(v: u32) -> (r: ServiceState)
    ensures
        r == state_of_code(v),
{
    if v == 4 {
        ServiceState::Running
    } else if v == 1 {
        ServiceState::Stopped
    } else if v == 7 {
        ServiceState::Paused
    } else {
        ServiceState::Unknown
    }
}

// ---------------------------------------------------------------------------
// Image paths
// ---------------------------------------------------------------------------

/// Where the first of `exts`, in their order, first occurs in `lower`, with
/// its length.
pub open spec fn first_ext_match(lower: Seq<char>, exts: Seq<Seq<char>>) -> Option<(int, int)>
    decreases exts.len(),
{
    if exts.len() == 0 {
        None
    } else {
        match find_seq(lower, exts[0]) {
            Some(i) => Some((i, exts[0].len() as int)),
            None => first_ext_match(lower, exts.drop_first()),
        }
    }
}

/// The extensions that end the path of an unquoted image path.
pub open spec fn path_exts() -> Seq<Seq<char>> {
    seq![".exe"@, ".sys"@, ".dll"@, ".bat"@, ".cmd"@]
}

/// The extensions whose paths the unquoted-path check looks at.
pub open spec fn hijack_exts() -> Seq<Seq<char>> {
    seq![".exe"@, ".sys"@, ".bat"@, ".cmd"@]
}

fn ext_match(lower: &[char], exts: &[&str]) -> (r: Option<(usize, usize)>)
    ensures
        match r {
            Some((i, n)) => first_ext_match(lower@, exts@.map_values(|e: &str| e@)) == Some((i as int, n as int))
                && i + n <= lower.len(),
            None => first_ext_match(lower@, exts@.map_values(|e: &str| e@)) is None,
        },
{
    let ghost all = exts@.map_values(|e: &str| e@);
    let mut k: usize = 0;
    assert(all.skip(0) =~= all);
    while k < exts.len()
        invariant
            k <= exts.len(),
            all == exts@.map_values(|e: &str| e@),
            first_ext_match(lower@, all) == first_ext_match(lower@, all.skip(k as int)),
        decreases exts.len() - k,
    {
        let e = to_chars(exts[k]);
        assert(all.skip(k as int)[0] == e@);
        match find(lower, e.as_slice()) {
            Some(i) => {
                return Some((i, e.len()));
            },
            None => {},
        }
        assert(all.skip(k as int).drop_first() =~= all.skip(k + 1));
        k = k + 1;
    }
    assert(all.skip(exts.len() as int) =~= Seq::<Seq<char>>::empty());
    None
}

/// Whether an image path is an unquoted path with a space: not quoted, not
/// a driver path (`\??\` or `\SystemRoot\`), and the path up to its first
/// `.exe`, `.sys`, `.bat` or `.cmd` (in that order of preference, found
/// case-insensitively) holds a space.
pub open spec fn is_unquoted_spec(image_path: Seq<char>) -> bool {
    let t = trim_spec(image_path);
    if t.len() == 0 || t[0] == '"' {
        false
    } else if has_prefix(t, "\\??\\"@) || has_prefix(t, "\\SystemRoot\\"@) {
        false
    } else {
        match first_ext_match(ascii_lower_spec(t), hijack_exts()) {
            Some((i, n)) => t.take(i + n).contains(' '),
            None => false,
        }
    }
}

fn has_space(s: &[char], end: usize) -> (r: bool)
    requires
        end <= s.len(),
    ensures
        r == s@.take(end as int).contains(' '),
{
    let mut i: usize = 0;
    while i < end
        invariant
            i <= end <= s.len(),
            forall|j: int| 0 <= j < i ==> s@[j] != ' ',
        decreases end - i,
    {
        if s[i] == ' ' {
            assert(s@.take(end as int)[i as int] == ' ');
            return true;
        }
        i = i + 1;
    }
    assert forall|j: int| 0 <= j < s@.take(end as int).len() implies s@.take(end as int)[j] != ' ' by {
        assert(s@.take(end as int)[j] == s@[j]);
    }
    false
}

/// Whether a service's image path is an unquoted path with a space.
pub fn is_unquoted_service_path(image_path: &str) -> (r: bool)
    ensures
        r == is_unquoted_spec(image_path@),
{
    let c = to_chars(image_path);
    let t = trim(c.as_slice());
    if t.len() == 0 || t[0] == '"' {
        return false;
    }
    let nt = to_chars("\\??\\");
    let sr = to_chars("\\SystemRoot\\");
    if starts_with(t.as_slice(), nt.as_slice()) || starts_with(t.as_slice(), sr.as_slice()) {
        return false;
    }
    let lower = to_ascii_lowercase(t.as_slice());
    let exts: [&str; 4] = [".exe", ".sys", ".bat", ".cmd"];
    assert(exts@.map_values(|e: &str| e@) =~= hijack_exts());
    match ext_match(lower.as_slice(), exts.as_slice()) {
        Some((i, n)) => has_space(t.as_slice(), i + n),
        None => false,
    }
}

/// The file that a service's image path runs, given the Windows directory
/// `system_root`: the quoted text of a quoted path (none without a closing
/// quote); else, after resolving `\??\`, `\SystemRoot\` and `System32\`
/// prefixes against the Windows directory, the text up to and with the
/// first `.exe`, `.sys`, `.dll`, `.bat` or `.cmd` (in that order of
/// preference, found case-insensitively), or up to the first whitespace.
/// None for a blank path.
pub open spec fn extract_binary_spec(image_path: Seq<char>, system_root: Seq<char>) -> Option<Seq<char>> {
    let t = trim_spec(image_path);
    if t.len() == 0 {
        None
    } else if t[0] == '"' {
        let rest = t.drop_first();
        match find_char_spec(rest, '"') {
            Some(e) => Some(rest.take(e)),
            None => None,
        }
    } else {
        let root = trim_end_any_spec(system_root, seq!['\\']);
        let cand = if has_prefix(t, "\\??\\"@) {
            t.skip(4)
        } else if has_prefix(t, "\\SystemRoot\\"@) {
            root + "\\"@ + t.skip(12)
        } else if has_prefix(t, "System32\\"@) || has_prefix(t, "system32\\"@) {
            root + "\\"@ + t
        } else {
            t
        };
        match first_ext_match(ascii_lower_spec(cand), path_exts()) {
            Some((i, n)) => Some(cand.take(i + n)),
            None => match first_sep(cand, Sep::Whitespace) {
                Some(w) => Some(cand.take(w)),
                None => Some(cand),
            },
        }
    }
}

fn first_whitespace(s: &[char]) -> (r: Option<usize>)
    ensures
        match r {
            Some(i) => first_sep(s@, Sep::Whitespace) == Some(i as int) && i < s.len(),
            None => first_sep(s@, Sep::Whitespace) is None,
        },
{
    let mut i: usize = 0;
    while i < s.len()
        invariant
            i <= s.len(),
            forall|j: int| 0 <= j < i ==> !crate::text::is_sep(Sep::Whitespace, s@[j]),
        decreases s.len() - i,
    {
        if crate::text::is_whitespace(s[i]) {
            proof {
                let k = choose|k: int|
                    0 <= k < s@.len() && crate::text::is_sep(Sep::Whitespace, s@[k]) && forall|j: int|
                        0 <= j < k ==> !crate::text::is_sep(Sep::Whitespace, s@[j]);
                assert(k == i as int);
            }
            return Some(i);
        }
        i = i + 1;
    }
    None
}

/// The file that a service's image path runs (see `extract_binary_spec`);
/// `system_root` is the value of `%SystemRoot%`, `C:\Windows` where unset.
pub fn extract_binary_path_from_imagepath(image_path: &str, system_root: &str) -> (r: Option<String>)
    ensures
        opt_view(r) == extract_binary_spec(image_path@, system_root@),
{
    let c = to_chars(image_path);
    let t = trim(c.as_slice());
    if t.len() == 0 {
        return None;
    }
    if t[0] == '"' {
        let rest = slice_to_vec(t.as_slice(), 1, t.len());
        assert(rest@ =~= t@.drop_first());
        return match find_char(rest.as_slice(), '"') {
            Some(e) => {
                let p = slice_to_vec(rest.as_slice(), 0, e);
                assert(p@ =~= rest@.take(e as int));
                Some(crate::text::from_chars(p.as_slice()))
            },
            None => None,
        };
    }
    let sr_chars = to_chars(system_root);
    let backslash: [char; 1] = ['\\'];
    assert(backslash@ =~= seq!['\\']);
    let root_v = trim_end_any(sr_chars.as_slice(), backslash.as_slice());
    let root = crate::text::from_chars(root_v.as_slice());
    let nt = to_chars("\\??\\");
    let srp = to_chars("\\SystemRoot\\");
    let s32 = to_chars("System32\\");
    let s32l = to_chars("system32\\");
    proof {
        reveal_strlit("\\??\\");
        reveal_strlit("\\SystemRoot\\");
    }
    let cand: Vec<char> = if starts_with(t.as_slice(), nt.as_slice()) {
        let v = slice_to_vec(t.as_slice(), 4, t.len());
        assert(v@ =~= t@.skip(4));
        v
    } else if starts_with(t.as_slice(), srp.as_slice()) {
        let v = slice_to_vec(t.as_slice(), 12, t.len());
        assert(v@ =~= t@.skip(12));
        let tail = crate::text::from_chars(v.as_slice());
        let joined = concat3(root.as_str(), "\\", tail.as_str());
        to_chars(joined.as_str())
    } else if starts_with(t.as_slice(), s32.as_slice()) || starts_with(t.as_slice(), s32l.as_slice()) {
        let ts = crate::text::from_chars(t.as_slice());
        let joined = concat3(root.as_str(), "\\", ts.as_str());
        to_chars(joined.as_str())
    } else {
        t
    };
    let lower = to_ascii_lowercase(cand.as_slice());
    let exts: [&str; 5] = [".exe", ".sys", ".dll", ".bat", ".cmd"];
    assert(exts@.map_values(|e: &str| e@) =~= path_exts());
    match ext_match(lower.as_slice(), exts.as_slice()) {
        Some((i, n)) => {
            let p = slice_to_vec(cand.as_slice(), 0, i + n);
            assert(p@ =~= cand@.take(i + n));
            Some(crate::text::from_chars(p.as_slice()))
        },
        None => match first_whitespace(cand.as_slice()) {
            Some(w) => {
                let p = slice_to_vec(cand.as_slice(), 0, w);
                assert(p@ =~= cand@.take(w as int));
                Some(crate::text::from_chars(p.as_slice()))
            },
            None => Some(crate::text::from_chars(cand.as_slice())),
        },
    }
}

// ---------------------------------------------------------------------------
// Access control of service binaries
// ---------------------------------------------------------------------------

pub const FILE_WRITE_DATA: u32 = 0x0000_0002;
pub const FILE_APPEND_DATA: u32 = 0x0000_0004;
pub const FILE_WRITE_ATTRIBUTES: u32 = 0x0000_0100;
pub const FILE_WRITE_EA: u32 = 0x0000_0010;
pub const DELETE: u32 = 0x0001_0000;
pub const WRITE_DAC: u32 = 0x0004_0000;
pub const WRITE_OWNER: u32 = 0x0008_0000;
pub const GENERIC_WRITE: u32 = 0x4000_0000;
pub const GENERIC_ALL: u32 = 0x1000_0000;

/// The access rights that let a principal change a file. Full access is
/// left out on purpose: its bits include those of plain read access.
pub const DANGEROUS_WRITE_MASK: u32 = FILE_WRITE_DATA | FILE_APPEND_DATA | FILE_WRITE_ATTRIBUTES
    | FILE_WRITE_EA | DELETE | WRITE_DAC | WRITE_OWNER | GENERIC_WRITE | GENERIC_ALL;

/// The type code of an access-allowed entry.
pub const ACCESS_ALLOWED_ACE_TYPE: u8 = 0;

/// What the check reads of one access-control entry: its type, its size
/// (0 ends the list), its access mask, and whether its SID is one of the
/// non-privileged principals (everyone, anonymous, authenticated users,
/// interactive, builtin users).
#[derive(Debug, Clone, Copy)]
pub struct AceSummary {
    pub ace_type: u8,
    pub ace_size: u16,
    pub mask: u32,
    pub sid_is_non_privileged: bool,
}

/// Whether a list of entries grants write access to a non-privileged
/// principal: an access-allowed entry with a write right for such a SID
/// comes before the first entry of size 0.
pub open spec fn dacl_grants_write_spec(aces: Seq<AceSummary>) -> bool
    decreases aces.len(),
{
    if aces.len() == 0 {
        false
    } else if aces[0].ace_size == 0 {
        false
    } else if aces[0].ace_type == ACCESS_ALLOWED_ACE_TYPE && aces[0].mask & DANGEROUS_WRITE_MASK != 0
        && aces[0].sid_is_non_privileged {
        true
    } else {
        dacl_grants_write_spec(aces.drop_first())
    }
}

/// Whether the entries of a DACL grant write access to a non-privileged
/// principal.
pub fn dacl_grants_write_to_non_privileged(aces: &[AceSummary]) -> (r: bool)
    ensures
        r == dacl_grants_write_spec(aces@),
{
    let mut i: usize = 0;
    assert(aces@.skip(0) =~= aces@);
    while i < aces.len()
        invariant
            i <= aces.len(),
            dacl_grants_write_spec(aces@) == dacl_grants_write_spec(aces@.skip(i as int)),
        decreases aces.len() - i,
    {
        let a = aces[i];
        assert(aces@.skip(i as int)[0] == a);
        if a.ace_size == 0 {
            return false;
        }
        if a.ace_type == ACCESS_ALLOWED_ACE_TYPE && a.mask & DANGEROUS_WRITE_MASK != 0
            && a.sid_is_non_privileged {
            return true;
        }
        assert(aces@.skip(i as int).drop_first() =~= aces@.skip(i + 1));
        i = i + 1;
    }
    assert(aces@.skip(aces.len() as int) =~= Seq::<AceSummary>::empty());
    false
}

// ---------------------------------------------------------------------------
// Assembling a service
// ---------------------------------------------------------------------------

/// What the service manager's configuration query gives of a service.
#[derive(Debug)]
pub struct ServiceConfig {
    pub start_type_code: u32,
    pub binary_path: Option<String>,
    pub run_as_account: Option<String>,
}

/// Whether `s` is the service named `name` with the display name, state,
/// configuration and binary check given: without a configuration, only its
/// names and state are known; with one, its start type, image path and
/// account are those configured, its path is flagged when unquoted with a
/// space, and its binary is weak when a file could be drawn from the image
/// path and that file's check found it writable by others.
pub open spec fn describes_service(
    s: ServiceInfo,
    name: Seq<char>,
    display_name: Option<Seq<char>>,
    state_code: u32,
    config: Option<(u32, Option<Seq<char>>, Option<Seq<char>>)>,
    system_root: Seq<char>,
    binary_weak: bool,
) -> bool {
    &&& s.name@ == name
    &&& s.display_name@ == match display_name {
        Some(d) => d,
        None => name,
    }
    &&& s.state == state_of_code(state_code)
    &&& s.description is None
    &&& match config {
        None => {
            &&& s.start_type == ServiceStartType::Unknown
            &&& s.binary_path is None
            &&& s.run_as_account is None
            &&& !s.weak_permissions
            &&& !s.unquoted_path
        },
        Some((code, path, account)) => {
            &&& s.start_type == start_type_of_code(code)
            &&& opt_view(s.binary_path) == path
            &&& opt_view(s.run_as_account) == account
            &&& s.unquoted_path == match path {
                Some(p) => is_unquoted_spec(p),
                None => false,
            }
            &&& s.weak_permissions == match path {
                Some(p) => extract_binary_spec(p, system_root) is Some && binary_weak,
                None => false,
            }
        },
    }
}

/// The view of a service configuration.
pub open spec fn config_view(c: Option<ServiceConfig>) -> Option<(u32, Option<Seq<char>>, Option<Seq<char>>)> {
    match c {
        Some(c) => Some((c.start_type_code, opt_view(c.binary_path), opt_view(c.run_as_account))),
        None => None,
    }
}

/// A service from what the service manager reported and what the check of
/// its binary (`binary_weak`, for the file drawn from the image path with
/// `system_root`) found.
pub fn build_service_info(
    name: String,
    display_name: Option<String>,
    state_code: u32,
    config: Option<ServiceConfig>,
    system_root: &str,
    binary_weak: bool,
) -> (s: ServiceInfo)
    ensures
        describes_service(
            s,
            name@,
            opt_view(display_name),
            state_code,
            config_view(config),
            system_root@,
            binary_weak,
        ),
{
    let display = match display_name {
        Some(d) => d,
        None => owned(name.as_str()),
    };
    let state = current_state_to_enum(state_code);
    match config {
        None => ServiceInfo {
            name,
            display_name: display,
            state,
            start_type: ServiceStartType::Unknown,
            binary_path: None,
            run_as_account: None,
            description: None,
            weak_permissions: false,
            unquoted_path: false,
        },
        Some(cfg) => {
            let start_type = start_type_to_enum(cfg.start_type_code);
            let (unquoted, weak) = match &cfg.binary_path {
                Some(p) => {
                    let u = is_unquoted_service_path(p.as_str());
                    let w = extract_binary_path_from_imagepath(p.as_str(), system_root).is_some() && binary_weak;
                    (u, w)
                },
                None => (false, false),
            };
            ServiceInfo {
                name,
                display_name: display,
                state,
                start_type,
                binary_path: cfg.binary_path,
                run_as_account: cfg.run_as_account,
                description: None,
                weak_permissions: weak,
                unquoted_path: unquoted,
            }
        },
    }
}

} // verus!
