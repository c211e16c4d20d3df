//! Windows accounts and account policies: the values that the network
//! management API reports, and the security policy that `secedit` exports.
use vstd::prelude::*;

use crate::models::finding::opt_view;
use crate::models::system_info::{LocalUser, LockoutPolicy, PasswordPolicy};
use crate::platform::linux::etc::strings_view;
use crate::text::{
    eq_ignore_ascii_case, eq_ignore_ascii_case_spec, lines, lines_spec, rfind_char,
    rfind_char_spec, slice_to_vec, split_once, split_once_spec, to_chars, trim, trim_spec, views,
};

verus! {

/// An account flag: the account is disabled.
pub const UF_ACCOUNTDISABLE: u32 = 0x0002;
/// An account flag: no password is required.
pub const UF_PASSWD_NOTREQD: u32 = 0x0020;
/// An account flag: the password never expires.
pub const UF_DONT_EXPIRE_PASSWD: u32 = 0x10000;
/// The value that stands for "forever" in the account policies.
pub const TIMEQ_FOREVER: u32 = 0xffff_ffff;

/// Whole days of a number of seconds, 0 for "forever".
pub open spec fn days_or_zero(s: u32) -> u32 {
    if s == TIMEQ_FOREVER {
        0
    } else {
        (s / 86400) as u32
    }
}

/// Whole days of a number of seconds, 0 for "forever".
pub fn seconds_to_days_or_zero(s: u32) -> (r: u32)
    ensures
        r == days_or_zero(s),
{
    if s == TIMEQ_FOREVER {
        0
    } else {
        s / 86400
    }
}

/// The password policy from the account-policy values: minimum length,
/// maximum and minimum age in seconds, and history length.
pub fn password_policy_from_modals(min_len: u32, max_age_secs: u32, min_age_secs: u32, history_len: u32) -> (r: PasswordPolicy)
    ensures
        r == (PasswordPolicy {
            min_length: Some(min_len),
            max_age_days: Some(days_or_zero(max_age_secs)),
            min_age_days: Some((min_age_secs / 86400) as u32),
            history_count: Some(history_len),
            complexity_required: None,
            reversible_encryption: None,
        }),
{
    PasswordPolicy {
        min_length: Some(min_len),
        max_age_days: Some(seconds_to_days_or_zero(max_age_secs)),
        min_age_days: Some(min_age_secs / 86400),
        history_count: Some(history_len),
        complexity_required: None,
        reversible_encryption: None,
    }
}

/// The lockout policy from the account-policy values: threshold, and
/// duration ("forever" as 0) and observation window in whole minutes.
pub fn lockout_policy_from_modals(threshold: u32, duration_secs: u32, window_secs: u32) -> (r: LockoutPolicy)
    ensures
        r == (LockoutPolicy {
            threshold: Some(threshold),
            duration_minutes: Some(
                if duration_secs == TIMEQ_FOREVER {
                    0
                } else {
                    (duration_secs / 60) as u32
                },
            ),
            observation_window_minutes: Some((window_secs / 60) as u32),
        }),
{
    LockoutPolicy {
        threshold: Some(threshold),
        duration_minutes: Some(
            if duration_secs == TIMEQ_FOREVER {
                0
            } else {
                duration_secs / 60
            },
        ),
        observation_window_minutes: Some(window_secs / 60),
    }
}

/// An instant given in seconds since the Unix epoch, in microseconds; none
/// for 0 (never).
pub open spec fn instant_of_secs(secs: u32) -> Option<i64> {
    if secs == 0 {
        None
    } else {
        Some((secs * 1_000_000) as i64)
    }
}

fn instant_from_secs(secs: u32) -> (r: Option<i64>)
    ensures
        r == instant_of_secs(secs),
{
    if secs == 0 {
        None
    } else {
        Some(secs as i64 * 1_000_000)
    }
}

/// The part of an administrator's name after its last backslash (the
/// account name without its domain).
pub open spec fn account_part(m: Seq<char>) -> Seq<char> {
    match rfind_char_spec(m, '\\') {
        Some(i) => m.skip(i + 1),
        None => m,
    }
}

/// Whether a user is an administrator: its name equals, ignoring ASCII
/// case, the account part of one of the administrators' names.
pub open spec fn is_admin_spec(username: Seq<char>, admins: Seq<Seq<char>>) -> bool {
    exists|i: int| 0 <= i < admins.len() && eq_ignore_ascii_case_spec(account_part(#[trigger] admins[i]), username)
}

fn is_admin_name(username: &str, admins: &[String]) -> (r: bool)
    ensures
        r == is_admin_spec(username@, strings_view(admins@)),
{
    let u = to_chars(username);
    let mut i: usize = 0;
    while i < admins.len()
        invariant
            i <= admins.len(),
            u@ == username@,
            forall|j: int| 0 <= j < i ==> !eq_ignore_ascii_case_spec(account_part(#[trigger] strings_view(admins@)[j]), username@),
        decreases admins.len() - i,
    {
        let m = to_chars(admins[i].as_str());
        assert(strings_view(admins@)[i as int] == m@);
        let part = match rfind_char(m.as_slice(), '\\') {
            Some(k) => {
                let p = slice_to_vec(m.as_slice(), k + 1, m.len());
                assert(p@ =~= m@.skip(k + 1));
                p
            },
            None => m,
        };
        if eq_ignore_ascii_case(part.as_slice(), u.as_slice()) {
            return true;
        }
        i = i + 1;
    }
    false
}

/// When the password was set, from its age and the current time (seconds
/// since the epoch): none for age 0; else the difference, at least 0, cut
/// to 32 bits as the account API's time type is, none where that is 0.
pub open spec fn password_set_at(password_age: u32, now_secs: i64) -> Option<i64> {
    if password_age > 0 {
        let d = now_secs - password_age;
        let clamped: int = if d > 0 {
            d
        } else {
            0
        };
        instant_of_secs((clamped % 0x1_0000_0000) as u32)
    } else {
        None
    }
}

/// Whether `u` is the account that the account API reported with these
/// values.
pub open spec fn describes_account(
    u: LocalUser,
    username: Seq<char>,
    full_name: Option<Seq<char>>,
    flags: u32,
    last_logon_secs: u32,
    password_age: u32,
    now_secs: i64,
    admins: Seq<Seq<char>>,
) -> bool {
    &&& u.username@ == username
    &&& opt_view(u.full_name) == match full_name {
        Some(f) => if f.len() > 0 {
            Some(f)
        } else {
            None
        },
        None => None,
    }
    &&& u.sid is None
    &&& u.uid is None
    &&& u.enabled == (flags & UF_ACCOUNTDISABLE == 0)
    &&& u.password_required == (flags & UF_PASSWD_NOTREQD == 0)
    &&& u.password_expires == (flags & UF_DONT_EXPIRE_PASSWD == 0)
    &&& u.last_logon == instant_of_secs(last_logon_secs)
    &&& u.password_last_set == password_set_at(password_age, now_secs)
    &&& u.groups@.len() == 0
    &&& u.is_admin == is_admin_spec(username, admins)
}

/// An account from what the account API reported: name, full name, flags,
/// last logon (seconds since the epoch, 0 for never) and password age in
/// seconds, at the time `now_secs`, with the administrators' names.
pub fn account_from_info(
    username: String,
    full_name: Option<String>,
    flags: u32,
    last_logon_secs: u32,
    password_age: u32,
    now_secs: i64,
    admin_members: &[String],
) -> (u: LocalUser)
    ensures
        describes_account(
            u,
            username@,
            opt_view(full_name),
            flags,
            last_logon_secs,
            password_age,
            now_secs,
            strings_view(admin_members@),
        ),
{
    let full = match full_name {
        Some(f) => if f.as_str().unicode_len() > 0 {
            Some(f)
        } else {
            None
        },
        None => None,
    };
    let password_last_set = if password_age > 0 {
        let d: i128 = now_secs as i128 - password_age as i128;
        let clamped: i128 = if d > 0 {
            d
        } else {
            0
        };
        let cut: u32 = (clamped % 0x1_0000_0000) as u32;
        instant_from_secs(cut)
    } else {
        None
    };
    let is_admin = is_admin_name(username.as_str(), admin_members);
    LocalUser {
        username,
        full_name: full,
        sid: None,
        uid: None,
        enabled: flags & UF_ACCOUNTDISABLE == 0,
        password_required: flags & UF_PASSWD_NOTREQD == 0,
        password_expires: flags & UF_DONT_EXPIRE_PASSWD == 0,
        password_last_set,
        last_logon: instant_from_secs(last_logon_secs),
        groups: Vec::new(),
        is_admin,
    }
}

/// An account from what the account API reported (see `account_from_info`),
/// with the password's age measured from the current time.
pub fn user_from_info2(
    username: String,
    full_name: Option<String>,
    flags: u32,
    last_logon_secs: u32,
    password_age: u32,
    admin_members: &[String],
) -> (u: LocalUser)
    ensures
        exists|now_secs: i64|
            describes_account(
                u,
                username@,
                opt_view(full_name),
                flags,
                last_logon_secs,
                password_age,
                now_secs,
                strings_view(admin_members@),
            ),
{
    let micros = crate::models::finding::now_micros();
    let now_secs: i64 = if micros >= 0 {
        micros / 1_000_000
    } else {
        -((-(micros as i128) + 999_999) / 1_000_000) as i64
    };
    account_from_info(username, full_name, flags, last_logon_secs, password_age, now_secs, admin_members)
}

// ---------------------------------------------------------------------------
// secedit export
// ---------------------------------------------------------------------------

/// Where a reading of a secedit export stands: whether the `[System
/// Access]` section is being read, and the password complexity and
/// clear-text settings found.
#[verifier::ext_equal]
pub struct SeceditState {
    pub in_system_access: bool,
    pub complexity: Option<bool>,
    pub cleartext: Option<bool>,
}

/// A flag value: a `u32` other than 0 is set; none where it does not parse.
pub open spec fn flag_of(v: Seq<char>) -> Option<bool> {
    match crate::num::parse_u32_spec(v) {
        Some(n) => Some(n != 0),
        None => None,
    }
}

/// One line of a secedit export: a `[...]` line opens a section; in the
/// `[System Access]` section (named in any case), `PasswordComplexity` and
/// `ClearTextPassword` (in any case) set their flags.
pub open spec fn secedit_step(st: SeceditState, line: Seq<char>) -> SeceditState {
    let t = trim_spec(line);
    if t.len() > 0 && t[0] == '[' {
        SeceditState { in_system_access: eq_ignore_ascii_case_spec(t, "[System Access]"@), ..st }
    } else if !st.in_system_access {
        st
    } else {
        match split_once_spec(t, '=') {
            Some((k0, v0)) => {
                let k = trim_spec(k0);
                let v = trim_spec(v0);
                if eq_ignore_ascii_case_spec(k, "PasswordComplexity"@) {
                    SeceditState { complexity: flag_of(v), ..st }
                } else if eq_ignore_ascii_case_spec(k, "ClearTextPassword"@) {
                    SeceditState { cleartext: flag_of(v), ..st }
                } else {
                    st
                }
            },
            None => st,
        }
    }
}

pub open spec fn secedit_fold(ls: Seq<Seq<char>>) -> SeceditState
    decreases ls.len(),
{
    if ls.len() == 0 {
        SeceditState { in_system_access: false, complexity: None, cleartext: None }
    } else {
        secedit_step(secedit_fold(ls.drop_last()), ls.last())
    }
}

/// The password complexity and reversible-encryption settings of a
/// secedit export, where both are given.
pub open spec fn secedit_flags_spec(text: Seq<char>) -> Option<(bool, bool)> {
    let st = secedit_fold(lines_spec(text));
    match (st.complexity, st.cleartext) {
        (Some(c), Some(r)) => Some((c, r)),
        _ => None,
    }
}

fn flag_from(v: &[char]) -> (r: Option<bool>)
    ensures
        r == flag_of(v@),
{
    match crate::num::parse_u32(v) {
        Some(n) => Some(n != 0),
        None => None,
    }
}

fn secedit_line(st: SeceditState, line: &[char]) -> (r: SeceditState)
    ensures
        r == secedit_step(st, line@),
{
    let t = trim(line);
    if t.len() > 0 && t[0] == '[' {
        let sa = to_chars("[System Access]");
        return SeceditState { in_system_access: eq_ignore_ascii_case(t.as_slice(), sa.as_slice()), ..st };
    }
    if !st.in_system_access {
        return st;
    }
    match split_once(t.as_slice(), '=') {
        Some((k0, v0)) => {
            let k = trim(k0.as_slice());
            let v = trim(v0.as_slice());
            let pc = to_chars("PasswordComplexity");
            let ct = to_chars("ClearTextPassword");
            if eq_ignore_ascii_case(k.as_slice(), pc.as_slice()) {
                SeceditState { complexity: flag_from(v.as_slice()), ..st }
            } else if eq_ignore_ascii_case(k.as_slice(), ct.as_slice()) {
                SeceditState { cleartext: flag_from(v.as_slice()), ..st }
            } else {
                st
            }
        },
        None => st,
    }
}

/// The password complexity and reversible-encryption settings of the text
/// of a secedit export (see `secedit_flags_spec`).
pub fn secedit_password_flags(text: &str) -> (r: Option<(bool, bool)>)
    ensures
        r == secedit_flags_spec(text@),
{
    let chars = to_chars(text);
    let ls = lines(chars.as_slice());
    let ghost all = views(ls@);
    let mut st = SeceditState { in_system_access: false, complexity: None, cleartext: None };
    let mut i: usize = 0;
    while i < ls.len()
        invariant
            i <= ls.len(),
            all == views(ls@),
            st == secedit_fold(all.take(i as int)),
        decreases ls.len() - i,
    {
        proof {
            assert(all.take(i + 1).drop_last() =~= all.take(i as int));
            assert(all.take(i + 1).last() == ls@[i as int]@);
        }
        st = secedit_line(st, ls[i].as_slice());
        i = i + 1;
    }
    assert(all.take(ls.len() as int) =~= all);
    match (st.complexity, st.cleartext) {
        (Some(c), Some(r)) => Some((c, r)),
        _ => None,
    }
}

/// The password policy with the secedit settings applied where both were
/// found.
pub fn apply_secedit_flags(policy: PasswordPolicy, flags: Option<(bool, bool)>) -> (r: PasswordPolicy)
    ensures
        r == match flags {
            Some((c, rev)) => PasswordPolicy {
                complexity_required: Some(c),
                reversible_encryption: Some(rev),
                ..policy
            },
            None => policy,
        },
{
    match flags {
        Some((c, rev)) => PasswordPolicy {
            complexity_required: Some(c),
            reversible_encryption: Some(rev),
            ..policy
        },
        None => policy,
    }
}

/// What `String::from_utf16_lossy` returns for UTF-16 code units: their
/// text, with U+FFFD for each unpaired surrogate.
pub uninterp spec fn utf16_lossy_text(units: Seq<u16>) -> Seq<char>;

/// What `String::from_utf8_lossy` returns for bytes: their text, with
/// U+FFFD for each invalid sequence.
pub uninterp spec fn utf8_lossy_text(bytes: Seq<u8>) -> Seq<char>;

/// `String::from_utf16_lossy` of std; its text is named by `utf16_lossy_text`.
#[verifier::external_body]
fn from_utf16_lossy(units: &[u16]) -> (r: String)
    ensures
        r@ == utf16_lossy_text(units@),
{
    String::from_utf16_lossy(units)
}

/// `String::from_utf8_lossy` of std, as an owned string; its text is named
/// by `utf8_lossy_text`.
#[verifier::external_body]
fn from_utf8_lossy(bytes: &[u8]) -> (r: String)
    ensures
        r@ == utf8_lossy_text(bytes@),
{
    String::from_utf8_lossy(bytes).into_owned()
}

/// Whether bytes start with the UTF-16 little-endian byte-order mark.
pub open spec fn has_utf16_le_bom(raw: Seq<u8>) -> bool {
    raw.len() >= 2 && raw[0] == 0xFF && raw[1] == 0xFE
}

/// The little-endian 16-bit units of the bytes after the byte-order mark;
/// an odd last byte is dropped.
pub open spec fn le_units(raw: Seq<u8>) -> Seq<u16> {
    Seq::new(
        ((raw.len() - 2) / 2) as nat,
        |i: int| (raw[2 + 2 * i] + 256 * raw[3 + 2 * i]) as u16,
    )
}

/// The text of a secedit export: UTF-16 little-endian after a byte-order
/// mark, else UTF-8, invalid sequences replaced either way.
pub open spec fn secedit_text(raw: Seq<u8>) -> Seq<char> {
    if has_utf16_le_bom(raw) {
        utf16_lossy_text(le_units(raw))
    } else {
        utf8_lossy_text(raw)
    }
}

/// The text of a secedit export (see `secedit_text`).
pub fn decode_secedit(raw: &[u8]) -> (r: String)
    ensures
        r@ == secedit_text(raw@),
{
    if raw.len() >= 2 && raw[0] == 0xFF && raw[1] == 0xFE {
        let n = (raw.len() - 2) / 2;
        let mut units: Vec<u16> = Vec::new();
        let mut i: usize = 0;
        while i < n
            invariant
                n == (raw.len() - 2) / 2,
                raw.len() >= 2,
                i <= n,
                units@.len() == i,
                forall|k: int| 0 <= k < i ==> units@[k] == (raw@[2 + 2 * k] + 256 * raw@[3 + 2 * k]) as u16,
            decreases n - i,
        {
            let lo = raw[2 + 2 * i] as u16;
            let hi = raw[3 + 2 * i] as u16;
            units.push(lo + 256 * hi);
            i = i + 1;
        }
        assert(units@ =~= le_units(raw@));
        from_utf16_lossy(units.as_slice())
    } else {
        from_utf8_lossy(raw)
    }
}

} // verus!
