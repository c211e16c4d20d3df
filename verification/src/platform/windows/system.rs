//! The Windows identity and security settings, from registry values.
use vstd::prelude::*;

use crate::models::finding::opt_view;
use crate::models::system_info::{OsInfo, SecurityPolicies};
use crate::text::{decimal, find, find_seq, owned, slice_to_vec, split_once, split_once_spec, str_eq, to_chars, u64_to_string};

verus! {

/// A root key of the registry.
#[derive(Debug, Clone, Copy, PartialEq, Eq, Structural)]
pub enum RegRoot {
    LocalMachine,
    CurrentUser,
}

/// The root and subkey of a registry path `ROOT\subkey`: `HKLM` or
/// `HKEY_LOCAL_MACHINE`, `HKCU` or `HKEY_CURRENT_USER`; none for any other
/// root or a path without backslash.
pub open spec fn split_root_spec(path: Seq<char>) -> Option<(RegRoot, Seq<char>)> {
    match split_once_spec(path, '\\') {
        Some((root, sub)) => if root == "HKLM"@ || root == "HKEY_LOCAL_MACHINE"@ {
            Some((RegRoot::LocalMachine, sub))
        } else if root == "HKCU"@ || root == "HKEY_CURRENT_USER"@ {
            Some((RegRoot::CurrentUser, sub))
        } else {
            None
        },
        None => None,
    }
}

/// The root and subkey of a registry path (see `split_root_spec`).
pub fn split_root(path: &str) -> (r: Option<(RegRoot, String)>)
    ensures
        match r {
            Some((root, sub)) => split_root_spec(path@) == Some((root, sub@)),
            None => split_root_spec(path@) is None,
        },
{
    let c = to_chars(path);
    match split_once(c.as_slice(), '\\') {
        Some((root, sub)) => {
            let rs = crate::text::from_chars(root.as_slice());
            let ss = crate::text::from_chars(sub.as_slice());
            if str_eq(rs.as_str(), "HKLM") || str_eq(rs.as_str(), "HKEY_LOCAL_MACHINE") {
                Some((RegRoot::LocalMachine, ss))
            } else if str_eq(rs.as_str(), "HKCU") || str_eq(rs.as_str(), "HKEY_CURRENT_USER") {
                Some((RegRoot::CurrentUser, ss))
            } else {
                None
            }
        },
        None => None,
    }
}

/// A registry flag: set when not 0.
pub open spec fn flag(v: Option<u32>) -> Option<bool> {
    match v {
        Some(x) => Some(x != 0),
        None => None,
    }
}

/// A protection that a value turns off: on where the value is 0 or absent.
pub open spec fn not_disabled(v: Option<u32>) -> bool {
    match v {
        Some(x) => x == 0,
        None => true,
    }
}

/// The registry values that the security settings are read from.
#[derive(Debug, Clone, Copy)]
pub struct SecurityRegistryValues {
    /// `EnableLUA` of the UAC policy key.
    pub enable_lua: Option<u32>,
    /// `ConsentPromptBehaviorAdmin` of the UAC policy key.
    pub consent_prompt_admin: Option<u32>,
    /// `PromptOnSecureDesktop` of the UAC policy key.
    pub prompt_on_secure_desktop: Option<u32>,
    /// `RunAsPPL` of the LSA key.
    pub run_as_ppl: Option<u32>,
    /// `LsaCfgFlags` of the LSA key.
    pub lsa_cfg_flags: Option<u32>,
    /// `DisableAntiSpyware` of the Defender key.
    pub disable_anti_spyware: Option<u32>,
    /// `DisableRealtimeMonitoring` of the Defender real-time key.
    pub disable_realtime_monitoring: Option<u32>,
    /// `SMB1` of the LanmanServer parameters key.
    pub smb1: Option<u32>,
}

/// Sets the security settings that the registry values give: UAC, secure
/// desktop, LSA protection and Credential Guard where their values are
/// present; Defender and its real-time protection on unless turned off;
/// SMBv1 on unless turned off. Other settings are left as they were.
pub fn apply_security_registry(sec: &mut SecurityPolicies, v: SecurityRegistryValues)
    ensures
        final(sec).uac_enabled == flag(v.enable_lua),
        final(sec).uac_level == v.consent_prompt_admin,
        final(sec).secure_desktop == flag(v.prompt_on_secure_desktop),
        final(sec).lsa_protection == flag(v.run_as_ppl),
        final(sec).credential_guard == flag(v.lsa_cfg_flags),
        final(sec).defender_enabled == Some(not_disabled(v.disable_anti_spyware)),
        final(sec).defender_real_time == Some(not_disabled(v.disable_realtime_monitoring)),
        final(sec).smb_v1_enabled == Some(match v.smb1 {
            Some(x) => x != 0,
            None => true,
        }),
        final(sec).audit_policies@ == old(sec).audit_policies@,
        final(sec).defender_last_update == old(sec).defender_last_update,
        final(sec).rdp_enabled == old(sec).rdp_enabled,
        final(sec).rdp_nla_required == old(sec).rdp_nla_required,
        final(sec).powershell_script_block_logging == old(sec).powershell_script_block_logging,
        final(sec).powershell_transcription == old(sec).powershell_transcription,
        opt_view(final(sec).bitlocker_status) == opt_view(old(sec).bitlocker_status),
        final(sec).ssh_config@ == old(sec).ssh_config@,
        final(sec).kernel_params@ == old(sec).kernel_params@,
{
    sec.uac_enabled = match v.enable_lua {
        Some(x) => Some(x != 0),
        None => None,
    };
    sec.uac_level = v.consent_prompt_admin;
    sec.secure_desktop = match v.prompt_on_secure_desktop {
        Some(x) => Some(x != 0),
        None => None,
    };
    sec.lsa_protection = match v.run_as_ppl {
        Some(x) => Some(x != 0),
        None => None,
    };
    sec.credential_guard = match v.lsa_cfg_flags {
        Some(x) => Some(x != 0),
        None => None,
    };
    sec.defender_enabled = Some(
        match v.disable_anti_spyware {
            Some(x) => x == 0,
            None => true,
        },
    );
    sec.defender_real_time = Some(
        match v.disable_realtime_monitoring {
            Some(x) => x == 0,
            None => true,
        },
    );
    sec.smb_v1_enabled = Some(
        match v.smb1 {
            Some(x) => x != 0,
            None => true,
        },
    );
}

// ---------------------------------------------------------------------------
// Operating system identity
// ---------------------------------------------------------------------------

/// `s` with its first `Windows 10` replaced by `Windows 11`.
pub open spec fn replace_first_windows_10(s: Seq<char>) -> Seq<char> {
    match find_seq(s, "Windows 10"@) {
        Some(i) => s.take(i) + "Windows 11"@ + s.skip(i + 10),
        None => s,
    }
}

/// The operating system's name: the product name, with `Windows 10`
/// corrected to `Windows 11` where the build is 22000 or later (Windows 11
/// keeps the old product name); `Windows` where there is no product name.
pub open spec fn windows_name_spec(product_name: Option<Seq<char>>, build: Option<Seq<char>>) -> Seq<char> {
    let is_win11 = match build {
        Some(b) => match crate::num::parse_u32_spec(b) {
            Some(n) => n >= 22000,
            None => false,
        },
        None => false,
    };
    match product_name {
        Some(n) => if is_win11 {
            replace_first_windows_10(n)
        } else {
            n
        },
        None => "Windows"@,
    }
}

#[verifier::rlimit(30)]
fn replace_windows_10(n: &str) -> (r: String)
    ensures
        r@ == replace_first_windows_10(n@),
{
    let nc = to_chars(n);
    let w10 = to_chars("Windows 10");
    proof {
        reveal_strlit("Windows 10");
    }
    assert(w10@.len() == 10);
    match find(nc.as_slice(), w10.as_slice()) {
        Some(i) => {
            assert(i + 10 <= nc.len());
            let head = slice_to_vec(nc.as_slice(), 0, i);
            let tail = slice_to_vec(nc.as_slice(), i + 10, nc.len());
            assert(head@ =~= n@.take(i as int));
            assert(tail@ =~= n@.skip(i + 10));
            let hs = crate::text::from_chars(head.as_slice());
            let ts = crate::text::from_chars(tail.as_slice());
            crate::text::concat3(hs.as_str(), "Windows 11", ts.as_str())
        },
        None => owned(n),
    }
}

/// The operating system's name (see `windows_name_spec`).
pub fn windows_name(product_name: Option<&str>, build: Option<&str>) -> (r: String)
    ensures
        r@ == windows_name_spec(
            crate::platform::linux::etc::opt_str_view(product_name),
            crate::platform::linux::etc::opt_str_view(build),
        ),
{
    let is_win11 = match build {
        Some(b) => {
            let bc = to_chars(b);
            match crate::num::parse_u32(bc.as_slice()) {
                Some(n) => n >= 22000,
                None => false,
            }
        },
        None => false,
    };
    match product_name {
        Some(n) => {
            if is_win11 {
                replace_windows_10(n)
            } else {
                owned(n)
            }
        },
        None => owned("Windows"),
    }
}

/// The operating system's version: `major.minor.build (display)` as far as
/// the values are present; the build alone (with the display version)
/// where the major or minor number is missing; empty without a build.
pub open spec fn windows_version_spec(
    major: Option<u32>,
    minor: Option<u32>,
    build: Option<Seq<char>>,
    display: Option<Seq<char>>,
) -> Seq<char> {
    match build {
        None => Seq::empty(),
        Some(b) => {
            let head = match (major, minor) {
                (Some(mj), Some(mn)) => decimal(mj as nat) + "."@ + decimal(mn as nat) + "."@ + b,
                _ => b,
            };
            match display {
                Some(d) => head + " ("@ + d + ")"@,
                None => head,
            }
        },
    }
}

/// The operating system's version (see `windows_version_spec`).
pub fn windows_version(major: Option<u32>, minor: Option<u32>, build: Option<&str>, display: Option<&str>) -> (r: String)
    ensures
        r@ == windows_version_spec(
            major,
            minor,
            crate::platform::linux::etc::opt_str_view(build),
            crate::platform::linux::etc::opt_str_view(display),
        ),
{
    match build {
        None => String::new(),
        Some(b) => {
            let head = match (major, minor) {
                (Some(mj), Some(mn)) => {
                    let a = u64_to_string(mj as u64);
                    let c = u64_to_string(mn as u64);
                    let mut h = crate::text::concat3(a.as_str(), ".", c.as_str());
                    h.append(".");
                    h.append(b);
                    h
                },
                _ => owned(b),
            };
            match display {
                Some(d) => {
                    let mut h = crate::text::concat3(head.as_str(), " (", d);
                    h.append(")");
                    h
                },
                None => head,
            }
        },
    }
}

/// Sets the name, version and build of the operating system from the
/// registry values of `Windows NT\CurrentVersion`: `ProductName`,
/// `CurrentMajorVersionNumber`, `CurrentMinorVersionNumber`, the build
/// (`CurrentBuild`, else `CurrentBuildNumber`) and `DisplayVersion`.
pub fn fill_os_version(
    os: &mut OsInfo,
    product_name: Option<&str>,
    major: Option<u32>,
    minor: Option<u32>,
    current_build: Option<&str>,
    current_build_number: Option<&str>,
    display: Option<&str>,
)
    ensures
        ({
            let build = match current_build {
                Some(b) => Some(b@),
                None => crate::platform::linux::etc::opt_str_view(current_build_number),
            };
            &&& final(os).name@ == windows_name_spec(crate::platform::linux::etc::opt_str_view(product_name), build)
            &&& final(os).version@ == windows_version_spec(
                major,
                minor,
                build,
                crate::platform::linux::etc::opt_str_view(display),
            )
            &&& opt_view(final(os).build) == build
        }),
        final(os).architecture@ == old(os).architecture@,
        final(os).hostname@ == old(os).hostname@,
        opt_view(final(os).domain) == opt_view(old(os).domain),
        final(os).uptime_seconds == old(os).uptime_seconds,
        final(os).install_date == old(os).install_date,
        final(os).last_boot == old(os).last_boot,
{
    let build: Option<&str> = match current_build {
        Some(b) => Some(b),
        None => current_build_number,
    };
    os.name = windows_name(product_name, build);
    os.version = windows_version(major, minor, build, display);
    os.build = match build {
        Some(b) => Some(owned(b)),
        None => None,
    };
}

} // verus!
