//! Linux: the files under `/etc` and `/proc`, and the output of system tools.
//! The functions of this module fill the collected data from the contents
//! that were read (`None` for a file that could not be read or a tool that
//! could not be run).
pub mod etc;
pub mod network;
pub mod proc;
pub mod security;
pub mod services;

use vstd::prelude::*;

use crate::error::HuginnError;
use crate::models::finding::opt_view;
use crate::models::system_info::{
    lookup_spec, InstalledSoftware, NetworkInfo, NetworkInterface, OsInfo, SecurityPolicies,
    ServiceInfo, ServicesInfo, SoftwareInfo, UserInfo,
};
use crate::platform::linux::etc::{opt_str_view, strings_view};

verus! {

/// The text of a file that may be missing: empty where it is.
pub open spec fn text_or_empty(o: Option<Seq<char>>) -> Seq<char> {
    match o {
        Some(t) => t,
        None => Seq::empty(),
    }
}

fn str_or_empty(o: Option<&str>) -> (r: &str)
    ensures
        r@ == text_or_empty(opt_str_view(o)),
{
    proof {
        reveal_strlit("");
    }
    match o {
        Some(s) => s,
        None => {
            assert(""@ =~= Seq::<char>::empty());
            ""
        },
    }
}

/// Sets the operating system's name and version from os-release
/// (`release`, the contents of /etc/os-release or /usr/lib/os-release), its
/// architecture, host name and uptime as given, and its domain from
/// krb5.conf and resolv.conf.
pub fn collect_system_info(
    os: &mut OsInfo,
    release: Option<&str>,
    architecture: &str,
    hostname: &str,
    uptime_seconds: u64,
    krb5_conf: Option<&str>,
    resolv_conf: Option<&str>,
) -> (r: Result<(), HuginnError>)
    ensures
        r is Ok,
        ({
            let t = lines_spec_of(release);
            &&& final(os).name@ == match etc::release_value(t, "PRETTY_NAME"@) {
                Some(v) => v,
                None => match etc::release_value(t, "NAME"@) {
                    Some(v) => v,
                    None => "Linux"@,
                },
            }
            &&& final(os).version@ == match etc::release_value(t, "VERSION_ID"@) {
                Some(v) => v,
                None => Seq::<char>::empty(),
            }
        }),
        final(os).architecture@ == architecture@,
        final(os).hostname@ == hostname@,
        final(os).uptime_seconds == uptime_seconds,
        opt_view(final(os).domain) == etc::domain_spec(opt_str_view(krb5_conf), opt_str_view(resolv_conf)),
        opt_view(final(os).build) == opt_view(old(os).build),
        final(os).install_date == old(os).install_date,
        final(os).last_boot == old(os).last_boot,
{
    let table = etc::read_os_release(str_or_empty(release));
    os.name = etc::release_name(&table);
    os.version = etc::release_version(&table);
    os.architecture = crate::text::owned(architecture);
    os.hostname = crate::text::owned(hostname);
    os.uptime_seconds = uptime_seconds;
    os.domain = etc::read_domain(krb5_conf, resolv_conf);
    Ok(())
}

/// The lines of a file that may be missing.
pub open spec fn lines_spec_of(o: Option<&str>) -> Seq<Seq<char>> {
    crate::text::lines_spec(text_or_empty(opt_str_view(o)))
}

/// Sets the accounts from /etc/passwd, /etc/shadow and /etc/group, the
/// administrators from /etc/group, and the password and lockout policies
/// from pwquality.conf, login.defs and faillock.conf.
pub fn collect_users(
    users: &mut UserInfo,
    passwd: Option<&str>,
    shadow: Option<&str>,
    group: Option<&str>,
    pwquality: Option<&str>,
    login_defs: Option<&str>,
    faillock: Option<&str>,
) -> (r: Result<(), HuginnError>)
    ensures
        r is Ok,
        final(users).users@.len() == etc::passwd_accounts(lines_spec_of(passwd)).len(),
        forall|k: int|
            0 <= k < final(users).users@.len() ==> {
                let line = etc::passwd_accounts(lines_spec_of(passwd))[k];
                let name = crate::text::split_spec(line, crate::text::Sep::Char(':'))[0];
                etc::describes_passwd_user(
                    #[trigger] final(users).users@[k],
                    line,
                    etc::shadow_entry_of(lines_spec_of(shadow), name),
                    etc::admins_of(lines_spec_of(group)),
                )
            },
        strings_view(final(users).admin_group_members@) == etc::admins_of(lines_spec_of(group)),
        final(users).password_policy == etc::password_policy_spec(opt_str_view(pwquality), opt_str_view(login_defs)),
        final(users).lockout_policy == match opt_str_view(faillock) {
            Some(c) => etc::faillock_fold(crate::text::lines_spec(c)),
            None => crate::models::system_info::LockoutPolicy::empty_spec(),
        },
{
    users.users = etc::read_passwd_users(str_or_empty(passwd), str_or_empty(shadow), str_or_empty(group));
    users.admin_group_members = etc::read_sudo_group(str_or_empty(group));
    users.password_policy = etc::read_pam_password_policy(pwquality, login_defs);
    users.lockout_policy = etc::read_pam_lockout_policy(faillock);
    Ok(())
}

/// Whether `v` is the list of services that the output of `systemctl
/// list-units` gives (none where it could not be run), with the start types
/// of `systemctl list-unit-files` and the binaries found in unit files.
pub open spec fn lists_services(
    v: Seq<ServiceInfo>,
    units_output: Option<Seq<char>>,
    unit_files_output: Option<Seq<char>>,
    binary_paths: Seq<(String, String)>,
) -> bool {
    match units_output {
        None => v.len() == 0,
        Some(o) => {
            let ls = services::unit_lines(proc::body_lines(o));
            &&& v.len() == ls.len()
            &&& forall|k: int|
                0 <= k < v.len() ==> services::describes_unit(
                    #[trigger] v[k],
                    ls[k],
                    services::unit_state_of(
                        proc::body_lines(text_or_empty(unit_files_output)),
                        services::unit_line_name(ls[k]),
                    ),
                    lookup_spec(binary_paths, services::unit_line_name(ls[k])),
                )
        },
    }
}

/// The services of the host (see `lists_services`).
pub fn list_services(
    units_output: Option<&str>,
    unit_files_output: Option<&str>,
    binary_paths: &Vec<(String, String)>,
) -> (r: Vec<ServiceInfo>)
    ensures
        lists_services(r@, opt_str_view(units_output), opt_str_view(unit_files_output), binary_paths@),
{
    match units_output {
        None => Vec::new(),
        Some(o) => {
            let start_types = services::collect_unit_file_states(str_or_empty(unit_files_output));
            services::parse_systemctl_output(o, &start_types, binary_paths)
        },
    }
}

/// Sets the services of the host (see `lists_services`).
pub fn collect_services(
    services: &mut ServicesInfo,
    units_output: Option<&str>,
    unit_files_output: Option<&str>,
    binary_paths: &Vec<(String, String)>,
) -> (r: Result<(), HuginnError>)
    ensures
        r is Ok,
        lists_services(
            final(services).services@,
            opt_str_view(units_output),
            opt_str_view(unit_files_output),
            binary_paths@,
        ),
{
    services.services = list_services(units_output, unit_files_output, binary_paths);
    Ok(())
}

/// The sockets that the contents of a socket file give, none where it
/// could not be read.
pub open spec fn sockets_of(o: Option<Seq<char>>) -> Seq<(Seq<char>, u16, Seq<char>, u32)> {
    match o {
        Some(c) => proc::tcp_sockets_spec(c),
        None => Seq::empty(),
    }
}

/// Sets the network facts: the interfaces as given, the listening ports of
/// /proc/net/tcp and /proc/net/tcp6, the firewall profiles from `ufw
/// status` or `iptables -L`, the name servers of resolv.conf and the
/// resolver settings of `resolvectl status`.
pub fn collect_network(
    net: &mut NetworkInfo,
    interfaces: Vec<NetworkInterface>,
    proc_net_tcp: Option<&str>,
    proc_net_tcp6: Option<&str>,
    ufw_status: Option<&str>,
    iptables_list: Option<&str>,
    resolv_conf: Option<&str>,
    resolvectl_status: Option<&str>,
) -> (r: Result<(), HuginnError>)
    ensures
        r is Ok,
        final(net).interfaces@ == interfaces@,
        ({
            let l4 = proc::listening(sockets_of(opt_str_view(proc_net_tcp)));
            let l6 = proc::listening(sockets_of(opt_str_view(proc_net_tcp6)));
            let ports = final(net).open_ports@;
            &&& ports.len() == l4.len() + l6.len()
            &&& forall|k: int| 0 <= k < l4.len() ==> network::describes_port(#[trigger] ports[k], l4[k], "TCP"@)
            &&& forall|k: int|
                0 <= k < l6.len() ==> network::describes_port(#[trigger] ports[l4.len() + k], l6[k], "TCP6"@)
        }),
        strings_view(final(net).dns_servers@) == etc::nameservers_of(lines_spec_of(resolv_conf)),
        match resolvectl_status {
            Some(t) => match final(net).dns_info {
                Some(i) => network::dns_info_spec(t@) == Some(network::info_view(i)),
                None => network::dns_info_spec(t@) is None,
            },
            None => final(net).dns_info is None,
        },
        opt_view(final(net).proxy_settings) == opt_view(old(net).proxy_settings),
{
    net.interfaces = interfaces;
    let tcp = proc::read_tcp_sockets(proc_net_tcp);
    let tcp6 = proc::read_tcp6_sockets(proc_net_tcp6);
    proof {
        proc::lemma_listening_idempotent(sockets_of(opt_str_view(proc_net_tcp)));
        proc::lemma_listening_idempotent(sockets_of(opt_str_view(proc_net_tcp6)));
    }
    net.open_ports = network::list_open_ports(&tcp, &tcp6);
    net.firewall_profiles = network::get_firewall_status(ufw_status, iptables_list);
    net.dns_servers = etc::read_dns_servers(str_or_empty(resolv_conf));
    net.dns_info = network::collect_dns_info(resolvectl_status);
    Ok(())
}

/// Sets SMBv1 from smb.conf, the sshd settings from sshd_config, and the
/// kernel parameters from the files under /proc/sys that could be read
/// (each given as the parameter's name and the file's contents).
pub fn collect_security_policies(
    sec: &mut SecurityPolicies,
    smb_conf: Option<&str>,
    sshd_config: Option<&str>,
    kernel_files: &Vec<(String, String)>,
) -> (r: Result<(), HuginnError>)
    ensures
        r is Ok,
        final(sec).smb_v1_enabled == match smb_conf {
            Some(c) => network::smb_v1_spec(crate::text::lines_spec(c@)),
            None => None,
        },
        crate::table::keys_unique(final(sec).ssh_config@),
        forall|key: Seq<char>| #[trigger] lookup_spec(final(sec).ssh_config@, key) == security::sshd_value(lines_spec_of(sshd_config), key),
        crate::table::keys_unique(final(sec).kernel_params@),
        forall|q: Seq<char>| #[trigger] lookup_spec(final(sec).kernel_params@, q) == security::kernel_value_read(kernel_files@, q),
{
    sec.smb_v1_enabled = network::check_smb_v1(smb_conf);
    sec.ssh_config = security::read_ssh_config(str_or_empty(sshd_config));
    sec.kernel_params = security::read_kernel_params(kernel_files);
    Ok(())
}

/// Sets the installed packages from the output of `dpkg-query` (none where
/// it could not be run) and the antivirus or EDR products among them.
pub fn collect_software(software: &mut SoftwareInfo, dpkg_output: Option<&str>) -> (r: Result<(), HuginnError>)
    ensures
        r is Ok,
        ({
            let ls = match dpkg_output {
                Some(o) => etc::package_lines(crate::text::lines_spec(o@)),
                None => Seq::empty(),
            };
            &&& final(software).installed_software@.len() == ls.len()
            &&& forall|k: int|
                0 <= k < ls.len() ==> etc::describes_package(#[trigger] final(software).installed_software@[k], ls[k])
        }),
        strings_view(final(software).av_edr_products@) == etc::av_names(final(software).installed_software@),
{
    let pkgs: Vec<InstalledSoftware> = match dpkg_output {
        Some(o) => etc::list_installed_packages(o),
        None => Vec::new(),
    };
    software.av_edr_products = etc::av_products(pkgs.as_slice());
    software.installed_software = pkgs;
    Ok(())
}

} // verus!
