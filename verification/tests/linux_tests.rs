use huginn::models::system_info::{
    lookup, LocalUser, NetworkInfo, ServiceStartType, ServiceState, SystemInfo,
};
use huginn::platform::linux::etc::{
    av_products, cron_task, crontab_task, read_domain, is_av_package, read_pam_lockout_policy,
    read_sudo_group, read_dns_servers, list_installed_packages, read_os_release,
    read_passwd_users, read_pam_password_policy, release_name, release_version,
};
use huginn::platform::linux::network::{
    get_firewall_status, interface_is_up, list_open_ports, mac_address_from, get_ip_addresses,
    collect_dns_info, check_smb_v1,
};
use huginn::platform::linux::proc::{decode_hex_addr, parse_net_tcp, read_tcp_sockets, tcp_state};
use huginn::platform::linux::security::{kernel_param_names, read_kernel_params, read_ssh_config, record_kernel_param};
use huginn::platform::linux::services::{
    add_binary_path, exec_start_binary, wanted_unit_name, parse_systemctl_output, collect_unit_file_states, unit_start_type,
};
use huginn::platform::linux::{collect_network, collect_users};

const PROC_NET_TCP: &str = "  sl  local_address rem_address   st tx_queue rx_queue tr tm->when retrnsmt   uid  timeout inode\n   0: 0100007F:0035 00000000:0000 0A 00000000:00000000 00:00000000 00000000   101        0 20506 1 0000000000000000 100 0 0 10 0\n   1: 0F02000A:0016 0202000A:D3A4 01 00000000:00000000 02:0005E9A5 00000000     0        0 35062 4 0000000000000000 20 4 29 10 -1\n   2: bad line\n";

#[test]
fn net_tcp_lines_become_sockets() {
    let sockets = parse_net_tcp(PROC_NET_TCP);
    assert_eq!(sockets.len(), 2);
    assert_eq!(sockets[0], ("127.0.0.1".to_string(), 53, "LISTEN".to_string(), 101));
    assert_eq!(sockets[1], ("10.0.2.15".to_string(), 22, "ESTABLISHED".to_string(), 0));
    assert!(read_tcp_sockets(None).is_empty());
}

#[test]
fn hex_addresses_and_states() {
    let v: Vec<char> = "0100007F".chars().collect();
    assert_eq!(decode_hex_addr(&v), "127.0.0.1");
    let bad: Vec<char> = "ZZZZZZZZ".chars().collect();
    assert_eq!(decode_hex_addr(&bad), "0.0.0.0");
    let v6: Vec<char> = "00000000000000000000000001000000".chars().collect();
    assert_eq!(decode_hex_addr(&v6), "00000000000000000000000001000000");
    assert_eq!(tcp_state("0A"), "LISTEN");
    assert_eq!(tcp_state("0B"), "CLOSING");
    assert_eq!(tcp_state("FF"), "UNKNOWN");
}

#[test]
fn only_listening_sockets_are_open_ports() {
    let tcp = parse_net_tcp(PROC_NET_TCP);
    let tcp6 = vec![("::".to_string(), 80u16, "LISTEN".to_string(), 0u32)];
    let ports = list_open_ports(&tcp, &tcp6);
    assert_eq!(ports.len(), 2);
    assert_eq!(ports[0].protocol, "TCP");
    assert_eq!(ports[0].local_port, 53);
    assert_eq!(ports[1].protocol, "TCP6");
    assert_eq!(ports[1].local_addr, "::");
    assert!(ports[1].process_name.is_none());
}

#[test]
fn os_release_keeps_last_value_without_quotes() {
    let t = read_os_release("NAME=\"Ubuntu\"\nVERSION_ID=\"22.04\"\nPRETTY_NAME=\"Ubuntu 22.04.3 LTS\"\nNAME=Debian\njunk\n");
    assert_eq!(lookup(&t, "NAME").map(|s| s.as_str()), Some("Debian"));
    assert_eq!(release_name(&t), "Ubuntu 22.04.3 LTS");
    assert_eq!(release_version(&t), "22.04");
    let empty = read_os_release("");
    assert_eq!(release_name(&empty), "Linux");
    assert_eq!(release_version(&empty), "");
}

#[test]
fn domain_prefers_kerberos_realm() {
    assert_eq!(
        read_domain(Some("[libdefaults]\n  default_realm = CORP.EXAMPLE\n"), Some("domain other\n")),
        Some("CORP.EXAMPLE".to_string())
    );
    assert_eq!(read_domain(Some("default_realm\n"), Some("domain other\n")), None);
    assert_eq!(read_domain(None, Some("search x\ndomain  lab.local \n")), Some("lab.local".to_string()));
    assert_eq!(read_domain(None, None), None);
}

#[test]
fn resolv_conf_name_servers() {
    let servers = read_dns_servers("# generated\nnameserver 1.1.1.1\n  nameserver   9.9.9.9  \nsearch lan\n");
    assert_eq!(servers, vec!["1.1.1.1".to_string(), "9.9.9.9".to_string()]);
}

#[test]
fn accounts_from_passwd_shadow_and_group() {
    let passwd = "root:x:0:0:root:/root:/bin/bash\ndaemon:x:1:1::/usr/sbin:/usr/sbin/nologin\nalice:x:1000:1000::/home/alice:/bin/zsh\nbroken:x:abc:0::/:/bin/sh\nshort:x:1\n";
    let shadow = "root:!:19000:0:99999:7:::\nalice:$6$hash:19000:0:90:7:::\n";
    let group = "sudo:x:27:alice, bob\nusers:x:100:carol\n";
    let users = read_passwd_users(passwd, shadow, group);
    assert_eq!(users.len(), 3);
    let root = &users[0];
    assert!(root.is_admin && root.enabled);
    assert!(!root.password_required);
    assert!(root.password_expires);
    let daemon = &users[1];
    assert!(!daemon.enabled && !daemon.is_admin);
    assert!(daemon.password_required);
    assert!(!daemon.password_expires);
    let alice: &LocalUser = &users[2];
    assert!(alice.is_admin);
    assert_eq!(alice.uid, Some(1000));
    assert!(alice.password_required);
    assert_eq!(read_sudo_group(group), vec!["alice".to_string(), "bob".to_string()]);
}

#[test]
fn pam_password_policy_sources() {
    let pwq = "# comment\nminlen = 12\nucredit=-1\nremember = 5\n";
    let defs = "PASS_MAX_DAYS\t90\nPASS_MIN_DAYS 1\nPASS_MIN_LEN 8\n";
    let p = read_pam_password_policy(Some(pwq), Some(defs));
    assert_eq!(p.min_length, Some(12));
    assert_eq!(p.complexity_required, Some(true));
    assert_eq!(p.history_count, Some(5));
    assert_eq!(p.max_age_days, Some(90));
    assert_eq!(p.min_age_days, Some(1));
    let q = read_pam_password_policy(None, Some(defs));
    assert_eq!(q.min_length, Some(8));
    assert_eq!(q.complexity_required, None);
}

#[test]
fn faillock_policy_in_minutes() {
    let l = read_pam_lockout_policy(Some("deny = 4\nunlock_time = 900\nfail_interval=120\n"));
    assert_eq!(l.threshold, Some(4));
    assert_eq!(l.duration_minutes, Some(15));
    assert_eq!(l.observation_window_minutes, Some(2));
    assert_eq!(read_pam_lockout_policy(None).threshold, None);
}

#[test]
fn dpkg_packages_and_av_products() {
    let out = "bash\t5.1-6\tUbuntu Developers\nclamav\t0.103\tClamAV Team\nnotab\nlibfoo\t1.0\n";
    let pkgs = list_installed_packages(out);
    assert_eq!(pkgs.len(), 3);
    assert_eq!(pkgs[0].vendor.as_deref(), Some("Ubuntu Developers"));
    assert!(pkgs[1].is_av_or_edr);
    assert_eq!(pkgs[2].vendor, None);
    assert_eq!(av_products(&pkgs), vec!["clamav".to_string()]);
    assert!(is_av_package("CrowdStrike-Falcon"));
    assert!(!is_av_package("nginx"));
}

#[test]
fn cron_tasks() {
    assert!(cron_task(".placeholder", "/etc/cron.d/.placeholder").is_none());
    let t = cron_task("logrotate", "/etc/cron.daily/logrotate").unwrap();
    assert_eq!(t.run_as.as_deref(), Some("root"));
    assert!(t.enabled);
    let c = crontab_task();
    assert_eq!(c.name, "crontab");
    assert!(c.run_as.is_none());
}

#[test]
fn sshd_config_first_value_wins() {
    let t = read_ssh_config("# c\nPermitRootLogin no\nPermitRootLogin yes\nPort\t2222 \nBanner\n");
    assert_eq!(lookup(&t, "permitrootlogin").map(|s| s.as_str()), Some("no"));
    assert_eq!(lookup(&t, "port").map(|s| s.as_str()), Some("2222"));
    assert!(lookup(&t, "banner").is_none());
}

#[test]
fn kernel_params_are_trimmed() {
    assert_eq!(kernel_param_names().len(), 14);
    let mut t = Vec::new();
    record_kernel_param(&mut t, "kernel/randomize_va_space", "2\n");
    record_kernel_param(&mut t, "kernel/randomize_va_space", "1\n");
    assert_eq!(t, vec![("kernel/randomize_va_space".to_string(), "1".to_string())]);
}

#[test]
fn systemd_units_become_services() {
    let states = collect_unit_file_states("UNIT FILE STATE PRESET\nssh.service enabled enabled\ncron.service disabled enabled\nfoo.service masked -\n");
    let mut paths = Vec::new();
    add_binary_path(&mut paths, "ssh", "[Service]\nExecStartPre=/x\nExecStart=-/usr/sbin/sshd -D\n");
    let units = "UNIT LOAD ACTIVE SUB DESCRIPTION\nssh.service loaded active running OpenSSH\ncron.service loaded inactive dead Cron\nghost.service not-found inactive dead ghost\nsys.mount loaded active mounted x\n";
    let svcs = parse_systemctl_output(units, &states, &paths);
    assert_eq!(svcs.len(), 2);
    assert_eq!(svcs[0].name, "ssh");
    assert_eq!(svcs[0].state, ServiceState::Running);
    assert_eq!(svcs[0].start_type, ServiceStartType::Automatic);
    assert_eq!(svcs[0].binary_path.as_deref(), Some("/usr/sbin/sshd"));
    assert_eq!(svcs[1].state, ServiceState::Stopped);
    assert_eq!(svcs[1].start_type, ServiceStartType::Disabled);
    assert_eq!(unit_start_type("static"), ServiceStartType::Manual);
    assert_eq!(exec_start_binary("ExecStart=-\n"), None);
}

#[test]
fn interfaces_firewall_and_smb() {
    let ips = get_ip_addresses("2: eth0: <UP>\n    inet 10.0.0.5/24 brd 10.0.0.255 scope global eth0\n    inet6 fe80::1/64 scope link\n");
    assert_eq!(ips, vec!["10.0.0.5/24".to_string(), "fe80::1/64".to_string()]);
    assert!(interface_is_up(Some("up\n")));
    assert!(!interface_is_up(None));
    assert_eq!(mac_address_from(Some("00:00:00:00:00:00\n")), None);
    assert_eq!(mac_address_from(Some("aa:bb:cc:dd:ee:ff\n")), Some("aa:bb:cc:dd:ee:ff".to_string()));
    let ufw = get_firewall_status(Some("Status: active\n"), Some("x"));
    assert_eq!(ufw.len(), 1);
    assert_eq!(ufw[0].name, "ufw");
    assert_eq!(ufw[0].inbound_default, "Block");
    let ipt = get_firewall_status(None, Some("a\nb\n"));
    assert_eq!(ipt[0].name, "iptables");
    assert!(!ipt[0].enabled);
    assert!(get_firewall_status(None, None).is_empty());
    assert_eq!(check_smb_v1(Some("[global]\n  Min Protocol = NT1\n")), Some(true));
    assert_eq!(check_smb_v1(Some("min protocol = SMB2\n")), Some(false));
    assert_eq!(check_smb_v1(Some("[global]\n")), None);
}

#[test]
fn resolvectl_status_sections() {
    let text = "Global\n       Protocols: +LLMNR -mDNS\nresolv.conf mode: stub\n\nLink 2 (eth0)\nCurrent Scopes: DNS\n     DNS Servers: 10.0.0.1\n                  10.0.0.2\n      DNS Domain: lan\n";
    let info = collect_dns_info(Some(text)).unwrap();
    assert_eq!(info.protocols.as_deref(), Some("+LLMNR -mDNS"));
    assert_eq!(info.resolv_conf_mode.as_deref(), Some("stub"));
    assert_eq!(info.links.len(), 1);
    let link = &info.links[0];
    assert_eq!(link.index, 2);
    assert_eq!(link.name, "eth0");
    assert_eq!(link.current_scopes.as_deref(), Some("DNS"));
    assert_eq!(link.dns_servers, vec!["10.0.0.1".to_string(), "10.0.0.2".to_string()]);
    assert_eq!(link.dns_domain.as_deref(), Some("lan"));
    assert!(collect_dns_info(Some("  \n")).is_none());
}

#[test]
fn collectors_fill_network_and_users() {
    let mut info = SystemInfo::default();
    let r = collect_network(&mut info.network, Vec::new(), Some(PROC_NET_TCP), None, None, None, Some("nameserver 8.8.8.8\n"), None);
    assert!(r.is_ok());
    let net: &NetworkInfo = &info.network;
    assert_eq!(net.open_ports.len(), 1);
    assert_eq!(net.dns_servers, vec!["8.8.8.8".to_string()]);
    assert!(net.dns_info.is_none());
    let r = collect_users(&mut info.users, Some("root:x:0:0::/root:/bin/sh\n"), None, None, None, None, None);
    assert!(r.is_ok());
    assert_eq!(info.users.users.len(), 1);
    assert!(info.users.users[0].password_required);
}

#[test]
fn only_listening_sockets_are_read() {
    let sockets = read_tcp_sockets(Some(PROC_NET_TCP));
    assert_eq!(sockets, vec![("127.0.0.1".to_string(), 53, "LISTEN".to_string(), 101)]);
    let two = "  sl  local_address rem_address   st\n0: 0100007F:0016 00000000:0000 0A 00000000:00000000 00:00000000 00000000 0 0 1\n1: 0100007F:1F90 0100007F:D431 01 00000000:00000000 00:00000000 00000000 1000 0 2\n";
    assert_eq!(read_tcp_sockets(Some(two)), vec![("127.0.0.1".to_string(), 22, "LISTEN".to_string(), 0)]);
}

#[test]
fn unit_files_wanted_once_by_service_suffix() {
    let mut paths: Vec<(String, String)> = Vec::new();
    assert_eq!(wanted_unit_name(&paths, "ssh.service").as_deref(), Some("ssh"));
    assert_eq!(wanted_unit_name(&paths, "x.service.service").as_deref(), Some("x"));
    assert_eq!(wanted_unit_name(&paths, "ssh.socket"), None);
    add_binary_path(&mut paths, "ssh", "[Service]\nExecStart=/usr/sbin/sshd -D\n");
    assert_eq!(wanted_unit_name(&paths, "ssh.service"), None);
}

#[test]
fn kernel_params_table_from_files_read() {
    let files = vec![
        ("kernel/randomize_va_space".to_string(), "2\n".to_string()),
        ("net/ipv4/ip_forward".to_string(), " 0 \n".to_string()),
        ("kernel/randomize_va_space".to_string(), "1\n".to_string()),
    ];
    let t = read_kernel_params(&files);
    assert_eq!(t.len(), 2);
    assert_eq!(lookup(&t, "kernel/randomize_va_space").map(|s| s.as_str()), Some("1"));
    assert_eq!(lookup(&t, "net/ipv4/ip_forward").map(|s| s.as_str()), Some("0"));
    assert_eq!(lookup(&t, "fs/suid_dumpable"), None);
}
