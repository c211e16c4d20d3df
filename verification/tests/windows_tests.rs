use huginn::platform::windows::network::{
    be16_from_bytes, be16_from_u32, dotted_from_bytes, firewall_action_string, firewall_profile_from, get_firewall_profiles, ipv4_with_prefix,
    list_open_ports, mac_text, tcp_row_port, SocketRow,
};
use huginn::platform::windows::services::{
    build_service_info, current_state_to_enum, dacl_grants_write_to_non_privileged,
    extract_binary_path_from_imagepath, is_unquoted_service_path, start_type_to_enum, AceSummary,
    ServiceConfig,
};
use huginn::platform::windows::software::{is_av_or_edr, software_entry, sort_and_dedup};
use huginn::platform::windows::system::{split_root, windows_name, windows_version, RegRoot};
use huginn::platform::windows::tasks::{
    build_task, optional_field, parse_csv_rows, parse_scheduled_tasks, split_task_path, COL_STATUS,
    COL_TASK_NAME, COL_TASK_STATE, COL_TASK_TO_RUN,
};
use huginn::platform::windows::users::{
    account_from_info, decode_secedit, lockout_policy_from_modals, password_policy_from_modals,
    seconds_to_days_or_zero, secedit_password_flags,
};
use huginn::models::system_info::{ServiceStartType, ServiceState};

#[test]
fn firewall_action_maps_zero_to_block() {
    assert_eq!(firewall_action_string(Some(0)), "Block");
}

#[test]
fn firewall_action_maps_one_to_allow() {
    assert_eq!(firewall_action_string(Some(1)), "Allow");
}

#[test]
fn firewall_action_defaults_missing_to_block() {
    assert_eq!(firewall_action_string(None), "Block");
}

#[test]
fn be16_extracts_network_order_port() {
    // 0xA1F1 stored little-endian in the low bytes of a u32 = big-endian port 41457.
    let raw = u32::from_ne_bytes([0xA1, 0xF1, 0, 0]);
    assert_eq!(be16_from_u32(raw), 0xA1F1);
}

#[test]
fn firewall_action_other_values_are_unknown() {
    assert_eq!(firewall_action_string(Some(7)), "Unknown");
}

#[test]
fn firewall_profiles_skip_unreadable_ones() {
    let values = [(Some(1), Some(0), None), (None, Some(1), Some(1)), (Some(0), Some(1), Some(1))];
    let profiles = get_firewall_profiles(&values);
    assert_eq!(profiles.len(), 2);
    assert_eq!(profiles[0].name, "Domain");
    assert!(profiles[0].enabled);
    assert_eq!(profiles[0].inbound_default, "Block");
    assert_eq!(profiles[0].outbound_default, "Block");
    assert_eq!(profiles[1].name, "Public");
    assert!(!profiles[1].enabled);
    assert_eq!(profiles[1].inbound_default, "Allow");
    assert!(firewall_profile_from("Private", None, Some(0), Some(0)).is_none());
}

#[test]
fn addresses_and_ports_of_socket_tables() {
    let raw = u32::from_ne_bytes([192, 168, 1, 20]);
    assert_eq!(ipv4_with_prefix(raw, Some(24)), "192.168.1.20/24");
    assert_eq!(ipv4_with_prefix(raw, None), "192.168.1.20");
    let port_raw = u32::from_ne_bytes([0x01, 0xBB, 0, 0]);
    let p = tcp_row_port("TCP", 2, "0.0.0.0".to_string(), port_raw, 4242).unwrap();
    assert_eq!(p.local_port, 443);
    assert_eq!(p.state, "LISTEN");
    assert_eq!(p.pid, Some(4242));
    assert!(tcp_row_port("TCP", 5, "0.0.0.0".to_string(), port_raw, 1).is_none());
}

#[test]
fn mac_addresses_are_upper_case_hex_pairs() {
    assert_eq!(mac_text(&[0x00, 0x1a, 0xFF, 0x09]), Some("00:1A:FF:09".to_string()));
    assert_eq!(mac_text(&[]), None);
}

#[test]
fn unquoted_path_with_space_flagged() {
    assert!(is_unquoted_service_path(r"C:\Program Files\Foo\bar.exe"));
}

#[test]
fn quoted_path_with_space_not_flagged() {
    assert!(!is_unquoted_service_path(r#""C:\Program Files\Foo\bar.exe""#));
}

#[test]
fn path_without_space_not_flagged() {
    assert!(!is_unquoted_service_path(r"C:\Windows\System32\svchost.exe -k netsvcs"));
}

#[test]
fn driver_path_not_flagged() {
    assert!(!is_unquoted_service_path(r"\SystemRoot\System32\drivers\foo.sys"));
}

#[test]
fn extract_quoted_binary_path() {
    let p = extract_binary_path_from_imagepath(r#""C:\Program Files\Foo\bar.exe" --flag"#, r"C:\Windows");
    assert_eq!(p, Some(r"C:\Program Files\Foo\bar.exe".to_string()));
}

#[test]
fn extract_unquoted_binary_path() {
    let p = extract_binary_path_from_imagepath(r"C:\Windows\System32\svchost.exe -k netsvcs", r"C:\Windows");
    assert_eq!(p, Some(r"C:\Windows\System32\svchost.exe".to_string()));
}

#[test]
fn extract_systemroot_driver_path() {
    let p = extract_binary_path_from_imagepath(r"\SystemRoot\System32\drivers\foo.sys", r"C:\Windows");
    let s = p.unwrap().to_ascii_lowercase();
    assert!(s.ends_with(r"\system32\drivers\foo.sys"));
}

#[test]
fn extract_nt_prefix_path() {
    let p = extract_binary_path_from_imagepath(r"\??\C:\ProgramData\Vendor\svc.exe", r"C:\Windows");
    assert_eq!(p, Some(r"C:\ProgramData\Vendor\svc.exe".to_string()));
}

#[test]
fn extract_resolves_system32_and_falls_back_to_first_word() {
    let p = extract_binary_path_from_imagepath(r"system32\svchost.exe -k x", r"C:\Windows\");
    assert_eq!(p, Some(r"C:\Windows\system32\svchost.exe".to_string()));
    let q = extract_binary_path_from_imagepath("C:\\tools\\agent --run", r"C:\Windows");
    assert_eq!(q, Some("C:\\tools\\agent".to_string()));
    assert_eq!(extract_binary_path_from_imagepath("   ", r"C:\Windows"), None);
    assert_eq!(extract_binary_path_from_imagepath("\"C:\\no end", r"C:\Windows"), None);
}

#[test]
fn service_codes_map_to_states() {
    assert_eq!(start_type_to_enum(2), ServiceStartType::Automatic);
    assert_eq!(start_type_to_enum(3), ServiceStartType::Manual);
    assert_eq!(start_type_to_enum(4), ServiceStartType::Disabled);
    assert_eq!(start_type_to_enum(0), ServiceStartType::Unknown);
    assert_eq!(current_state_to_enum(4), ServiceState::Running);
    assert_eq!(current_state_to_enum(1), ServiceState::Stopped);
    assert_eq!(current_state_to_enum(7), ServiceState::Paused);
    assert_eq!(current_state_to_enum(2), ServiceState::Unknown);
}

#[test]
fn weak_dacl_needs_allowed_write_for_unprivileged_sid() {
    let writable = AceSummary { ace_type: 0, ace_size: 20, mask: 0x0000_0002, sid_is_non_privileged: true };
    let read_only = AceSummary { ace_type: 0, ace_size: 20, mask: 0x0012_0089, sid_is_non_privileged: true };
    let admin = AceSummary { ace_type: 0, ace_size: 20, mask: 0x1f01ff, sid_is_non_privileged: false };
    let denied = AceSummary { ace_type: 1, ace_size: 20, mask: 0x0000_0002, sid_is_non_privileged: true };
    let end = AceSummary { ace_type: 0, ace_size: 0, mask: 0, sid_is_non_privileged: false };
    assert!(dacl_grants_write_to_non_privileged(&[admin, writable]));
    assert!(!dacl_grants_write_to_non_privileged(&[admin, read_only, denied]));
    assert!(!dacl_grants_write_to_non_privileged(&[end, writable]));
}

#[test]
fn service_info_flags_unquoted_paths() {
    let cfg = ServiceConfig {
        start_type_code: 2,
        binary_path: Some(r"C:\Program Files\Acme\svc.exe -x".to_string()),
        run_as_account: Some("LocalSystem".to_string()),
    };
    let s = build_service_info("Acme".to_string(), None, 4, Some(cfg), r"C:\Windows", true);
    assert_eq!(s.display_name, "Acme");
    assert_eq!(s.state, ServiceState::Running);
    assert_eq!(s.start_type, ServiceStartType::Automatic);
    assert!(s.unquoted_path);
    assert!(s.weak_permissions);
    let t = build_service_info("Bare".to_string(), Some("Bare svc".to_string()), 1, None, r"C:\Windows", true);
    assert_eq!(t.display_name, "Bare svc");
    assert!(!t.weak_permissions);
    assert_eq!(t.start_type, ServiceStartType::Unknown);
}

#[test]
fn parses_simple_csv_row() {
    let rows = parse_csv_rows("a,b,c\n");
    assert_eq!(rows, vec![vec!["a", "b", "c"]]);
}

#[test]
fn parses_quoted_field_with_comma() {
    let rows = parse_csv_rows("a,\"b,c\",d\n");
    assert_eq!(rows, vec![vec!["a", "b,c", "d"]]);
}

#[test]
fn parses_escaped_quote() {
    let rows = parse_csv_rows("a,\"say \"\"hi\"\"\",b\n");
    assert_eq!(rows, vec![vec!["a", "say \"hi\"", "b"]]);
}

#[test]
fn skips_blank_lines() {
    let rows = parse_csv_rows("a,b\n\nc,d\n");
    assert_eq!(rows, vec![vec!["a", "b"], vec!["c", "d"]]);
}

#[test]
fn csv_keeps_last_row_without_newline_and_drops_carriage_returns() {
    let rows = parse_csv_rows("a,b\r\n\"x\ny\",z");
    assert_eq!(rows, vec![vec!["a", "b"], vec!["x\ny", "z"]]);
    assert_eq!(parse_csv_rows(",,\n"), Vec::<Vec<String>>::new());
}

#[test]
fn split_task_path_nested() {
    assert_eq!(
        split_task_path(r"\Microsoft\Windows\Foo\Bar"),
        (r"\Microsoft\Windows\Foo".to_string(), "Bar".to_string())
    );
}

#[test]
fn split_task_path_root() {
    assert_eq!(
        split_task_path(r"\Foo"),
        (r"\".to_string(), "Foo".to_string())
    );
}

#[test]
fn optional_field_treats_na_as_none() {
    let row = vec!["".to_string(), "N/A".to_string(), "value".to_string()];
    assert!(optional_field(&row, 0).is_none());
    assert!(optional_field(&row, 1).is_none());
    assert_eq!(optional_field(&row, 2), Some("value".to_string()));
}

#[test]
fn build_task_uses_disabled_state() {
    let mut row = vec![String::new(); 20];
    row[COL_TASK_NAME] = r"\Vendor\Test".to_string();
    row[COL_STATUS] = "Ready".to_string();
    row[COL_TASK_STATE] = "Disabled".to_string();
    row[COL_TASK_TO_RUN] = r"C:\Vendor\svc.exe".to_string();
    let task = build_task(&row).unwrap();
    assert!(!task.enabled);
    assert_eq!(task.name, "Test");
    assert_eq!(task.path.as_deref(), Some(r"\Vendor"));
    assert_eq!(task.action.as_deref(), Some(r"C:\Vendor\svc.exe"));
}

#[test]
fn build_task_skips_header_row() {
    let mut row = vec![String::new(); 20];
    row[COL_TASK_NAME] = "TaskName".to_string();
    assert!(build_task(&row).is_none());
}

#[test]
fn scheduled_tasks_from_csv() {
    let mut fields = vec![String::new(); 19];
    fields[COL_TASK_NAME] = r"\Backup".to_string();
    fields[COL_STATUS] = "Ready".to_string();
    fields[14] = "SYSTEM".to_string();
    fields[18] = "Daily".to_string();
    let line: Vec<String> = fields.iter().map(|f| format!("\"{}\"", f)).collect();
    let csv = format!("{}\n", line.join(","));
    let tasks = parse_scheduled_tasks(&csv);
    assert_eq!(tasks.len(), 1);
    assert_eq!(tasks[0].name, "Backup");
    assert_eq!(tasks[0].path.as_deref(), Some(r"\"));
    assert_eq!(tasks[0].run_as.as_deref(), Some("SYSTEM"));
    assert_eq!(tasks[0].trigger.as_deref(), Some("Daily"));
    assert!(tasks[0].action.is_none());
    assert!(tasks[0].enabled);
}

#[test]
fn account_policies_from_modals() {
    assert_eq!(seconds_to_days_or_zero(u32::MAX), 0);
    assert_eq!(seconds_to_days_or_zero(90 * 86400 + 5), 90);
    let p = password_policy_from_modals(14, u32::MAX, 86400, 24);
    assert_eq!(p.min_length, Some(14));
    assert_eq!(p.max_age_days, Some(0));
    assert_eq!(p.min_age_days, Some(1));
    assert_eq!(p.history_count, Some(24));
    let l = lockout_policy_from_modals(5, u32::MAX, 900);
    assert_eq!(l.threshold, Some(5));
    assert_eq!(l.duration_minutes, Some(0));
    assert_eq!(l.observation_window_minutes, Some(15));
}

#[test]
fn accounts_from_user_info() {
    let admins = vec![r"HOST\Admin".to_string()];
    let u = account_from_info("admin".to_string(), Some(String::new()), 0x0002 | 0x10000, 0, 100, 1_000, &admins);
    assert!(u.is_admin);
    assert!(!u.enabled);
    assert!(u.password_required);
    assert!(!u.password_expires);
    assert_eq!(u.full_name, None);
    assert_eq!(u.last_logon, None);
    assert_eq!(u.password_last_set, Some(900_000_000));
    let v = account_from_info("guest".to_string(), Some("Guest".to_string()), 0x0020, 5, 0, 1_000, &admins);
    assert!(!v.is_admin);
    assert!(!v.password_required);
    assert_eq!(v.last_logon, Some(5_000_000));
    assert_eq!(v.password_last_set, None);
}

#[test]
fn secedit_flags_from_system_access_section() {
    let text = "[Unicode]\nUnicode=yes\n[System Access]\nMinimumPasswordAge = 1\nPasswordComplexity = 1\nClearTextPassword = 0\n[Event Audit]\nPasswordComplexity = 0\n";
    assert_eq!(secedit_password_flags(text), Some((true, false)));
    assert_eq!(secedit_password_flags("[System Access]\nPasswordComplexity = 1\n"), None);
    let mut raw = vec![0xFF, 0xFE];
    for u in "[System Access]".encode_utf16() {
        raw.extend_from_slice(&u.to_le_bytes());
    }
    assert_eq!(decode_secedit(&raw), "[System Access]");
    assert_eq!(decode_secedit(b"plain"), "plain");
}

#[test]
fn software_markers_and_dedup() {
    assert!(is_av_or_edr("CrowdStrike Windows Sensor", None));
    assert!(is_av_or_edr("Sensor", Some("SentinelOne Inc.")));
    assert!(!is_av_or_edr("7-Zip", Some("Igor Pavlov")));
    let entries = vec![
        software_entry("b".to_string(), Some("1".to_string()), None, None, None),
        software_entry("A".to_string(), Some("2".to_string()), None, None, None),
        software_entry("a".to_string(), Some("2".to_string()), None, None, None),
        software_entry("a".to_string(), None, None, None, None),
    ];
    let out = sort_and_dedup(entries);
    let names: Vec<(String, Option<String>)> = out.iter().map(|e| (e.name.clone(), e.version.clone())).collect();
    assert_eq!(
        names,
        vec![
            ("a".to_string(), None),
            ("A".to_string(), Some("2".to_string())),
            ("b".to_string(), Some("1".to_string())),
        ]
    );
}

#[test]
fn registry_roots_and_windows_identity() {
    assert_eq!(split_root(r"HKLM\SOFTWARE\X"), Some((RegRoot::LocalMachine, r"SOFTWARE\X".to_string())));
    assert_eq!(split_root(r"HKEY_CURRENT_USER\Y"), Some((RegRoot::CurrentUser, "Y".to_string())));
    assert_eq!(split_root(r"HKCR\Z"), None);
    assert_eq!(split_root("HKLM"), None);
    assert_eq!(windows_name(Some("Windows 10 Pro"), Some("22631")), "Windows 11 Pro");
    assert_eq!(windows_name(Some("Windows 10 Pro"), Some("19045")), "Windows 10 Pro");
    assert_eq!(windows_name(None, None), "Windows");
    assert_eq!(windows_version(Some(10), Some(0), Some("22631"), Some("23H2")), "10.0.22631 (23H2)");
    assert_eq!(windows_version(None, Some(0), Some("22631"), None), "22631");
    assert_eq!(windows_version(Some(10), Some(0), None, Some("23H2")), "");
}

#[test]
fn open_ports_from_socket_table_rows() {
    let row = |addr: &str, port: u16, state: u32, pid: u32| SocketRow {
        local_addr: addr.to_string(),
        raw_port: u32::from_ne_bytes([(port >> 8) as u8, (port & 0xff) as u8, 0, 0]),
        state,
        owning_pid: pid,
    };
    let tcp4 = vec![row("0.0.0.0", 445, 2, 4), row("10.0.0.5", 50000, 5, 9)];
    let tcp6 = vec![row("::", 135, 2, 900)];
    let udp4 = vec![row("0.0.0.0", 53, 0, 1200)];
    let udp6: Vec<SocketRow> = Vec::new();
    let ports = list_open_ports(&tcp4, &tcp6, &udp4, &udp6);
    let got: Vec<(String, String, u16, Option<u32>)> = ports
        .iter()
        .map(|p| (p.protocol.clone(), p.local_addr.clone(), p.local_port, p.pid))
        .collect();
    assert_eq!(
        got,
        vec![
            ("TCP".to_string(), "0.0.0.0".to_string(), 445, Some(4)),
            ("TCP6".to_string(), "::".to_string(), 135, Some(900)),
            ("UDP".to_string(), "0.0.0.0".to_string(), 53, Some(1200)),
        ]
    );
    assert!(ports.iter().all(|p| p.state == "LISTEN" && p.remote_addr.is_none() && p.process_name.is_none()));
}

#[test]
fn ports_and_addresses_from_table_bytes() {
    assert_eq!(be16_from_bytes([0x01, 0xBB, 0, 0]), 443);
    assert_eq!(dotted_from_bytes([10, 0, 0, 254]), "10.0.0.254");
    let raw = u32::from_ne_bytes([0x1F, 0x90, 0, 0]);
    assert_eq!(be16_from_u32(raw), 8080);
}
