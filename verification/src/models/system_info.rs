//! What the collectors record about a host.
use vstd::prelude::*;

verus! {

/// Password policy settings; `None` where the setting could not be read.
#[derive(Debug, Clone, Copy, PartialEq, Eq, Structural)]
pub struct PasswordPolicy {
    pub min_length: Option<u32>,
    pub max_age_days: Option<u32>,
    pub min_age_days: Option<u32>,
    pub history_count: Option<u32>,
    pub complexity_required: Option<bool>,
    pub reversible_encryption: Option<bool>,
}

impl PasswordPolicy {
    pub open spec fn empty_spec() -> Self {
        PasswordPolicy {
            min_length: None,
            max_age_days: None,
            min_age_days: None,
            history_count: None,
            complexity_required: None,
            reversible_encryption: None,
        }
    }
}

impl Default for PasswordPolicy {
    fn default() -> (r: Self)
        ensures
            r == PasswordPolicy::empty_spec(),
    {
        PasswordPolicy {
            min_length: None,
            max_age_days: None,
            min_age_days: None,
            history_count: None,
            complexity_required: None,
            reversible_encryption: None,
        }
    }
}

/// Account lockout settings; `None` where the setting could not be read.
#[derive(Debug, Clone, Copy, PartialEq, Eq, Structural)]
pub struct LockoutPolicy {
    pub threshold: Option<u32>,
    pub duration_minutes: Option<u32>,
    pub observation_window_minutes: Option<u32>,
}

impl LockoutPolicy {
    pub open spec fn empty_spec() -> Self {
        LockoutPolicy { threshold: None, duration_minutes: None, observation_window_minutes: None }
    }
}

impl Default for LockoutPolicy {
    fn default() -> (r: Self)
        ensures
            r == LockoutPolicy::empty_spec(),
    {
        LockoutPolicy { threshold: None, duration_minutes: None, observation_window_minutes: None }
    }
}

/// The run state of a service.
#[derive(Debug, Clone, Copy, PartialEq, Eq, Structural)]
pub enum ServiceState {
    Running,
    Stopped,
    Paused,
    Unknown,
}

impl Default for ServiceState {
    fn default() -> (r: Self)
        ensures
            r == ServiceState::Unknown,
    {
        ServiceState::Unknown
    }
}

/// How a service is started.
#[derive(Debug, Clone, Copy, PartialEq, Eq, Structural)]
pub enum ServiceStartType {
    Automatic,
    AutomaticDelayed,
    Manual,
    Disabled,
    Unknown,
}

impl Default for ServiceStartType {
    fn default() -> (r: Self)
        ensures
            r == ServiceStartType::Unknown,
    {
        ServiceStartType::Unknown
    }
}

/// Operating system identity and uptime. Times are microseconds since the Unix epoch.
#[derive(Debug, Clone)]
pub struct OsInfo {
    pub name: String,
    pub version: String,
    pub build: Option<String>,
    pub architecture: String,
    pub hostname: String,
    pub domain: Option<String>,
    pub uptime_seconds: u64,
    pub install_date: Option<i64>,
    pub last_boot: Option<i64>,
}

impl OsInfo {
    /// Every field empty, absent, zero or false.
    pub open spec fn is_default_spec(&self) -> bool {
        &&& self.name@.len() == 0
        &&& self.version@.len() == 0
        &&& self.build is None
        &&& self.architecture@.len() == 0
        &&& self.hostname@.len() == 0
        &&& self.domain is None
        &&& self.uptime_seconds == 0
        &&& self.install_date is None
        &&& self.last_boot is None
    }
}

impl Default for OsInfo {
    fn default() -> (r: Self)
        ensures
            r.is_default_spec(),
    {
        OsInfo {
            name: String::new(),
            version: String::new(),
            build: None,
            architecture: String::new(),
            hostname: String::new(),
            domain: None,
            uptime_seconds: 0,
            install_date: None,
            last_boot: None,
        }
    }
}

/// A local account. Times are microseconds since the Unix epoch.
#[derive(Debug, Clone)]
pub struct LocalUser {
    pub username: String,
    pub full_name: Option<String>,
    pub sid: Option<String>,
    pub uid: Option<u32>,
    pub enabled: bool,
    pub password_required: bool,
    pub password_expires: bool,
    pub password_last_set: Option<i64>,
    pub last_logon: Option<i64>,
    pub groups: Vec<String>,
    pub is_admin: bool,
}

impl LocalUser {
    /// Every field empty, absent, zero or false.
    pub open spec fn is_default_spec(&self) -> bool {
        &&& self.username@.len() == 0
        &&& self.full_name is None
        &&& self.sid is None
        &&& self.uid is None
        &&& !self.enabled
        &&& !self.password_required
        &&& !self.password_expires
        &&& self.password_last_set is None
        &&& self.last_logon is None
        &&& self.groups@.len() == 0
        &&& !self.is_admin
    }
}

impl Default for LocalUser {
    fn default() -> (r: Self)
        ensures
            r.is_default_spec(),
    {
        LocalUser {
            username: String::new(),
            full_name: None,
            sid: None,
            uid: None,
            enabled: false,
            password_required: false,
            password_expires: false,
            password_last_set: None,
            last_logon: None,
            groups: Vec::new(),
            is_admin: false,
        }
    }
}

/// Accounts and account policies.
#[derive(Debug, Clone)]
pub struct UserInfo {
    pub users: Vec<LocalUser>,
    pub admin_group_members: Vec<String>,
    pub password_policy: PasswordPolicy,
    pub lockout_policy: LockoutPolicy,
}

impl UserInfo {
    /// Every field empty, absent, zero or false.
    pub open spec fn is_default_spec(&self) -> bool {
        &&& self.users@.len() == 0
        &&& self.admin_group_members@.len() == 0
        &&& self.password_policy == PasswordPolicy::empty_spec()
        &&& self.lockout_policy == LockoutPolicy::empty_spec()
    }
}

impl Default for UserInfo {
    fn default() -> (r: Self)
        ensures
            r.is_default_spec(),
    {
        UserInfo {
            users: Vec::new(),
            admin_group_members: Vec::new(),
            password_policy: PasswordPolicy::default(),
            lockout_policy: LockoutPolicy::default(),
        }
    }
}

/// One service and what was found about its binary.
#[derive(Debug, Clone)]
pub struct ServiceInfo {
    pub name: String,
    pub display_name: String,
    pub state: ServiceState,
    pub start_type: ServiceStartType,
    pub binary_path: Option<String>,
    pub run_as_account: Option<String>,
    pub description: Option<String>,
    pub weak_permissions: bool,
    pub unquoted_path: bool,
}

impl ServiceInfo {
    /// Every field empty, absent, zero or false.
    pub open spec fn is_default_spec(&self) -> bool {
        &&& self.name@.len() == 0
        &&& self.display_name@.len() == 0
        &&& self.state == ServiceState::Unknown
        &&& self.start_type == ServiceStartType::Unknown
        &&& self.binary_path is None
        &&& self.run_as_account is None
        &&& self.description is None
        &&& !self.weak_permissions
        &&& !self.unquoted_path
    }
}

impl Default for ServiceInfo {
    fn default() -> (r: Self)
        ensures
            r.is_default_spec(),
    {
        ServiceInfo {
            name: String::new(),
            display_name: String::new(),
            state: ServiceState::Unknown,
            start_type: ServiceStartType::Unknown,
            binary_path: None,
            run_as_account: None,
            description: None,
            weak_permissions: false,
            unquoted_path: false,
        }
    }
}

/// All services.
#[derive(Debug, Clone)]
pub struct ServicesInfo {
    pub services: Vec<ServiceInfo>,
}

impl ServicesInfo {
    /// Every field empty, absent, zero or false.
    pub open spec fn is_default_spec(&self) -> bool {
        &&& self.services@.len() == 0
    }
}

impl Default for ServicesInfo {
    fn default() -> (r: Self)
        ensures
            r.is_default_spec(),
    {
        ServicesInfo {
            services: Vec::new(),
        }
    }
}

/// A network interface.
#[derive(Debug, Clone)]
pub struct NetworkInterface {
    pub name: String,
    pub mac_address: Option<String>,
    pub ip_addresses: Vec<String>,
    pub dns_servers: Vec<String>,
    pub dhcp_enabled: bool,
    pub is_up: bool,
}

impl NetworkInterface {
    /// Every field empty, absent, zero or false.
    pub open spec fn is_default_spec(&self) -> bool {
        &&& self.name@.len() == 0
        &&& self.mac_address is None
        &&& self.ip_addresses@.len() == 0
        &&& self.dns_servers@.len() == 0
        &&& !self.dhcp_enabled
        &&& !self.is_up
    }
}

impl Default for NetworkInterface {
    fn default() -> (r: Self)
        ensures
            r.is_default_spec(),
    {
        NetworkInterface {
            name: String::new(),
            mac_address: None,
            ip_addresses: Vec::new(),
            dns_servers: Vec::new(),
            dhcp_enabled: false,
            is_up: false,
        }
    }
}

/// A listening socket.
#[derive(Debug, Clone)]
pub struct OpenPort {
    pub protocol: String,
    pub local_addr: String,
    pub local_port: u16,
    pub remote_addr: Option<String>,
    pub remote_port: Option<u16>,
    pub state: String,
    pub pid: Option<u32>,
    pub process_name: Option<String>,
}

impl OpenPort {
    /// Every field empty, absent, zero or false.
    pub open spec fn is_default_spec(&self) -> bool {
        &&& self.protocol@.len() == 0
        &&& self.local_addr@.len() == 0
        &&& self.local_port == 0
        &&& self.remote_addr is None
        &&& self.remote_port is None
        &&& self.state@.len() == 0
        &&& self.pid is None
        &&& self.process_name is None
    }
}

impl Default for OpenPort {
    fn default() -> (r: Self)
        ensures
            r.is_default_spec(),
    {
        OpenPort {
            protocol: String::new(),
            local_addr: String::new(),
            local_port: 0,
            remote_addr: None,
            remote_port: None,
            state: String::new(),
            pid: None,
            process_name: None,
        }
    }
}

/// A firewall profile and its default actions.
#[derive(Debug, Clone)]
pub struct FirewallProfile {
    pub name: String,
    pub enabled: bool,
    pub inbound_default: String,
    pub outbound_default: String,
}

impl FirewallProfile {
    /// Every field empty, absent, zero or false.
    pub open spec fn is_default_spec(&self) -> bool {
        &&& self.name@.len() == 0
        &&& !self.enabled
        &&& self.inbound_default@.len() == 0
        &&& self.outbound_default@.len() == 0
    }
}

impl Default for FirewallProfile {
    fn default() -> (r: Self)
        ensures
            r.is_default_spec(),
    {
        FirewallProfile {
            name: String::new(),
            enabled: false,
            inbound_default: String::new(),
            outbound_default: String::new(),
        }
    }
}

/// Resolver settings of one link, as `resolvectl status` reports them.
#[derive(Debug, Clone)]
pub struct DnsLinkInfo {
    pub index: u32,
    pub name: String,
    pub current_scopes: Option<String>,
    pub protocols: Option<String>,
    pub current_dns_server: Option<String>,
    pub dns_servers: Vec<String>,
    pub dns_domain: Option<String>,
}

impl DnsLinkInfo {
    /// Every field empty, absent, zero or false.
    pub open spec fn is_default_spec(&self) -> bool {
        &&& self.index == 0
        &&& self.name@.len() == 0
        &&& self.current_scopes is None
        &&& self.protocols is None
        &&& self.current_dns_server is None
        &&& self.dns_servers@.len() == 0
        &&& self.dns_domain is None
    }
}

impl Default for DnsLinkInfo {
    fn default() -> (r: Self)
        ensures
            r.is_default_spec(),
    {
        DnsLinkInfo {
            index: 0,
            name: String::new(),
            current_scopes: None,
            protocols: None,
            current_dns_server: None,
            dns_servers: Vec::new(),
            dns_domain: None,
        }
    }
}

/// Global resolver settings and the settings of each link.
#[derive(Debug, Clone)]
pub struct DnsInfo {
    pub protocols: Option<String>,
    pub resolv_conf_mode: Option<String>,
    pub current_dns_server: Option<String>,
    pub dns_servers: Vec<String>,
    pub dns_domain: Option<String>,
    pub links: Vec<DnsLinkInfo>,
}

impl DnsInfo {
    /// Every field empty, absent, zero or false.
    pub open spec fn is_default_spec(&self) -> bool {
        &&& self.protocols is None
        &&& self.resolv_conf_mode is None
        &&& self.current_dns_server is None
        &&& self.dns_servers@.len() == 0
        &&& self.dns_domain is None
        &&& self.links@.len() == 0
    }
}

impl Default for DnsInfo {
    fn default() -> (r: Self)
        ensures
            r.is_default_spec(),
    {
        DnsInfo {
            protocols: None,
            resolv_conf_mode: None,
            current_dns_server: None,
            dns_servers: Vec::new(),
            dns_domain: None,
            links: Vec::new(),
        }
    }
}

/// Interfaces, sockets, firewall and DNS.
#[derive(Debug, Clone)]
pub struct NetworkInfo {
    pub interfaces: Vec<NetworkInterface>,
    pub open_ports: Vec<OpenPort>,
    pub firewall_profiles: Vec<FirewallProfile>,
    pub dns_servers: Vec<String>,
    pub proxy_settings: Option<String>,
    pub dns_info: Option<DnsInfo>,
}

impl NetworkInfo {
    /// Every field empty, absent, zero or false.
    pub open spec fn is_default_spec(&self) -> bool {
        &&& self.interfaces@.len() == 0
        &&& self.open_ports@.len() == 0
        &&& self.firewall_profiles@.len() == 0
        &&& self.dns_servers@.len() == 0
        &&& self.proxy_settings is None
        &&& self.dns_info is None
    }
}

impl Default for NetworkInfo {
    fn default() -> (r: Self)
        ensures
            r.is_default_spec(),
    {
        NetworkInfo {
            interfaces: Vec::new(),
            open_ports: Vec::new(),
            firewall_profiles: Vec::new(),
            dns_servers: Vec::new(),
            proxy_settings: None,
            dns_info: None,
        }
    }
}

/// Security settings. Key/value tables keep their entries in the order they were read; a lookup finds the first entry with the key. Times are microseconds since the Unix epoch.
#[derive(Debug, Clone)]
pub struct SecurityPolicies {
    pub uac_enabled: Option<bool>,
    pub uac_level: Option<u32>,
    pub secure_desktop: Option<bool>,
    pub lsa_protection: Option<bool>,
    pub credential_guard: Option<bool>,
    pub audit_policies: Vec<(String, String)>,
    pub defender_enabled: Option<bool>,
    pub defender_real_time: Option<bool>,
    pub defender_last_update: Option<i64>,
    pub smb_v1_enabled: Option<bool>,
    pub rdp_enabled: Option<bool>,
    pub rdp_nla_required: Option<bool>,
    pub powershell_script_block_logging: Option<bool>,
    pub powershell_transcription: Option<bool>,
    pub bitlocker_status: Option<String>,
    pub ssh_config: Vec<(String, String)>,
    pub kernel_params: Vec<(String, String)>,
}

impl SecurityPolicies {
    /// Every field empty, absent, zero or false.
    pub open spec fn is_default_spec(&self) -> bool {
        &&& self.uac_enabled is None
        &&& self.uac_level is None
        &&& self.secure_desktop is None
        &&& self.lsa_protection is None
        &&& self.credential_guard is None
        &&& self.audit_policies@.len() == 0
        &&& self.defender_enabled is None
        &&& self.defender_real_time is None
        &&& self.defender_last_update is None
        &&& self.smb_v1_enabled is None
        &&& self.rdp_enabled is None
        &&& self.rdp_nla_required is None
        &&& self.powershell_script_block_logging is None
        &&& self.powershell_transcription is None
        &&& self.bitlocker_status is None
        &&& self.ssh_config@.len() == 0
        &&& self.kernel_params@.len() == 0
    }
}

impl Default for SecurityPolicies {
    fn default() -> (r: Self)
        ensures
            r.is_default_spec(),
    {
        SecurityPolicies {
            uac_enabled: None,
            uac_level: None,
            secure_desktop: None,
            lsa_protection: None,
            credential_guard: None,
            audit_policies: Vec::new(),
            defender_enabled: None,
            defender_real_time: None,
            defender_last_update: None,
            smb_v1_enabled: None,
            rdp_enabled: None,
            rdp_nla_required: None,
            powershell_script_block_logging: None,
            powershell_transcription: None,
            bitlocker_status: None,
            ssh_config: Vec::new(),
            kernel_params: Vec::new(),
        }
    }
}

/// An installed product.
#[derive(Debug, Clone)]
pub struct InstalledSoftware {
    pub name: String,
    pub version: Option<String>,
    pub vendor: Option<String>,
    pub install_date: Option<String>,
    pub install_location: Option<String>,
    pub is_av_or_edr: bool,
}

impl InstalledSoftware {
    /// Every field empty, absent, zero or false.
    pub open spec fn is_default_spec(&self) -> bool {
        &&& self.name@.len() == 0
        &&& self.version is None
        &&& self.vendor is None
        &&& self.install_date is None
        &&& self.install_location is None
        &&& !self.is_av_or_edr
    }
}

impl Default for InstalledSoftware {
    fn default() -> (r: Self)
        ensures
            r.is_default_spec(),
    {
        InstalledSoftware {
            name: String::new(),
            version: None,
            vendor: None,
            install_date: None,
            install_location: None,
            is_av_or_edr: false,
        }
    }
}

/// An installed update. Times are microseconds since the Unix epoch.
#[derive(Debug, Clone)]
pub struct PatchInfo {
    pub kb_id: String,
    pub description: String,
    pub installed_on: Option<i64>,
}

impl PatchInfo {
    /// Every field empty, absent, zero or false.
    pub open spec fn is_default_spec(&self) -> bool {
        &&& self.kb_id@.len() == 0
        &&& self.description@.len() == 0
        &&& self.installed_on is None
    }
}

impl Default for PatchInfo {
    fn default() -> (r: Self)
        ensures
            r.is_default_spec(),
    {
        PatchInfo {
            kb_id: String::new(),
            description: String::new(),
            installed_on: None,
        }
    }
}

/// Installed software and updates. Times are microseconds since the Unix epoch.
#[derive(Debug, Clone)]
pub struct SoftwareInfo {
    pub installed_software: Vec<InstalledSoftware>,
    pub hotfixes: Vec<PatchInfo>,
    pub av_edr_products: Vec<String>,
    pub windows_update_enabled: Option<bool>,
    pub last_update_check: Option<i64>,
}

impl SoftwareInfo {
    /// Every field empty, absent, zero or false.
    pub open spec fn is_default_spec(&self) -> bool {
        &&& self.installed_software@.len() == 0
        &&& self.hotfixes@.len() == 0
        &&& self.av_edr_products@.len() == 0
        &&& self.windows_update_enabled is None
        &&& self.last_update_check is None
    }
}

impl Default for SoftwareInfo {
    fn default() -> (r: Self)
        ensures
            r.is_default_spec(),
    {
        SoftwareInfo {
            installed_software: Vec::new(),
            hotfixes: Vec::new(),
            av_edr_products: Vec::new(),
            windows_update_enabled: None,
            last_update_check: None,
        }
    }
}

/// A scheduled task or cron job. Times are microseconds since the Unix epoch.
#[derive(Debug, Clone)]
pub struct ScheduledTask {
    pub name: String,
    pub path: Option<String>,
    pub action: Option<String>,
    pub run_as: Option<String>,
    pub trigger: Option<String>,
    pub enabled: bool,
    pub last_run: Option<i64>,
    pub next_run: Option<i64>,
    pub hidden: bool,
}

impl ScheduledTask {
    /// Every field empty, absent, zero or false.
    pub open spec fn is_default_spec(&self) -> bool {
        &&& self.name@.len() == 0
        &&& self.path is None
        &&& self.action is None
        &&& self.run_as is None
        &&& self.trigger is None
        &&& !self.enabled
        &&& self.last_run is None
        &&& self.next_run is None
        &&& !self.hidden
    }
}

impl Default for ScheduledTask {
    fn default() -> (r: Self)
        ensures
            r.is_default_spec(),
    {
        ScheduledTask {
            name: String::new(),
            path: None,
            action: None,
            run_as: None,
            trigger: None,
            enabled: false,
            last_run: None,
            next_run: None,
            hidden: false,
        }
    }
}

/// All scheduled tasks.
#[derive(Debug, Clone)]
pub struct ScheduledTasksInfo {
    pub tasks: Vec<ScheduledTask>,
}

impl ScheduledTasksInfo {
    /// Every field empty, absent, zero or false.
    pub open spec fn is_default_spec(&self) -> bool {
        &&& self.tasks@.len() == 0
    }
}

impl Default for ScheduledTasksInfo {
    fn default() -> (r: Self)
        ensures
            r.is_default_spec(),
    {
        ScheduledTasksInfo {
            tasks: Vec::new(),
        }
    }
}

/// Everything collected about one host. `collected_at` is in microseconds since the Unix epoch.
#[derive(Debug, Clone)]
pub struct SystemInfo {
    pub collected_at: Option<i64>,
    pub os: OsInfo,
    pub users: UserInfo,
    pub services: ServicesInfo,
    pub network: NetworkInfo,
    pub security: SecurityPolicies,
    pub software: SoftwareInfo,
    pub scheduled_tasks: ScheduledTasksInfo,
}

impl SystemInfo {
    /// Every field empty, absent, zero or false.
    pub open spec fn is_default_spec(&self) -> bool {
        &&& self.collected_at is None
        &&& self.os.is_default_spec()
        &&& self.users.is_default_spec()
        &&& self.services.is_default_spec()
        &&& self.network.is_default_spec()
        &&& self.security.is_default_spec()
        &&& self.software.is_default_spec()
        &&& self.scheduled_tasks.is_default_spec()
    }
}

impl Default for SystemInfo {
    fn default() -> (r: Self)
        ensures
            r.is_default_spec(),
    {
        SystemInfo {
            collected_at: None,
            os: OsInfo::default(),
            users: UserInfo::default(),
            services: ServicesInfo::default(),
            network: NetworkInfo::default(),
            security: SecurityPolicies::default(),
            software: SoftwareInfo::default(),
            scheduled_tasks: ScheduledTasksInfo::default(),
        }
    }
}

/// The value of the first entry of a key/value table whose key is `key`.
pub open spec fn lookup_spec(t: Seq<(String, String)>, key: Seq<char>) -> Option<Seq<char>> {
    match crate::table::value_of(t, key) {
        Some(v) => Some(v@),
        None => None,
    }
}

/// The value of the first entry whose key is `key`. In a table where no key
/// occurs twice, that is the value of the one entry of that key, as a map's
/// `get` gives it.
pub fn lookup<'a>(t: &'a Vec<(String, String)>, key: &str) -> (r: Option<&'a String>)
    ensures
        match r {
            Some(v) => lookup_spec(t@, key@) == Some(v@),
            None => lookup_spec(t@, key@) is None,
        },
        crate::table::keys_unique(t@) ==> match r {
            Some(v) => forall|i: int| 0 <= i < t@.len() && (#[trigger] t@[i]).0@ == key@ ==> t@[i].1@ == v@,
            None => forall|i: int| 0 <= i < t@.len() ==> (#[trigger] t@[i]).0@ != key@,
        },
{
    match crate::table::find_key(t, key) {
        Some(i) => Some(&t[i].1),
        None => None,
    }
}

} // verus!
