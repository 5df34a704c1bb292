//! The FTP server's state as the rest of the application sees it: its statistics, its
//! authentication mode, the runtime snapshot kept while it runs, and its connection info.
use vstd::prelude::*;
use crate::text::{chars_of, trim_whitespace, trim_ws};
use crate::config::AuthConfig;
use crate::net::{ipv4_host, ipv4_socket_addr, normalize_ipv4_host, format_ipv4_ftp_url};

verus! {

/// Statistics of the FTP server.
#[derive(Debug, Clone, PartialEq, Eq)]
pub struct ServerStats {
    pub active_connections: u64,
    pub total_uploads: u64,
    pub total_bytes_received: u64,
    pub last_uploaded_file: Option<String>,
}

impl Default for ServerStats {
    fn default() -> (r: Self)
        ensures
            r == zero_stats(),
    {
        ServerStats { active_connections: 0, total_uploads: 0, total_bytes_received: 0, last_uploaded_file: None }
    }
}

pub open spec fn zero_stats() -> ServerStats {
    ServerStats { active_connections: 0, total_uploads: 0, total_bytes_received: 0, last_uploaded_file: None }
}

/// The authentication of the FTP server: anonymous access or a user with a password.
#[derive(Debug, Clone, PartialEq, Eq)]
pub enum FtpAuthConfig {
    Anonymous,
    Authenticated { username: String, password_hash: String },
}

impl Default for FtpAuthConfig {
    fn default() -> (r: Self)
        ensures
            r == FtpAuthConfig::Anonymous,
    {
        FtpAuthConfig::Anonymous
    }
}

/// The server's authentication for configured settings: anonymous when anonymous access
/// is on, the user name is blank or no password is set; else the configured user.
pub open spec fn auth_mode(auth: AuthConfig) -> FtpAuthConfig {
    if auth.anonymous || trim_ws(auth.username@).len() == 0 || auth.password_hash@.len() == 0 {
        FtpAuthConfig::Anonymous
    } else {
        FtpAuthConfig::Authenticated { username: auth.username, password_hash: auth.password_hash }
    }
}

impl FtpAuthConfig {
    /// The server's authentication for configured settings (see `auth_mode`).
    pub fn from_auth(auth: &AuthConfig) -> (r: FtpAuthConfig)
        ensures
            r == auth_mode(*auth),
    {
        let blank = trim_whitespace(chars_of(auth.username.as_str()).as_slice()).len() == 0;
        if auth.anonymous || blank || auth.password_hash.as_str().unicode_len() == 0 {
            FtpAuthConfig::Anonymous
        } else {
            FtpAuthConfig::Authenticated { username: auth.username.clone(), password_hash: auth.password_hash.clone() }
        }
    }

    /// The user name and a password note to show in the UI; nothing for anonymous access.
    pub fn to_display_credentials(&self) -> (r: (Option<String>, Option<String>))
        ensures
            match *self {
                FtpAuthConfig::Anonymous => r.0 is None && r.1 is None,
                FtpAuthConfig::Authenticated { username, .. } => r.0 == Some(username)
                    && (r.1 matches Some(p) && p@ == "(配置密码)"@),
            },
    {
        match self {
            FtpAuthConfig::Anonymous => (None, None),
            FtpAuthConfig::Authenticated { username, .. } => (Some(username.clone()), Some("(配置密码)".to_string())),
        }
    }
}

/// The server's state as the frontend sees it.
#[derive(Debug, Clone, PartialEq, Eq)]
pub struct ServerStateSnapshot {
    pub is_running: bool,
    pub connected_clients: usize,
    pub files_received: u64,
    pub bytes_received: u64,
    pub last_file: Option<String>,
}

pub open spec fn stopped_snapshot() -> ServerStateSnapshot {
    ServerStateSnapshot { is_running: false, connected_clients: 0, files_received: 0, bytes_received: 0, last_file: None }
}

impl Default for ServerStateSnapshot {
    fn default() -> (r: Self)
        ensures
            r == stopped_snapshot(),
    {
        ServerStateSnapshot { is_running: false, connected_clients: 0, files_received: 0, bytes_received: 0, last_file: None }
    }
}

fn clone_opt_string(s: &Option<String>) -> (r: Option<String>)
    ensures
        r == *s,
{
    match s {
        Some(v) => Some(v.clone()),
        None => None,
    }
}

/// The snapshot of a running server with statistics `s`.
pub open spec fn running_snapshot(s: ServerStats) -> ServerStateSnapshot {
    ServerStateSnapshot {
        is_running: true,
        connected_clients: s.active_connections as usize,
        files_received: s.total_uploads,
        bytes_received: s.total_bytes_received,
        last_file: s.last_uploaded_file,
    }
}

/// The statistics a snapshot shows.
pub open spec fn snapshot_stats(s: ServerStateSnapshot) -> ServerStats {
    ServerStats {
        active_connections: s.connected_clients as u64,
        total_uploads: s.files_received,
        total_bytes_received: s.bytes_received,
        last_uploaded_file: s.last_file,
    }
}

impl ServerStateSnapshot {
    /// The snapshot of a running server with the given statistics.
    pub fn from_stats(stats: &ServerStats) -> (r: ServerStateSnapshot)
        ensures
            r == running_snapshot(*stats),
    {
        ServerStateSnapshot {
            is_running: true,
            connected_clients: stats.active_connections as usize,
            files_received: stats.total_uploads,
            bytes_received: stats.total_bytes_received,
            last_file: clone_opt_string(&stats.last_uploaded_file),
        }
    }
}

impl ServerStats {
    /// The statistics a snapshot shows.
    pub fn from_snapshot(snapshot: &ServerStateSnapshot) -> (r: ServerStats)
        ensures
            r == snapshot_stats(*snapshot),
    {
        ServerStats {
            active_connections: snapshot.connected_clients as u64,
            total_uploads: snapshot.files_received,
            total_bytes_received: snapshot.bytes_received,
            last_uploaded_file: clone_opt_string(&snapshot.last_file),
        }
    }

    fn copy(&self) -> (r: ServerStats)
        ensures
            r == *self,
    {
        ServerStats {
            active_connections: self.active_connections,
            total_uploads: self.total_uploads,
            total_bytes_received: self.total_bytes_received,
            last_uploaded_file: clone_opt_string(&self.last_uploaded_file),
        }
    }
}

/// What is known of the server while the application runs: where it is bound, whether
/// it runs, and its latest statistics.
#[derive(Debug, Clone, PartialEq, Eq)]
pub struct ServerRuntimeSnapshot {
    pub bind_addr: Option<String>,
    pub is_running: bool,
    pub stats: Option<ServerStats>,
}

pub open spec fn initial_runtime() -> ServerRuntimeSnapshot {
    ServerRuntimeSnapshot { bind_addr: None, is_running: false, stats: None }
}

/// The snapshot of a running server's runtime state: its statistics (zeros when none).
pub open spec fn runtime_view(r: ServerRuntimeSnapshot) -> ServerStateSnapshot {
    match r.stats {
        Some(s) => ServerStateSnapshot {
            is_running: r.is_running,
            connected_clients: s.active_connections as usize,
            files_received: s.total_uploads,
            bytes_received: s.total_bytes_received,
            last_file: s.last_uploaded_file,
        },
        None => ServerStateSnapshot {
            is_running: r.is_running,
            connected_clients: 0,
            files_received: 0,
            bytes_received: 0,
            last_file: None,
        },
    }
}

/// The snapshot reported for a runtime state: a stopped server reports the stopped
/// snapshot whatever it holds; a running one its statistics.
pub open spec fn reported_snapshot(r: ServerRuntimeSnapshot) -> ServerStateSnapshot {
    if !r.is_running { stopped_snapshot() } else { runtime_view(r) }
}

impl Default for ServerRuntimeSnapshot {
    fn default() -> (r: Self)
        ensures
            r == initial_runtime(),
    {
        ServerRuntimeSnapshot { bind_addr: None, is_running: false, stats: None }
    }
}

impl ServerRuntimeSnapshot {
    /// Records that the server started, bound to `bind_addr`.
    pub fn record_server_started(&mut self, bind_addr: String)
        ensures
            final(self).bind_addr == Some(bind_addr),
            final(self).is_running,
            final(self).stats == old(self).stats,
    {
        self.bind_addr = Some(bind_addr);
        self.is_running = true;
    }

    /// Records new statistics; ignored unless the server runs.
    pub fn record_stats(&mut self, stats: ServerStats)
        ensures
            old(self).is_running ==> *final(self) == (ServerRuntimeSnapshot { stats: Some(stats), ..*old(self) }),
            !old(self).is_running ==> *final(self) == *old(self),
    {
        if !self.is_running {
            return;
        }
        self.stats = Some(stats);
    }

    /// Records that the server stopped: everything is forgotten.
    pub fn record_server_stopped(&mut self)
        ensures
            *final(self) == initial_runtime(),
    {
        self.bind_addr = None;
        self.is_running = false;
        self.stats = None;
    }

    /// Takes over the running state of a frontend snapshot: a running one brings its
    /// statistics; a stopped one clears the address and statistics.
    pub fn update_running_snapshot(&mut self, snapshot: ServerStateSnapshot)
        ensures
            final(self).is_running == snapshot.is_running,
            snapshot.is_running ==> final(self).stats == Some(snapshot_stats(snapshot))
                && final(self).bind_addr == old(self).bind_addr,
            !snapshot.is_running ==> final(self).stats is None && final(self).bind_addr is None,
    {
        self.is_running = snapshot.is_running;
        if snapshot.is_running {
            self.stats = Some(ServerStats::from_snapshot(&snapshot));
        } else {
            self.bind_addr = None;
            self.stats = None;
        }
    }

    /// The snapshot reported to the frontend (see `reported_snapshot`).
    pub fn current_snapshot(&self) -> (r: ServerStateSnapshot)
        ensures
            r == reported_snapshot(*self),
    {
        runtime_state_to_snapshot(self)
    }
}

/// The frontend's snapshot of a runtime state (see `reported_snapshot`): a stopped
/// server's statistics are discarded, so that every stopped snapshot is the same.
pub fn runtime_state_to_snapshot(runtime_state: &ServerRuntimeSnapshot) -> (r: ServerStateSnapshot)
    ensures
        r == reported_snapshot(*runtime_state),
{
    if !runtime_state.is_running {
        return ServerStateSnapshot::default();
    }
    match &runtime_state.stats {
        Some(s) => ServerStateSnapshot {
            is_running: runtime_state.is_running,
            connected_clients: s.active_connections as usize,
            files_received: s.total_uploads,
            bytes_received: s.total_bytes_received,
            last_file: clone_opt_string(&s.last_uploaded_file),
        },
        None => ServerStateSnapshot {
            is_running: runtime_state.is_running,
            connected_clients: 0,
            files_received: 0,
            bytes_received: 0,
            last_file: None,
        },
    }
}

/// Statistics recorded after the server stopped do not bring it back: the state stays the
/// initial one and reports the stopped snapshot.
pub proof fn lemma_stats_after_stop_ignored(r: ServerRuntimeSnapshot, stats: ServerStats)
    requires
        r == initial_runtime(),
    ensures
        !r.is_running,
        reported_snapshot(r) == stopped_snapshot(),
{
}

/// A running server reports exactly the statistics last recorded.
pub proof fn lemma_running_reports_recorded_stats(r: ServerRuntimeSnapshot, stats: ServerStats)
    requires
        r.is_running,
        r.stats == Some(stats),
    ensures
        reported_snapshot(r) == running_snapshot(stats),
{
}

/// A stopped server reports the stopped snapshot, whatever it still holds.
pub proof fn lemma_stopped_reports_default(r: ServerRuntimeSnapshot)
    requires
        !r.is_running,
    ensures
        reported_snapshot(r) == stopped_snapshot(),
{
}

/// The state of the server process.
#[derive(Debug, Clone, Copy, PartialEq, Eq, Structural)]
pub enum ServerStatus {
    Stopped,
    Starting,
    Running,
    Stopping,
}

impl ServerStatus {
    /// Whether the server runs.
    pub fn is_running(&self) -> (r: bool)
        ensures
            r == (*self == ServerStatus::Running),
    {
        match self {
            ServerStatus::Running => true,
            _ => false,
        }
    }
}

/// An event of the application's domain.
#[derive(Debug, Clone, PartialEq, Eq)]
pub enum DomainEvent {
    FileUploaded { path: String, size: u64 },
    /// The file index changed (a file was added or removed).
    FileIndexChanged { count: usize, latest_filename: Option<String> },
}

/// The connection info of the server, for the frontend.
#[derive(Debug, Clone)]
pub struct ServerInfo {
    pub is_running: bool,
    pub ip: String,
    pub port: u16,
    pub url: String,
    pub username: String,
    pub password_info: String,
}

impl ServerInfo {
    /// The info of a running server at `ip` (as an IPv4 address, the loopback address when
    /// it is not one) and `port`; an unknown user is `anonymous`, with any password.
    pub fn new(ip: String, port: u16, username: Option<String>, password_info: Option<String>) -> (r: ServerInfo)
        ensures
            r.is_running,
            r.ip@ == ipv4_host(ip@),
            r.port == port,
            r.url@ == "ftp://"@ + r.ip@ + ":"@ + crate::net::decimal_digits(port as nat),
            r.username@ == match username { Some(u) => u@, None => "anonymous"@ },
            r.password_info@ == match password_info { Some(p) => p@, None => "(任意密码)"@ },
    {
        let ghost original = ip@;
        let ip = normalize_ipv4_host(ip.as_str());
        proof {
            crate::net::lemma_ipv4_host_idempotent(original);
        }
        let url = format_ipv4_ftp_url(ip.as_str(), port);
        let username = match username {
            Some(u) => u,
            None => "anonymous".to_string(),
        };
        let password_info = match password_info {
            Some(p) => p,
            None => "(任意密码)".to_string(),
        };
        ServerInfo { is_running: true, ip, port, url, username, password_info }
    }
}


/// The snapshot of the server in state `status` with statistics `stats` and
/// `connected_clients` sessions: running only in the `Running` state.
pub fn build_server_snapshot(status: ServerStatus, stats: &ServerStats, connected_clients: usize) -> (r: ServerStateSnapshot)
    ensures
        r.is_running == (status == ServerStatus::Running),
        r.connected_clients == connected_clients,
        r.files_received == stats.total_uploads,
        r.bytes_received == stats.total_bytes_received,
        r.last_file == stats.last_uploaded_file,
{
    ServerStateSnapshot {
        is_running: status.is_running(),
        connected_clients,
        files_received: stats.total_uploads,
        bytes_received: stats.total_bytes_received,
        last_file: clone_opt_string(&stats.last_uploaded_file),
    }
}

/// The dotted-quad text of an IPv4 address.
pub open spec fn dotted(a: (u8, u8, u8, u8)) -> Seq<char> {
    crate::net::decimal_digits(a.0 as nat) + "."@ + crate::net::decimal_digits(a.1 as nat) + "."@
        + crate::net::decimal_digits(a.2 as nat) + "."@ + crate::net::decimal_digits(a.3 as nat)
}

/// The host advertised for a server bound to `bind_ip` (an IPv4 address, or `None` for an
/// IPv6 one): the recommended address when there is one; else the bound IPv4 address,
/// unless it is unspecified (`0.0.0.0`); else the loopback address.
pub open spec fn advertised_host(bind_ip: Option<(u8, u8, u8, u8)>, recommended_ip: Option<Seq<char>>) -> Seq<char> {
    match recommended_ip {
        Some(ip) => ip,
        None => match bind_ip {
            Some(a) => if a == (0u8, 0u8, 0u8, 0u8) { "127.0.0.1"@ } else { dotted(a) },
            None => "127.0.0.1"@,
        },
    }
}

fn dotted_text(a: (u8, u8, u8, u8)) -> (r: String)
    ensures
        r@ == dotted(a),
{
    let s0 = crate::net::decimal(a.0 as u64);
    let s1 = crate::text::join_strs(s0.as_str(), ".");
    let t1 = crate::net::decimal(a.1 as u64);
    let s2 = crate::text::join_strs(s1.as_str(), t1.as_str());
    let s3 = crate::text::join_strs(s2.as_str(), ".");
    let t2 = crate::net::decimal(a.2 as u64);
    let s4 = crate::text::join_strs(s3.as_str(), t2.as_str());
    let s5 = crate::text::join_strs(s4.as_str(), ".");
    let t3 = crate::net::decimal(a.3 as u64);
    crate::text::join_strs(s5.as_str(), t3.as_str())
}

/// The `host:port` a client is told to connect to (see `advertised_host`; the host is
/// then taken as an IPv4 address, see `ipv4_socket_addr`).
pub fn advertised_server_addr(bind_ip: Option<(u8, u8, u8, u8)>, port: u16, recommended_ip: Option<String>) -> (r: String)
    ensures
        r@ == ipv4_socket_addr(advertised_host(bind_ip, match recommended_ip {
            Some(ip) => Some(ip@),
            None => None,
        }), port),
{
    let ip = match recommended_ip {
        Some(ip) => ip,
        None => match bind_ip {
            Some(a) => if a.0 == 0 && a.1 == 0 && a.2 == 0 && a.3 == 0 {
                "127.0.0.1".to_string()
            } else {
                dotted_text(a)
            },
            None => "127.0.0.1".to_string(),
        },
    };
    crate::net::format_ipv4_socket_addr(ip.as_str(), port)
}


/// What the frontend is told of the server at runtime: its connection info while it
/// runs, and its statistics.
#[derive(Debug, Clone)]
pub struct ServerRuntimeView {
    pub server_info: Option<ServerInfo>,
    pub stats: ServerStateSnapshot,
}

/// Options of a server start.
#[derive(Debug, Clone, Copy)]
pub struct ServerStartupOptions {
    /// The lowest port chosen when a port is picked automatically.
    pub min_port: u16,
}

impl Default for ServerStartupOptions {
    fn default() -> (r: Self)
        ensures
            r.min_port == crate::config::MIN_PORT,
    {
        ServerStartupOptions { min_port: crate::config::MIN_PORT }
    }
}

} // verus!
