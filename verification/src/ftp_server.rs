//! The decisions of starting, stopping and describing the FTP server: which port it
//! listens on, how it authenticates, which state changes are allowed, and what a client
//! is told to connect to.
use vstd::prelude::*;
use crate::config::{AppConfig, Platform, IDLE_TIMEOUT_SECONDS, DEFAULT_FTP_PORT_WINDOWS, DEFAULT_FTP_PORT_ANDROID, DEFAULT_FTP_PORT_OTHER};
use crate::error::AppError;
use crate::ftp_types::{FtpAuthConfig, ServerInfo, ServerStatus, auth_mode};
use crate::net::ipv4_host;
use crate::ftp_sessions::SessionRegistry;
use crate::ftp_types::{ServerStats, ServerStateSnapshot, ServerRuntimeView, build_server_snapshot, stopped_snapshot};

verus! {

/// The port the server listens on unless the user picked one: 21 on Windows, 2121
/// elsewhere.
pub open spec fn platform_port(p: Platform) -> u16 {
    match p {
        Platform::Windows => DEFAULT_FTP_PORT_WINDOWS,
        Platform::Android => DEFAULT_FTP_PORT_ANDROID,
        Platform::Other => DEFAULT_FTP_PORT_OTHER,
    }
}

/// The port asked for: the configured one when the advanced connection settings are on,
/// else the platform's default.
pub fn requested_port(config: &AppConfig, platform: Platform) -> (r: u16)
    ensures
        r == if config.advanced_connection.enabled { config.port } else { platform_port(platform) },
{
    if config.advanced_connection.enabled {
        config.port
    } else {
        match platform {
            Platform::Windows => DEFAULT_FTP_PORT_WINDOWS,
            Platform::Android => DEFAULT_FTP_PORT_ANDROID,
            Platform::Other => DEFAULT_FTP_PORT_OTHER,
        }
    }
}

/// What to do once it is known whether the requested port is free.
#[derive(Debug, Clone, Copy, PartialEq, Eq, Structural)]
pub enum PortDecision {
    /// Listen on this port.
    Use(u16),
    /// Search for a free port from the lowest automatic port up.
    Search,
}

/// The requested port when it is free; else a search when automatic selection is on;
/// else no port is available.
pub fn decide_port(requested: u16, requested_free: bool, auto_select_port: bool) -> (r: Result<PortDecision, AppError>)
    ensures
        requested_free ==> r == Ok::<PortDecision, AppError>(PortDecision::Use(requested)),
        !requested_free && auto_select_port ==> r == Ok::<PortDecision, AppError>(PortDecision::Search),
        !requested_free && !auto_select_port ==> r matches Err(AppError::NoAvailablePort),
{
    if requested_free {
        Ok(PortDecision::Use(requested))
    } else if auto_select_port {
        Ok(PortDecision::Search)
    } else {
        Err(AppError::NoAvailablePort)
    }
}

/// The port a search found, or no port is available.
pub fn searched_port(found: Option<u16>) -> (r: Result<u16, AppError>)
    ensures
        match found {
            Some(p) => r == Ok::<u16, AppError>(p),
            None => r matches Err(AppError::NoAvailablePort),
        },
{
    match found {
        Some(p) => Ok(p),
        None => Err(AppError::NoAvailablePort),
    }
}

/// The server's authentication: the configured user when the advanced connection settings
/// are on (see `auth_mode`), else anonymous access.
pub fn server_auth(config: &AppConfig) -> (r: FtpAuthConfig)
    ensures
        r == if config.advanced_connection.enabled { auth_mode(config.advanced_connection.auth) } else { FtpAuthConfig::Anonymous },
{
    if config.advanced_connection.enabled {
        FtpAuthConfig::from_auth(&config.advanced_connection.auth)
    } else {
        FtpAuthConfig::Anonymous
    }
}

/// The configuration a server is started with.
#[derive(Debug, Clone)]
pub struct ServerConfig {
    pub port: u16,
    pub root_path: String,
    pub idle_timeout_seconds: u64,
    pub auth: FtpAuthConfig,
}

/// The configuration of a server on `port` storing into `root_path`, with the
/// authentication of `config` and the standard idle timeout.
pub fn server_config(config: &AppConfig, port: u16, root_path: String) -> (r: ServerConfig)
    ensures
        r.port == port,
        r.root_path == root_path,
        r.idle_timeout_seconds == IDLE_TIMEOUT_SECONDS,
        r.auth == if config.advanced_connection.enabled { auth_mode(config.advanced_connection.auth) } else { FtpAuthConfig::Anonymous },
{
    ServerConfig { port, root_path, idle_timeout_seconds: IDLE_TIMEOUT_SECONDS, auth: server_auth(config) }
}

/// A server may start unless it runs.
pub fn validate_can_start(status: ServerStatus) -> (r: Result<(), AppError>)
    ensures
        status == ServerStatus::Running ==> r matches Err(AppError::ServerAlreadyRunning),
        status != ServerStatus::Running ==> r is Ok,
{
    if status.is_running() {
        Err(AppError::ServerAlreadyRunning)
    } else {
        Ok(())
    }
}

/// A server may stop only while it runs.
pub fn validate_can_stop(status: ServerStatus) -> (r: Result<(), AppError>)
    ensures
        status == ServerStatus::Running ==> r is Ok,
        status != ServerStatus::Running ==> r matches Err(AppError::ServerNotRunning),
{
    if status.is_running() {
        Ok(())
    } else {
        Err(AppError::ServerNotRunning)
    }
}

/// What a login needs.
#[derive(Debug, Clone, PartialEq, Eq)]
pub enum LoginCheck {
    /// Accepted as is.
    Accept,
    /// Refused: the user name is not the configured one.
    Reject,
    /// Accepted if the password matches this hash.
    VerifyPassword(String),
}

/// What a login as `username` needs: anonymous access accepts any user; otherwise only the
/// configured user, whose password is then checked against the stored hash.
pub fn login_check(config: &FtpAuthConfig, username: &str) -> (r: LoginCheck)
    ensures
        match *config {
            FtpAuthConfig::Anonymous => r == LoginCheck::Accept,
            FtpAuthConfig::Authenticated { username: u, password_hash: h } => if u@ == username@ {
                r == LoginCheck::VerifyPassword(h)
            } else {
                r == LoginCheck::Reject
            },
        },
{
    match config {
        FtpAuthConfig::Anonymous => LoginCheck::Accept,
        FtpAuthConfig::Authenticated { username: expected, password_hash } => {
            if crate::text::chars_eq(
                crate::text::chars_of(expected.as_str()).as_slice(),
                crate::text::chars_of(username).as_slice(),
            ) {
                LoginCheck::VerifyPassword(password_hash.clone())
            } else {
                LoginCheck::Reject
            }
        },
    }
}

/// The connection info of the server, if it runs and is bound: at the recommended address
/// (the loopback address when there is none, then taken as an IPv4 address) on the bound
/// port, with the configured credentials shown.
pub fn server_info_for(
    status: ServerStatus,
    bound_port: Option<u16>,
    recommended_ip: Option<String>,
    auth: &Option<FtpAuthConfig>,
) -> (r: Option<ServerInfo>)
    ensures
        (status != ServerStatus::Running || bound_port is None) ==> r is None,
        (status == ServerStatus::Running && bound_port is Some) ==> (r matches Some(info)
            && info.is_running
            && info.port == bound_port->0
            && info.ip@ == ipv4_host(match recommended_ip { Some(ip) => ip@, None => "127.0.0.1"@ })
            && info.username@ == match *auth {
                Some(FtpAuthConfig::Authenticated { username, .. }) => username@,
                _ => "anonymous"@,
            }
            && info.password_info@ == match *auth {
                Some(FtpAuthConfig::Authenticated { .. }) => "(配置密码)"@,
                _ => "(任意密码)"@,
            }),
{
    if !status.is_running() {
        return None;
    }
    let port = match bound_port {
        Some(p) => p,
        None => {
            return None;
        },
    };
    let ip = match recommended_ip {
        Some(ip) => ip,
        None => "127.0.0.1".to_string(),
    };
    let ghost raw = ip@;
    let ip = crate::net::normalize_ipv4_host(ip.as_str());
    proof {
        crate::net::lemma_ipv4_host_idempotent(raw);
    }
    let (username, password_info) = match auth {
        Some(a) => a.to_display_credentials(),
        None => (None, None),
    };
    Some(ServerInfo::new(ip, port, username, password_info))
}


/// What the server actor keeps between its commands.
#[derive(Debug)]
pub struct ServerLifecycle {
    pub status: ServerStatus,
    /// The configuration of the running server.
    pub config: Option<ServerConfig>,
    /// The port the running server is bound to.
    pub bound_port: Option<u16>,
    /// Whether a server task is held.
    pub task_running: bool,
    pub sessions: SessionRegistry,
}

/// What a stop does next.
#[derive(Debug, Clone, Copy, PartialEq, Eq, Structural)]
pub enum StopStep {
    /// No server task was held: the server is stopped already.
    Stopped,
    /// Signal the server task to shut down, wait for it, then finish the stop.
    AwaitServerTask,
}

impl ServerLifecycle {
    pub open spec fn wf(&self) -> bool {
        self.sessions.wf()
    }

    /// Stopped, with nothing held and no session.
    pub open spec fn is_clear(&self) -> bool {
        &&& self.status == ServerStatus::Stopped
        &&& self.config is None
        &&& self.bound_port is None
        &&& !self.task_running
        &&& self.sessions.contents() == Set::<Seq<char>>::empty()
    }

    /// A stopped server that holds nothing.
    pub fn new() -> (r: ServerLifecycle)
        ensures
            r.wf(),
            r.is_clear(),
    {
        ServerLifecycle {
            status: ServerStatus::Stopped,
            config: None,
            bound_port: None,
            task_running: false,
            sessions: SessionRegistry::new(),
        }
    }

    /// The first step of a start: refused while the server runs, which changes nothing;
    /// else the server is starting.
    pub fn begin_start(&mut self) -> (r: Result<(), AppError>)
        requires
            old(self).wf(),
        ensures
            final(self).wf(),
            old(self).status == ServerStatus::Running ==> (r matches Err(AppError::ServerAlreadyRunning)
                && *final(self) == *old(self)),
            old(self).status != ServerStatus::Running ==> (r is Ok
                && final(self).status == ServerStatus::Starting
                && final(self).config == old(self).config
                && final(self).bound_port == old(self).bound_port
                && final(self).task_running == old(self).task_running
                && final(self).sessions == old(self).sessions),
    {
        validate_can_start(self.status)?;
        self.status = ServerStatus::Starting;
        Ok(())
    }

    /// A start that failed part way: nothing is held and the server is stopped; the
    /// sessions are kept.
    pub fn startup_failed(&mut self)
        ensures
            final(self).status == ServerStatus::Stopped,
            final(self).config is None,
            final(self).bound_port is None,
            !final(self).task_running,
            final(self).sessions == old(self).sessions,
    {
        self.config = None;
        self.bound_port = None;
        self.task_running = false;
        self.status = ServerStatus::Stopped;
    }

    /// A start that succeeded: the server runs with `config`, bound to `port`, and its task
    /// is held.
    pub fn finish_start(&mut self, config: ServerConfig, port: u16)
        ensures
            final(self).status == ServerStatus::Running,
            final(self).config == Some(config),
            final(self).bound_port == Some(port),
            final(self).task_running,
            final(self).sessions == old(self).sessions,
    {
        self.status = ServerStatus::Running;
        self.config = Some(config);
        self.bound_port = Some(port);
        self.task_running = true;
    }

    /// The end of a stop: nothing is held, no session is left, and the server is stopped.
    pub fn finish_stop(&mut self)
        ensures
            final(self).wf(),
            final(self).is_clear(),
    {
        self.sessions.clear();
        self.config = None;
        self.bound_port = None;
        self.task_running = false;
        self.status = ServerStatus::Stopped;
    }

    /// The first step of a stop: refused unless the server runs, which changes nothing;
    /// else the server is stopping, and it is stopped at once when no server task is held.
    pub fn begin_stop(&mut self) -> (r: Result<StopStep, AppError>)
        requires
            old(self).wf(),
        ensures
            final(self).wf(),
            old(self).status != ServerStatus::Running ==> (r matches Err(AppError::ServerNotRunning)
                && *final(self) == *old(self)),
            (old(self).status == ServerStatus::Running && !old(self).task_running) ==> (
                r == Ok::<StopStep, AppError>(StopStep::Stopped) && final(self).is_clear()),
            (old(self).status == ServerStatus::Running && old(self).task_running) ==> (
                r == Ok::<StopStep, AppError>(StopStep::AwaitServerTask)
                && final(self).status == ServerStatus::Stopping
                && !final(self).task_running
                && final(self).config == old(self).config
                && final(self).bound_port == old(self).bound_port
                && final(self).sessions == old(self).sessions),
    {
        validate_can_stop(self.status)?;
        self.status = ServerStatus::Stopping;
        if !self.task_running {
            self.finish_stop();
            return Ok(StopStep::Stopped);
        }
        self.task_running = false;
        Ok(StopStep::AwaitServerTask)
    }

    /// The snapshot of the server with statistics `stats`, counting the logged-in sessions.
    pub fn snapshot(&self, stats: &ServerStats) -> (r: ServerStateSnapshot)
        requires
            self.wf(),
        ensures
            r.is_running == (self.status == ServerStatus::Running),
            r.connected_clients == self.sessions.contents().len(),
            r.files_received == stats.total_uploads,
            r.bytes_received == stats.total_bytes_received,
            r.last_file == stats.last_uploaded_file,
    {
        build_server_snapshot(self.status, stats, self.sessions.len())
    }

    /// The connection info of the server (see `server_info_for`), with the credentials of
    /// its configuration.
    pub fn server_info(&self, recommended_ip: Option<String>) -> (r: Option<ServerInfo>)
        ensures
            (self.status != ServerStatus::Running || self.bound_port is None) ==> r is None,
            (self.status == ServerStatus::Running && self.bound_port is Some) ==> (r matches Some(info)
                && info.port == self.bound_port->0
                && info.ip@ == ipv4_host(match recommended_ip { Some(ip) => ip@, None => "127.0.0.1"@ })
                && info.username@ == match self.config {
                    Some(c) => match c.auth {
                        FtpAuthConfig::Authenticated { username, .. } => username@,
                        _ => "anonymous"@,
                    },
                    None => "anonymous"@,
                }),
    {
        let auth = match &self.config {
            Some(c) => Some(match &c.auth {
                FtpAuthConfig::Anonymous => FtpAuthConfig::Anonymous,
                FtpAuthConfig::Authenticated { username, password_hash } => FtpAuthConfig::Authenticated {
                    username: username.clone(),
                    password_hash: password_hash.clone(),
                },
            }),
            None => None,
        };
        server_info_for(self.status, self.bound_port, recommended_ip, &auth)
    }
}

/// What the startup handshake of the server task has said so far.
#[derive(Debug)]
pub enum StartupSignal {
    /// Nothing yet.
    Pending,
    /// The task went away without saying anything.
    Dropped,
    /// The task reported how its startup went.
    Reported(Result<(), AppError>),
}

/// What waiting for the server to become ready does next.
#[derive(Debug)]
pub enum WaitStep {
    /// The wait is over, with this outcome.
    Done(Result<(), AppError>),
    /// Check again after a pause.
    Retry,
}

/// The error of a handshake that went away.
pub open spec fn handshake_dropped_message() -> Seq<char> {
    "FTP server startup handshake dropped unexpectedly"@
}

/// The error of a startup that did not finish in time.
pub open spec fn startup_timed_out_message() -> Seq<char> {
    "FTP server startup timed out"@
}

/// One step of waiting for the server: what the task reported decides first (a dropped
/// handshake is an error); with no report yet, a listening port means ready while time is
/// left, and once time is up the startup has timed out.
pub fn startup_wait_step(signal: StartupSignal, timed_out: bool, port_listening: bool) -> (r: WaitStep)
    ensures
        match signal {
            StartupSignal::Reported(res) => r == WaitStep::Done(res),
            StartupSignal::Dropped => r matches WaitStep::Done(Err(AppError::Other(m)))
                && m@ == handshake_dropped_message(),
            StartupSignal::Pending => if timed_out {
                r matches WaitStep::Done(Err(AppError::Other(m))) && m@ == startup_timed_out_message()
            } else if port_listening {
                r == WaitStep::Done(Ok::<(), AppError>(()))
            } else {
                r == WaitStep::Retry
            },
        },
{
    match signal {
        StartupSignal::Reported(res) => WaitStep::Done(res),
        StartupSignal::Dropped => {
            WaitStep::Done(Err(AppError::Other("FTP server startup handshake dropped unexpectedly".to_string())))
        },
        StartupSignal::Pending => {
            if timed_out {
                WaitStep::Done(Err(AppError::Other("FTP server startup timed out".to_string())))
            } else if port_listening {
                WaitStep::Done(Ok(()))
            } else {
                WaitStep::Retry
            }
        },
    }
}


/// The credentials reported right after a start: the configured user name, with the
/// password shown as configured, when the advanced connection settings are on and
/// anonymous access is off; else none.
pub fn started_server_credentials(config: &AppConfig) -> (r: (Option<String>, Option<String>))
    ensures
        (config.advanced_connection.enabled && !config.advanced_connection.auth.anonymous) ==> (
            r.0 == Some(config.advanced_connection.auth.username)
            && (r.1 matches Some(p) && p@ == "(配置密码)"@)),
        !(config.advanced_connection.enabled && !config.advanced_connection.auth.anonymous) ==> (
            r.0 is None && r.1 is None),
{
    if config.advanced_connection.enabled && !config.advanced_connection.auth.anonymous {
        (Some(config.advanced_connection.auth.username.clone()), Some("(配置密码)".to_string()))
    } else {
        (None, None)
    }
}

/// How a stop request is answered, given what the server said and whether it still runs
/// afterwards: the error only when the server still runs; the server handle is dropped
/// whenever it no longer runs.
pub fn stop_outcome(result: Result<(), AppError>, still_running: bool) -> (r: (Result<(), AppError>, bool))
    ensures
        result is Ok ==> r.0 is Ok && r.1,
        result is Err && !still_running ==> r.0 is Ok && r.1,
        result is Err && still_running ==> r.0 == result && !r.1,
{
    match result {
        Ok(()) => (Ok(()), true),
        Err(e) => {
            if still_running {
                (Err(e), false)
            } else {
                (Ok(()), true)
            }
        },
    }
}

/// What the frontend is told of the server: with no server, no connection info and the
/// stopped snapshot; else the current snapshot, and the connection info only while it runs.
pub fn server_runtime_view(current: Option<ServerStateSnapshot>, server_info: Option<ServerInfo>) -> (r: ServerRuntimeView)
    ensures
        match current {
            None => r.server_info is None && r.stats == stopped_snapshot(),
            Some(s) => r.stats == s && r.server_info == if s.is_running { server_info } else { None },
        },
{
    match current {
        None => ServerRuntimeView { server_info: None, stats: ServerStateSnapshot::default() },
        Some(s) => {
            let server_info = if s.is_running { server_info } else { None };
            ServerRuntimeView { server_info, stats: s }
        },
    }
}

} // verus!
