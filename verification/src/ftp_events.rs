//! The decisions of the event handlers: which domain events a handler receives, what a
//! change of the server's runtime state tells the frontend, the Android service and the
//! tray, and how the statistics follow the server's commands.
use vstd::prelude::*;
use crate::text::chars_eq_str;
use crate::image_utils::{is_raw_file, is_supported_image, is_raw_path, is_supported_image_path};
use crate::net::{bind_addr_parts, parse_bind_addr};
use crate::ftp_types::{
    ServerStats, ServerStateSnapshot, ServerRuntimeSnapshot, DomainEvent, reported_snapshot,
    runtime_state_to_snapshot,
};

verus! {

/// The name of an event's type.
pub open spec fn event_name(e: DomainEvent) -> Seq<char> {
    match e {
        DomainEvent::FileUploaded { .. } => "FileUploaded"@,
        DomainEvent::FileIndexChanged { .. } => "FileIndexChanged"@,
    }
}

/// The name of an event's type.
pub fn event_type_name(event: &DomainEvent) -> (r: &'static str)
    ensures
        r@ == event_name(*event),
{
    match event {
        DomainEvent::FileUploaded { .. } => "FileUploaded",
        DomainEvent::FileIndexChanged { .. } => "FileIndexChanged",
    }
}

pub open spec fn str_views(v: Seq<&'static str>) -> Seq<Seq<char>> {
    v.map_values(|s: &'static str| s@)
}

/// Whether a handler interested in the event types `interested` (all types when `None`)
/// receives `event`.
pub fn should_handle(interested: &Option<Vec<&'static str>>, event: &DomainEvent) -> (r: bool)
    ensures
        r == match *interested {
            None => true,
            Some(types) => str_views(types@).contains(event_name(*event)),
        },
{
    match interested {
        None => true,
        Some(types) => {
            let name = event_type_name(event);
            let mut i: usize = 0;
            while i < types.len()
                invariant
                    *interested == Some(*types),
                    i <= types@.len(),
                    name@ == event_name(*event),
                    forall|j: int| 0 <= j < i ==> str_views(types@)[j] != name@,
                decreases types.len() - i,
            {
                let t = types[i];
                assert(str_views(types@)[i as int] == t@);
                if crate::text::chars_eq(
                    crate::text::chars_of(t).as_slice(),
                    crate::text::chars_of(name).as_slice(),
                ) {
                    assert(str_views(types@).contains(name@));
                    return true;
                }
                i = i + 1;
            }
            false
        },
    }
}

/// What a snapshot holds, strings by their characters.
pub type SnapshotView = (bool, usize, u64, u64, Option<Seq<char>>);

pub open spec fn snapshot_view(s: ServerStateSnapshot) -> SnapshotView {
    (s.is_running, s.connected_clients, s.files_received, s.bytes_received, match s.last_file {
        Some(f) => Some(f@),
        None => None,
    })
}

/// Whether two snapshots hold the same values.
pub fn same_snapshot(a: &ServerStateSnapshot, b: &ServerStateSnapshot) -> (r: bool)
    ensures
        r == (snapshot_view(*a) == snapshot_view(*b)),
{
    if a.is_running != b.is_running || a.connected_clients != b.connected_clients
        || a.files_received != b.files_received || a.bytes_received != b.bytes_received {
        return false;
    }
    match (&a.last_file, &b.last_file) {
        (Some(x), Some(y)) => crate::text::chars_eq(
            crate::text::chars_of(x.as_str()).as_slice(),
            crate::text::chars_of(y.as_str()).as_slice(),
        ),
        (None, None) => true,
        _ => false,
    }
}

/// What the statistics handler remembers of the last runtime state it saw.
#[derive(Debug, Clone)]
pub struct RuntimeStateView {
    pub bind_addr: Option<String>,
    pub snapshot: ServerStateSnapshot,
}

impl RuntimeStateView {
    /// What is remembered of a runtime state.
    pub fn of(runtime_state: &ServerRuntimeSnapshot) -> (r: RuntimeStateView)
        ensures
            r.bind_addr == runtime_state.bind_addr,
            r.snapshot == reported_snapshot(*runtime_state),
    {
        let bind_addr = match &runtime_state.bind_addr {
            Some(b) => Some(b.clone()),
            None => None,
        };
        RuntimeStateView { bind_addr, snapshot: runtime_state_to_snapshot(runtime_state) }
    }
}

/// What a new runtime state is told to the frontend and to the Android service, in this
/// order: `server-started` (with the address), `stats-update`, `server-stopped`, then the
/// Android service's state.
#[derive(Debug)]
pub struct FanoutPlan {
    pub server_started: Option<(String, u16)>,
    pub stats_update: Option<ServerStateSnapshot>,
    pub server_stopped: bool,
    pub sync_android: Option<ServerStateSnapshot>,
}

/// Whether the new snapshot differs from the last one seen (always, when none was).
pub open spec fn changed(previous: Option<RuntimeStateView>, snap: ServerStateSnapshot) -> bool {
    match previous {
        None => true,
        Some(p) => snapshot_view(p.snapshot) != snapshot_view(snap),
    }
}

/// Whether the server was seen running before.
pub open spec fn was_running(previous: Option<RuntimeStateView>) -> bool {
    match previous {
        None => false,
        Some(p) => p.snapshot.is_running,
    }
}

/// The plan for a new runtime state, after `previous` (the last one seen, if any): the
/// server start is announced when it now runs and did not before, if its bind address is
/// a valid `ip:port`; statistics are sent while it runs and they changed; the stop is
/// announced when it stopped running; the Android service is synced whenever the
/// snapshot changed.
pub fn fan_out_runtime_state(previous: &Option<RuntimeStateView>, runtime_state: &ServerRuntimeSnapshot) -> (r: FanoutPlan)
    ensures
        ({
            let snap = reported_snapshot(*runtime_state);
            &&& match r.server_started {
                Some((ip, port)) => snap.is_running && !was_running(*previous)
                    && (runtime_state.bind_addr matches Some(b) && bind_addr_parts(b@) == Some((ip@, port))),
                None => !(snap.is_running && !was_running(*previous)) || match runtime_state.bind_addr {
                    Some(b) => bind_addr_parts(b@) is None,
                    None => true,
                },
            }
            &&& match r.stats_update {
                Some(s) => snap.is_running && changed(*previous, snap) && s == snap,
                None => !(snap.is_running && changed(*previous, snap)),
            }
            &&& r.server_stopped == (!snap.is_running && was_running(*previous))
            &&& match r.sync_android {
                Some(s) => changed(*previous, snap) && s == snap,
                None => !changed(*previous, snap),
            }
        }),
{
    let current = RuntimeStateView::of(runtime_state);
    let is_running = current.snapshot.is_running;
    let previously_running = match previous {
        Some(p) => p.snapshot.is_running,
        None => false,
    };
    let differs = match previous {
        Some(p) => !same_snapshot(&p.snapshot, &current.snapshot),
        None => true,
    };
    let server_started = if is_running && !previously_running {
        match &current.bind_addr {
            Some(b) => parse_bind_addr(b.as_str()),
            None => None,
        }
    } else {
        None
    };
    let stats_update = if is_running && differs { Some(runtime_state_to_snapshot(runtime_state)) } else { None };
    let server_stopped = !is_running && previously_running;
    let sync_android = if differs { Some(runtime_state_to_snapshot(runtime_state)) } else { None };
    FanoutPlan { server_started, stats_update, server_stopped, sync_android }
}

/// What the tray is told of a new snapshot.
#[derive(Debug, Clone, Copy, PartialEq, Eq)]
pub struct TrayPlan {
    pub server_started: bool,
    pub server_stopped: bool,
    /// The number of connected clients to show, when it is to be updated.
    pub update_clients: Option<u32>,
}

/// The tray's plan for a new snapshot, after `previous` (the last one seen): the start
/// when the server now runs and did not; the stop when it stopped; else, while it runs, the
/// client count when it just started or the count changed.
pub fn tray_update(previous: &Option<ServerStateSnapshot>, snapshot: &ServerStateSnapshot) -> (r: TrayPlan)
    ensures
        ({
            let was = match *previous { Some(p) => p.is_running, None => false };
            &&& r.server_started == (snapshot.is_running && !was)
            &&& r.server_stopped == (!snapshot.is_running && was)
            &&& r.update_clients == if !(!snapshot.is_running && was) && snapshot.is_running && match *previous {
                None => true,
                Some(p) => !p.is_running || p.connected_clients != snapshot.connected_clients,
            } {
                Some(snapshot.connected_clients as u32)
            } else {
                None
            }
        }),
{
    let was = match previous {
        Some(p) => p.is_running,
        None => false,
    };
    let server_started = snapshot.is_running && !was;
    let server_stopped = !snapshot.is_running && was;
    let count_changed = match previous {
        None => true,
        Some(p) => !p.is_running || p.connected_clients != snapshot.connected_clients,
    };
    let update_clients = if !server_stopped && snapshot.is_running && count_changed {
        Some(snapshot.connected_clients as u32)
    } else {
        None
    };
    TrayPlan { server_started, server_stopped, update_clients }
}

/// A command to the statistics worker.
#[derive(Debug)]
pub enum StatsCommand {
    RecordUpload { path: String, bytes: u64 },
    RecordDownload { path: String, bytes: u64 },
    RecordDelete { path: String },
    RecordMkdir { path: String },
    RecordRmdir { path: String },
    RecordRename { from: String, to: String },
    UpdateConnectionCount { count: u64 },
}

/// The statistics after one command: an upload counts one more file, its bytes and its
/// path; a connection count replaces the count; the other commands change nothing.
pub open spec fn stats_after(s: ServerStats, cmd: StatsCommand) -> ServerStats {
    match cmd {
        StatsCommand::RecordUpload { path, bytes } => ServerStats {
            total_uploads: (s.total_uploads + 1) as u64,
            total_bytes_received: (s.total_bytes_received + bytes) as u64,
            last_uploaded_file: Some(path),
            ..s
        },
        StatsCommand::UpdateConnectionCount { count } => ServerStats { active_connections: count, ..s },
        _ => s,
    }
}

/// The statistics after the commands `cmds`, in order.
pub open spec fn stats_after_all(s: ServerStats, cmds: Seq<StatsCommand>) -> ServerStats
    decreases cmds.len(),
{
    if cmds.len() == 0 { s } else { stats_after(stats_after_all(s, cmds.drop_last()), cmds.last()) }
}

/// The number of uploads among `cmds`.
pub open spec fn upload_count(cmds: Seq<StatsCommand>) -> nat
    decreases cmds.len(),
{
    if cmds.len() == 0 {
        0
    } else {
        upload_count(cmds.drop_last()) + if cmds.last() is RecordUpload { 1nat } else { 0nat }
    }
}

/// The bytes of the uploads among `cmds`.
pub open spec fn upload_bytes(cmds: Seq<StatsCommand>) -> nat
    decreases cmds.len(),
{
    if cmds.len() == 0 {
        0
    } else {
        upload_bytes(cmds.drop_last()) + match cmds.last() {
            StatsCommand::RecordUpload { bytes, .. } => bytes as nat,
            _ => 0nat,
        }
    }
}

/// The path of the last upload among `cmds`, if any.
pub open spec fn last_upload(cmds: Seq<StatsCommand>) -> Option<String>
    decreases cmds.len(),
{
    if cmds.len() == 0 {
        None
    } else {
        match cmds.last() {
            StatsCommand::RecordUpload { path, .. } => Some(path),
            _ => last_upload(cmds.drop_last()),
        }
    }
}

/// The count of the last connection-count command among `cmds`, if any.
pub open spec fn last_connection_count(cmds: Seq<StatsCommand>) -> Option<u64>
    decreases cmds.len(),
{
    if cmds.len() == 0 {
        None
    } else {
        match cmds.last() {
            StatsCommand::UpdateConnectionCount { count } => Some(count),
            _ => last_connection_count(cmds.drop_last()),
        }
    }
}

proof fn lemma_counts_grow(cmds: Seq<StatsCommand>)
    requires
        cmds.len() > 0,
    ensures
        upload_count(cmds.drop_last()) <= upload_count(cmds),
        upload_bytes(cmds.drop_last()) <= upload_bytes(cmds),
{
}

/// Statistics that start from the default (`ServerStats::default()`, all zero) and take
/// the commands `cmds` in order, each as `apply_stats_command` applies it (`stats_after`),
/// hold the number of uploads, the sum of their bytes and the path of the last one, and
/// the count of the last connection-count command (0 when there was none).
pub proof fn lemma_stats_over_commands(cmds: Seq<StatsCommand>)
    requires
        upload_count(cmds) <= u64::MAX,
        upload_bytes(cmds) <= u64::MAX,
    ensures
        stats_after_all(crate::ftp_types::zero_stats(), cmds) == (ServerStats {
            active_connections: match last_connection_count(cmds) { Some(c) => c, None => 0 },
            total_uploads: upload_count(cmds) as u64,
            total_bytes_received: upload_bytes(cmds) as u64,
            last_uploaded_file: last_upload(cmds),
        }),
    decreases cmds.len(),
{
    if cmds.len() > 0 {
        lemma_counts_grow(cmds);
        lemma_stats_over_commands(cmds.drop_last());
    }
}

/// Applies a command to the statistics: an upload counts one more file, its bytes and
/// its path; a connection count replaces the count; the other commands change nothing.
/// Returns whether the statistics changed (and are to be published).
pub fn apply_stats_command(stats: &mut ServerStats, cmd: StatsCommand) -> (changed: bool)
    requires
        cmd matches StatsCommand::RecordUpload { bytes, .. } ==> old(stats).total_uploads < u64::MAX
            && old(stats).total_bytes_received + bytes <= u64::MAX,
    ensures
        match cmd {
            StatsCommand::RecordUpload { path, bytes } => changed
                && final(stats).total_uploads == old(stats).total_uploads + 1
                && final(stats).total_bytes_received == old(stats).total_bytes_received + bytes
                && final(stats).last_uploaded_file == Some(path)
                && final(stats).active_connections == old(stats).active_connections,
            StatsCommand::UpdateConnectionCount { count } => changed
                && *final(stats) == (ServerStats { active_connections: count, ..*old(stats) }),
            _ => !changed && *final(stats) == *old(stats),
        },
        *final(stats) == stats_after(*old(stats), cmd),
{
    match cmd {
        StatsCommand::RecordUpload { path, bytes } => {
            stats.total_uploads = stats.total_uploads + 1;
            stats.total_bytes_received = stats.total_bytes_received + bytes;
            stats.last_uploaded_file = Some(path);
            true
        },
        StatsCommand::UpdateConnectionCount { count } => {
            stats.active_connections = count;
            true
        },
        _ => false,
    }
}


/// What follows the upload of a file.
#[derive(Debug, Clone, Copy, PartialEq, Eq, Structural)]
pub struct UploadReaction {
    /// The file is an image: it is indexed once ready, offered to AI editing and opened.
    pub process_image: bool,
    /// The image is a RAW file: it is also offered to automatic color grading.
    pub color_grade: bool,
}

/// What follows the upload of `path`: images are processed, RAW images also graded.
pub fn upload_reaction(path: &str) -> (r: UploadReaction)
    ensures
        r.process_image == is_supported_image_path(path@),
        r.color_grade == (is_supported_image_path(path@) && is_raw_path(path@)),
{
    let image = is_supported_image(path);
    UploadReaction { process_image: image, color_grade: image && is_raw_file(path) }
}

/// Whether the deletion of `path` asks the media library to refresh: only for images.
pub fn refresh_after_delete(path: &str) -> (r: bool)
    ensures
        r == is_supported_image_path(path@),
{
    is_supported_image(path)
}

} // verus!
