//! The AI edit worker's bookkeeping: the progress it reports for each task of a batch,
//! the summary at the end of a batch, which uploads it edits automatically, which prompt
//! and model a task uses, and the names of the edited images.
use vstd::prelude::*;
use crate::text::{chars_of, string_of, string_views, trim_whitespace, trim_ws, join_strs};
use crate::paths::{file_name, file_name_of, file_stem, file_stem_of};
use crate::net::{decimal, decimal_digits};
use crate::config::{AiEditConfig, ProviderConfig};
use crate::error::AppError;
use crate::codec::{base64_encode, base64_decode, base64_encoded, base64_decoded};

verus! {

/// Capacity of the queue of manual edit requests.
pub const MANUAL_QUEUE_CAPACITY: usize = 4;
/// Capacity of the queue of automatic edit requests.
pub const AUTO_QUEUE_CAPACITY: usize = 32;
/// The subdirectory of the save directory that edited images go to.
pub const AIEDIT_SUBDIR: &'static str = "AIEdit";
/// How many numbered names are tried after the plain name of an edited image is taken.
pub const MAX_NAME_RETRIES: u32 = 99;

/// The longest side an image is scaled down to before it is sent for editing.
pub const MAX_LONG_SIDE: u32 = 4096;
/// The JPEG quality of an image sent for editing.
pub const JPEG_QUALITY: u8 = 85;

/// An image ready to be sent for editing.
#[derive(Debug)]
pub struct PreparedImage {
    pub base64_data: String,
    pub mime_type: &'static str,
}

impl PreparedImage {
    /// A JPEG image, encoded for sending.
    pub fn from_jpeg(jpeg: &[u8]) -> (r: PreparedImage)
        requires
            jpeg@.len() <= usize::MAX / 2,
        ensures
            r.base64_data@ == base64_encoded(jpeg@),
            r.mime_type@ == "image/jpeg"@,
    {
        PreparedImage { base64_data: base64_encode(jpeg), mime_type: "image/jpeg" }
    }
}

/// Progress of the AI edit worker, as reported to the frontend.
#[derive(Debug, Clone)]
pub enum AiEditProgressEvent {
    Progress { current: u32, total: u32, file_name: String, failed_count: u32 },
    Completed { current: u32, total: u32, file_name: String, failed_count: u32, output_path: Option<String> },
    Failed { current: u32, total: u32, file_name: String, error: String, failed_count: u32 },
    Queued { queue_depth: u32 },
    Done { total: u32, failed_count: u32, failed_files: Vec<String>, output_files: Vec<String> },
    QueuedDropped { file_name: String, queue_depth: u32 },
}

/// What the worker counts during a batch.
#[derive(Debug)]
pub struct WorkerState {
    pub completed_count: u32,
    pub failed_count: u32,
    pub failed_files: Vec<String>,
    pub output_files: Vec<String>,
}

impl Default for WorkerState {
    fn default() -> (r: Self)
        ensures
            r.completed_count == 0,
            r.failed_count == 0,
            r.failed_files@.len() == 0,
            r.output_files@.len() == 0,
    {
        WorkerState { completed_count: 0, failed_count: 0, failed_files: Vec::new(), output_files: Vec::new() }
    }
}

/// The name shown for a task's file: the last component of its path, or `unknown`.
pub open spec fn task_file_name(path: Seq<char>) -> Seq<char> {
    match file_name(path) {
        Some(n) => n,
        None => "unknown"@,
    }
}

/// The name shown for a task's file (see `task_file_name`).
pub fn display_file_name(path: &str) -> (r: String)
    ensures
        r@ == task_file_name(path@),
{
    match file_name_of(chars_of(path).as_slice()) {
        Some(n) => string_of(n.as_slice()),
        None => "unknown".to_string(),
    }
}

impl WorkerState {
    /// The number of tasks finished in this batch, successfully or not.
    pub open spec fn processed(&self) -> int {
        self.completed_count + self.failed_count
    }

    /// The number of tasks finished in this batch, successfully or not.
    pub fn processed_count(&self) -> (r: u32)
        requires
            self.processed() <= u32::MAX,
        ensures
            r == self.processed(),
    {
        self.completed_count + self.failed_count
    }

    /// Starts a new batch: nothing counted.
    pub fn reset(&mut self)
        ensures
            final(self).completed_count == 0,
            final(self).failed_count == 0,
            final(self).failed_files@.len() == 0,
            final(self).output_files@.len() == 0,
    {
        self.completed_count = 0;
        self.failed_count = 0;
        self.failed_files.clear();
        self.output_files.clear();
    }

    /// The progress reported when a task starts, `remaining` tasks still queued after it:
    /// it is the next one of the batch, out of those finished, itself and those queued.
    pub fn task_started(&self, file_name: String, remaining: u32) -> (e: AiEditProgressEvent)
        requires
            self.processed() + 1 + remaining <= u32::MAX,
        ensures
            e matches AiEditProgressEvent::Progress { current, total, file_name: n, failed_count }
                && current == self.processed() + 1
                && total == self.processed() + 1 + remaining
                && n == file_name
                && failed_count == self.failed_count,
    {
        let current = self.completed_count + self.failed_count + 1;
        AiEditProgressEvent::Progress { current, total: current + remaining, file_name, failed_count: self.failed_count }
    }

    /// Counts a task that produced `output_path`, `remaining` tasks still queued, and
    /// returns the progress reported for it.
    pub fn record_completed(&mut self, file_name: String, output_path: String, remaining: u32) -> (e: AiEditProgressEvent)
        requires
            old(self).processed() + 1 + remaining <= u32::MAX,
        ensures
            final(self).completed_count == old(self).completed_count + 1,
            final(self).failed_count == old(self).failed_count,
            final(self).failed_files@ == old(self).failed_files@,
            final(self).output_files@ == old(self).output_files@.push(output_path),
            e matches AiEditProgressEvent::Completed { current, total, file_name: n, failed_count, output_path: o }
                && current == old(self).processed() + 1
                && total == old(self).processed() + 1 + remaining
                && n == file_name
                && failed_count == old(self).failed_count
                && o == Some(output_path),
    {
        self.completed_count = self.completed_count + 1;
        self.output_files.push(output_path.clone());
        let current = self.completed_count + self.failed_count;
        AiEditProgressEvent::Completed {
            current,
            total: current + remaining,
            file_name,
            failed_count: self.failed_count,
            output_path: Some(output_path),
        }
    }

    /// Counts a task that failed with `error`, `remaining` tasks still queued, and returns
    /// the progress reported for it.
    pub fn record_failed(&mut self, file_name: String, error: String, remaining: u32) -> (e: AiEditProgressEvent)
        requires
            old(self).processed() + 1 + remaining <= u32::MAX,
        ensures
            final(self).completed_count == old(self).completed_count,
            final(self).failed_count == old(self).failed_count + 1,
            final(self).failed_files@ == old(self).failed_files@.push(file_name),
            final(self).output_files@ == old(self).output_files@,
            e matches AiEditProgressEvent::Failed { current, total, file_name: n, error: er, failed_count }
                && current == old(self).processed() + 1
                && total == old(self).processed() + 1 + remaining
                && n == file_name
                && er == error
                && failed_count == old(self).failed_count + 1,
    {
        self.failed_count = self.failed_count + 1;
        self.failed_files.push(file_name.clone());
        let current = self.completed_count + self.failed_count;
        AiEditProgressEvent::Failed { current, total: current + remaining, file_name, error, failed_count: self.failed_count }
    }

    /// Ends the batch: returns its summary (the tasks finished, the failures, the failed
    /// files and the outputs) and starts a new one.
    pub fn finish_batch(&mut self) -> (e: AiEditProgressEvent)
        requires
            old(self).processed() <= u32::MAX,
        ensures
            e matches AiEditProgressEvent::Done { total, failed_count, failed_files, output_files }
                && total == old(self).processed()
                && failed_count == old(self).failed_count
                && failed_files@ == old(self).failed_files@
                && output_files@ == old(self).output_files@,
            final(self).completed_count == 0,
            final(self).failed_count == 0,
            final(self).failed_files@.len() == 0,
            final(self).output_files@.len() == 0,
    {
        let total = self.completed_count + self.failed_count;
        let failed_count = self.failed_count;
        let mut failed_files: Vec<String> = Vec::new();
        let mut output_files: Vec<String> = Vec::new();
        std::mem::swap(&mut failed_files, &mut self.failed_files);
        std::mem::swap(&mut output_files, &mut self.output_files);
        self.reset();
        AiEditProgressEvent::Done { total, failed_count, failed_files, output_files }
    }

    /// Whether the batch is over: nothing is queued and something was processed.
    pub fn batch_complete(&self, queue_depth: u32) -> (r: bool)
        requires
            self.processed() <= u32::MAX,
        ensures
            r == (queue_depth == 0 && self.processed() > 0),
    {
        queue_depth == 0 && self.processed_count() > 0
    }
}

/// Where the worker takes its next step from.
#[derive(Debug, Clone, Copy, PartialEq, Eq, Structural)]
pub enum NextSource {
    /// A cancellation is pending.
    Cancel,
    /// A manual task is waiting.
    Manual,
    /// An automatic task is waiting.
    Auto,
    /// Nothing is ready: wait for the first of these.
    Wait,
}

/// Where the worker takes its next step from: a pending cancellation first, then a manual
/// task, then an automatic one (while that queue is open); otherwise it waits.
pub fn next_source(cancelled: bool, manual_ready: bool, auto_ready: bool, auto_open: bool) -> (r: NextSource)
    ensures
        r == if cancelled {
            NextSource::Cancel
        } else if manual_ready {
            NextSource::Manual
        } else if auto_open && auto_ready {
            NextSource::Auto
        } else {
            NextSource::Wait
        },
{
    if cancelled {
        NextSource::Cancel
    } else if manual_ready {
        NextSource::Manual
    } else if auto_open && auto_ready {
        NextSource::Auto
    } else {
        NextSource::Wait
    }
}

/// What happened to the worker.
#[derive(Debug, Clone)]
pub enum WorkerEvent {
    /// A cancellation was seen while no task ran.
    Cancelled,
    /// The manual queue closed.
    ManualClosed,
    /// The automatic queue closed; `queue_depth` tasks are still queued.
    AutoClosed { queue_depth: u32 },
    /// A task left its queue; `remaining` tasks are still queued after it.
    TaskTaken { file_name: String, remaining: u32 },
    /// The running task wrote `output_path`; `remaining` tasks were queued when it finished,
    /// `queue_depth` when the end of the batch is checked.
    TaskCompleted { file_name: String, output_path: String, remaining: u32, queue_depth: u32 },
    /// The running task failed with `error` (see `TaskCompleted` for the counts).
    TaskFailed { file_name: String, error: String, remaining: u32, queue_depth: u32 },
    /// The running task was cancelled.
    TaskCancelled,
}

/// What the worker does after an event: the progress it reports, in order; whether it
/// drains both queues (answering their tasks as cancelled); whether it stops.
#[derive(Debug)]
pub struct WorkerStep {
    pub events: Vec<AiEditProgressEvent>,
    pub drain: bool,
    pub stop: bool,
}

/// A batch summary reporting `total` tasks, `failed` failures, the failed files `ff` and the
/// outputs `of`.
pub open spec fn is_done_event(e: AiEditProgressEvent, total: int, failed: int, ff: Seq<String>, of: Seq<String>) -> bool {
    e matches AiEditProgressEvent::Done { total: t, failed_count, failed_files, output_files }
        && t == total && failed_count == failed && failed_files@ == ff && output_files@ == of
}

/// The worker between its steps: the batch counters, and whether the automatic queue is
/// still open.
#[derive(Debug)]
pub struct WorkerLoop {
    pub state: WorkerState,
    pub auto_open: bool,
}

impl WorkerLoop {
    /// A fresh worker: nothing counted, both queues open.
    pub fn new() -> (r: WorkerLoop)
        ensures
            r.state.completed_count == 0,
            r.state.failed_count == 0,
            r.state.failed_files@.len() == 0,
            r.state.output_files@.len() == 0,
            r.auto_open,
    {
        WorkerLoop { state: WorkerState::default(), auto_open: true }
    }

    /// The counts of an event fit the `u32` counters.
    pub open spec fn fits(&self, e: WorkerEvent) -> bool {
        match e {
            WorkerEvent::TaskTaken { remaining, .. } => self.state.processed() + 1 + remaining <= u32::MAX,
            WorkerEvent::TaskCompleted { remaining, .. } => self.state.processed() + 1 + remaining <= u32::MAX,
            WorkerEvent::TaskFailed { remaining, .. } => self.state.processed() + 1 + remaining <= u32::MAX,
            _ => self.state.processed() <= u32::MAX,
        }
    }

    /// The batch is reset: nothing counted.
    pub open spec fn is_reset(&self) -> bool {
        &&& self.state.completed_count == 0
        &&& self.state.failed_count == 0
        &&& self.state.failed_files@.len() == 0
        &&& self.state.output_files@.len() == 0
    }

    /// One step of the worker. A cancellation (seen while waiting or while a task runs)
    /// drains both queues and reports the batch summary; so does the closing of the manual
    /// queue, after which the worker stops. The closing of the automatic queue reports the
    /// summary when nothing is queued and something was processed. A task that starts
    /// reports its progress; a task that ends is counted and reported, and when then nothing
    /// is queued the summary follows.
    pub fn step(&mut self, event: WorkerEvent) -> (r: WorkerStep)
        requires
            old(self).fits(event),
        ensures
            match event {
                WorkerEvent::Cancelled | WorkerEvent::TaskCancelled | WorkerEvent::ManualClosed => {
                    &&& r.drain
                    &&& r.stop == (event is ManualClosed)
                    &&& r.events@.len() == 1
                    &&& is_done_event(r.events@[0], old(self).state.processed(), old(self).state.failed_count as int,
                        old(self).state.failed_files@, old(self).state.output_files@)
                    &&& final(self).is_reset()
                    &&& final(self).auto_open == old(self).auto_open
                },
                WorkerEvent::AutoClosed { queue_depth } => {
                    &&& !r.drain && !r.stop
                    &&& !final(self).auto_open
                    &&& if queue_depth == 0 && old(self).state.processed() > 0 {
                        &&& r.events@.len() == 1
                        &&& is_done_event(r.events@[0], old(self).state.processed(), old(self).state.failed_count as int,
                            old(self).state.failed_files@, old(self).state.output_files@)
                        &&& final(self).is_reset()
                    } else {
                        &&& r.events@.len() == 0
                        &&& final(self).state.completed_count == old(self).state.completed_count
                        &&& final(self).state.failed_count == old(self).state.failed_count
                        &&& final(self).state.failed_files@ == old(self).state.failed_files@
                        &&& final(self).state.output_files@ == old(self).state.output_files@
                    }
                },
                WorkerEvent::TaskTaken { file_name, remaining } => {
                    &&& !r.drain && !r.stop
                    &&& r.events@ == seq![AiEditProgressEvent::Progress {
                        current: (old(self).state.processed() + 1) as u32,
                        total: (old(self).state.processed() + 1 + remaining) as u32,
                        file_name,
                        failed_count: old(self).state.failed_count,
                    }]
                    &&& final(self).state.completed_count == old(self).state.completed_count
                    &&& final(self).state.failed_count == old(self).state.failed_count
                    &&& final(self).state.failed_files@ == old(self).state.failed_files@
                    &&& final(self).state.output_files@ == old(self).state.output_files@
                    &&& final(self).auto_open == old(self).auto_open
                },
                WorkerEvent::TaskCompleted { file_name, output_path, remaining, queue_depth } => {
                    &&& !r.drain && !r.stop
                    &&& r.events@.len() >= 1
                    &&& r.events@[0] matches AiEditProgressEvent::Completed { current, total, file_name: n, failed_count, output_path: o }
                        && current == old(self).state.processed() + 1
                        && total == old(self).state.processed() + 1 + remaining
                        && n == file_name && failed_count == old(self).state.failed_count && o == Some(output_path)
                    &&& final(self).auto_open == old(self).auto_open
                    &&& if queue_depth == 0 {
                        &&& r.events@.len() == 2
                        &&& is_done_event(r.events@[1], old(self).state.processed() + 1, old(self).state.failed_count as int,
                            old(self).state.failed_files@, old(self).state.output_files@.push(output_path))
                        &&& final(self).is_reset()
                    } else {
                        &&& r.events@.len() == 1
                        &&& final(self).state.completed_count == old(self).state.completed_count + 1
                        &&& final(self).state.failed_count == old(self).state.failed_count
                        &&& final(self).state.failed_files@ == old(self).state.failed_files@
                        &&& final(self).state.output_files@ == old(self).state.output_files@.push(output_path)
                    }
                },
                WorkerEvent::TaskFailed { file_name, error, remaining, queue_depth } => {
                    &&& !r.drain && !r.stop
                    &&& r.events@.len() >= 1
                    &&& r.events@[0] matches AiEditProgressEvent::Failed { current, total, file_name: n, error: er, failed_count }
                        && current == old(self).state.processed() + 1
                        && total == old(self).state.processed() + 1 + remaining
                        && n == file_name && er == error && failed_count == old(self).state.failed_count + 1
                    &&& final(self).auto_open == old(self).auto_open
                    &&& if queue_depth == 0 {
                        &&& r.events@.len() == 2
                        &&& is_done_event(r.events@[1], old(self).state.processed() + 1, old(self).state.failed_count + 1,
                            old(self).state.failed_files@.push(file_name), old(self).state.output_files@)
                        &&& final(self).is_reset()
                    } else {
                        &&& r.events@.len() == 1
                        &&& final(self).state.completed_count == old(self).state.completed_count
                        &&& final(self).state.failed_count == old(self).state.failed_count + 1
                        &&& final(self).state.failed_files@ == old(self).state.failed_files@.push(file_name)
                        &&& final(self).state.output_files@ == old(self).state.output_files@
                    }
                },
            },
    {
        let mut events: Vec<AiEditProgressEvent> = Vec::new();
        match event {
            WorkerEvent::Cancelled => {
                events.push(self.state.finish_batch());
                WorkerStep { events, drain: true, stop: false }
            },
            WorkerEvent::TaskCancelled => {
                events.push(self.state.finish_batch());
                WorkerStep { events, drain: true, stop: false }
            },
            WorkerEvent::ManualClosed => {
                events.push(self.state.finish_batch());
                WorkerStep { events, drain: true, stop: true }
            },
            WorkerEvent::AutoClosed { queue_depth } => {
                self.auto_open = false;
                if self.state.batch_complete(queue_depth) {
                    events.push(self.state.finish_batch());
                }
                WorkerStep { events, drain: false, stop: false }
            },
            WorkerEvent::TaskTaken { file_name, remaining } => {
                events.push(self.state.task_started(file_name, remaining));
                WorkerStep { events, drain: false, stop: false }
            },
            WorkerEvent::TaskCompleted { file_name, output_path, remaining, queue_depth } => {
                events.push(self.state.record_completed(file_name, output_path, remaining));
                if self.state.batch_complete(queue_depth) {
                    events.push(self.state.finish_batch());
                }
                WorkerStep { events, drain: false, stop: false }
            },
            WorkerEvent::TaskFailed { file_name, error, remaining, queue_depth } => {
                events.push(self.state.record_failed(file_name, error, remaining));
                if self.state.batch_complete(queue_depth) {
                    events.push(self.state.finish_batch());
                }
                WorkerStep { events, drain: false, stop: false }
            },
        }
    }
}

/// The error a task gets when the worker is cancelled before or while running it.
pub fn edit_cancelled_error() -> (e: AppError)
    ensures
        e matches AppError::AiEditError(m) && m@ == "AI edit cancelled"@,
{
    AppError::AiEditError("AI edit cancelled".to_string())
}

/// Whether an upload is edited automatically: AI edit is on, automatic edits are on and
/// the prompt is not blank.
pub open spec fn auto_edit_wanted(c: AiEditConfig) -> bool {
    c.enabled && c.auto_edit && trim_ws(c.prompt@).len() > 0
}

/// Whether an upload is edited automatically (see `auto_edit_wanted`).
pub fn should_auto_edit(config: &AiEditConfig) -> (r: bool)
    ensures
        r == auto_edit_wanted(*config),
{
    config.enabled && config.auto_edit
        && trim_whitespace(chars_of(config.prompt.as_str()).as_slice()).len() > 0
}

/// The API key and model an edit uses: the configured key (refused when empty) and the
/// task's model, else the configured one.
pub fn edit_credentials(config: &AiEditConfig, override_model: &Option<String>) -> (r: Result<(String, String), AppError>)
    ensures
        match config.provider {
            ProviderConfig::SeedEdit(c) => if c.api_key@.len() == 0 {
                r matches Err(AppError::AiEditError(m)) && m@ == "API Key is not configured"@
            } else {
                r matches Ok((key, model)) && key@ == c.api_key@ && model@ == match *override_model {
                    Some(m) => m@,
                    None => c.model@,
                }
            },
        },
{
    match &config.provider {
        ProviderConfig::SeedEdit(c) => {
            if c.api_key.as_str().unicode_len() == 0 {
                return Err(AppError::AiEditError("API Key is not configured".to_string()));
            }
            let model = match override_model {
                Some(m) => m.clone(),
                None => c.model.clone(),
            };
            Ok((c.api_key.clone(), model))
        },
    }
}

/// Whether the cached provider must be made anew: its key or its model differs from the
/// ones this edit uses (or there is none).
pub fn provider_outdated(cached_key: &Option<String>, cached_model: &Option<String>, key: &str, model: &str) -> (r: bool)
    ensures
        r == !((cached_key matches Some(k) && k@ == key@) && (cached_model matches Some(m) && m@ == model@)),
{
    let key_same = match cached_key {
        Some(k) => crate::text::chars_eq(chars_of(k.as_str()).as_slice(), chars_of(key).as_slice()),
        None => false,
    };
    let model_same = match cached_model {
        Some(m) => crate::text::chars_eq(chars_of(m.as_str()).as_slice(), chars_of(model).as_slice()),
        None => false,
    };
    !(key_same && model_same)
}

/// The prompt of an edit: the task's own, else the configured one when it is not empty;
/// without one the edit is refused.
pub fn edit_prompt(override_prompt: &Option<String>, config_prompt: &str) -> (r: Result<String, AppError>)
    ensures
        match *override_prompt {
            Some(p) => r matches Ok(q) && q@ == p@,
            None => if config_prompt@.len() == 0 {
                r matches Err(AppError::AiEditError(m)) && m@ == "提示词不能为空，请先配置提示词"@
            } else {
                r matches Ok(q) && q@ == config_prompt@
            },
        },
{
    match override_prompt {
        Some(p) => Ok(p.clone()),
        None => {
            if config_prompt.unicode_len() == 0 {
                Err(AppError::AiEditError("提示词不能为空，请先配置提示词".to_string()))
            } else {
                Ok(config_prompt.to_string())
            }
        },
    }
}

/// The stem of an edited image's name: the source file's stem, or `image`.
pub open spec fn edit_stem(path: Seq<char>) -> Seq<char> {
    match file_stem(path) {
        Some(s) => s,
        None => "image"@,
    }
}

/// The name of an edited image on attempt `attempt`: `{stem}_AIEdit_{datetime}.jpg` first,
/// then `{stem}_AIEdit_{datetime}_{attempt}.jpg`.
pub open spec fn edited_name(stem: Seq<char>, datetime: Seq<char>, attempt: u32) -> Seq<char> {
    if attempt == 0 {
        stem + "_AIEdit_"@ + datetime + ".jpg"@
    } else {
        stem + "_AIEdit_"@ + datetime + "_"@ + decimal_digits(attempt as nat) + ".jpg"@
    }
}

/// The stem of an edited image's name (see `edit_stem`).
pub fn edited_image_stem(source_path: &str) -> (r: String)
    ensures
        r@ == edit_stem(source_path@),
{
    match file_stem_of(chars_of(source_path).as_slice()) {
        Some(s) => string_of(s.as_slice()),
        None => "image".to_string(),
    }
}

/// The file name an edited image is written under on attempt `attempt` (0 for the plain
/// name, then up to `MAX_NAME_RETRIES` numbered names).
pub fn edited_image_name(stem: &str, datetime: &str, attempt: u32) -> (r: String)
    ensures
        r@ == edited_name(stem@, datetime@, attempt),
{
    let a = join_strs(stem, "_AIEdit_");
    let b = join_strs(a.as_str(), datetime);
    if attempt == 0 {
        join_strs(b.as_str(), ".jpg")
    } else {
        let c = join_strs(b.as_str(), "_");
        let n = decimal(attempt as u64);
        let d = join_strs(c.as_str(), n.as_str());
        join_strs(d.as_str(), ".jpg")
    }
}


/// The `data:` URI under which an image is sent to the provider.
pub fn image_data_uri(mime_type: &str, image_base64: &str) -> (r: String)
    ensures
        r@ == "data:"@ + mime_type@ + ";base64,"@ + image_base64@,
{
    let a = join_strs("data:", mime_type);
    let b = join_strs(a.as_str(), ";base64,");
    join_strs(b.as_str(), image_base64)
}

/// The base address of the SeedEdit API.
pub const SEEDEDIT_BASE_URL: &'static str = "https://ark.cn-beijing.volces.com/api/v3";

/// The request body of an image edit.
#[derive(Debug, Clone)]
pub struct SeedEditRequest {
    pub model: String,
    pub prompt: String,
    /// The image as a `data:` URI.
    pub image: String,
    pub size: &'static str,
    pub response_format: &'static str,
    pub watermark: bool,
}

/// The request that edits an image (`mime_type`, base64 text `image_base64`) with `prompt`
/// on `model`: in 4K, answered with a link, without watermark.
pub fn seededit_request(model: &str, prompt: &str, mime_type: &str, image_base64: &str) -> (r: SeedEditRequest)
    ensures
        r.model@ == model@,
        r.prompt@ == prompt@,
        r.image@ == "data:"@ + mime_type@ + ";base64,"@ + image_base64@,
        r.size@ == "4K"@,
        r.response_format@ == "url"@,
        !r.watermark,
{
    SeedEditRequest {
        model: model.to_string(),
        prompt: prompt.to_string(),
        image: image_data_uri(mime_type, image_base64),
        size: "4K",
        response_format: "url",
        watermark: false,
    }
}

/// The address image edits are posted to.
pub fn generations_url() -> (r: String)
    ensures
        r@ == SEEDEDIT_BASE_URL@ + "/images/generations"@,
{
    join_strs(SEEDEDIT_BASE_URL, "/images/generations")
}

/// The `Authorization` header value for `api_key`.
pub fn bearer_header(api_key: &str) -> (r: String)
    ensures
        r@ == "Bearer "@ + api_key@,
{
    join_strs("Bearer ", api_key)
}

/// A provider needs an API key: an empty one is refused.
pub fn require_api_key(api_key: &str) -> (r: Result<(), AppError>)
    ensures
        api_key@.len() == 0 ==> (r matches Err(AppError::AiEditError(m)) && m@ == "API Key is not configured"@),
        api_key@.len() > 0 ==> r is Ok,
{
    if api_key.unicode_len() == 0 {
        Err(AppError::AiEditError("API Key is not configured".to_string()))
    } else {
        Ok(())
    }
}

/// The error for a refused request whose reply carried a structured error: its code
/// (`unknown` when missing) and message (empty when missing), after the HTTP status.
pub fn api_error(status: &str, code: &Option<String>, message: &Option<String>) -> (r: AppError)
    ensures
        r matches AppError::AiEditError(m) && m@ == "API error ("@ + status@ + "): "@
            + match *code { Some(c) => c@, None => "unknown"@ } + " — "@
            + match *message { Some(x) => x@, None => Seq::<char>::empty() },
{
    let c = match code {
        Some(c) => c.clone(),
        None => "unknown".to_string(),
    };
    let m = match message {
        Some(x) => x.clone(),
        None => String::new(),
    };
    let a = join_strs("API error (", status);
    let b = join_strs(a.as_str(), "): ");
    let d = join_strs(b.as_str(), c.as_str());
    let e = join_strs(d.as_str(), " — ");
    AppError::AiEditError(join_strs(e.as_str(), m.as_str()))
}

/// At most the first `n` characters of `s`.
pub open spec fn prefix_upto(s: Seq<char>, n: int) -> Seq<char> {
    if s.len() <= n { s } else { s.take(n) }
}

/// The error for a refused request whose reply was not a structured error: the HTTP
/// status and the first 200 characters of the reply.
pub fn api_raw_error(status: &str, body: &str) -> (r: AppError)
    ensures
        r matches AppError::AiEditError(m) && m@ == "API returned "@ + status@ + ": "@ + prefix_upto(body@, 200),
{
    let cs = chars_of(body);
    let n = if cs.len() <= 200 { cs.len() } else { 200 };
    let head = crate::text::slice_of(cs.as_slice(), 0, n);
    assert(head@ =~= prefix_upto(body@, 200));
    let a = join_strs("API returned ", status);
    let b = join_strs(a.as_str(), ": ");
    AppError::AiEditError(join_strs(b.as_str(), string_of(head.as_slice()).as_str()))
}

/// One image of the provider's reply: a link to it or its base64 text.
#[derive(Debug)]
pub struct SeedEditImageData {
    pub url: Option<String>,
    pub b64_json: Option<String>,
}

/// Where the edited image comes from.
#[derive(Debug)]
pub enum EditedImage {
    /// To be downloaded from this URL.
    Download(String),
    /// Sent inline, as base64 text.
    Inline(String),
}

/// Where the edited image of a reply comes from: its first image's link, else that
/// image's base64 text; a reply without images, or whose first image has neither, is an
/// error.
pub fn edited_image_source(data: Vec<SeedEditImageData>) -> (r: Result<EditedImage, AppError>)
    ensures
        data@.len() == 0 ==> (r matches Err(AppError::AiEditError(m)) && m@ == "API returned no image data"@),
        data@.len() > 0 ==> match data@[0].url {
            Some(u) => r matches Ok(EditedImage::Download(x)) && x@ == u@,
            None => match data@[0].b64_json {
                Some(b) => r matches Ok(EditedImage::Inline(x)) && x@ == b@,
                None => r matches Err(AppError::AiEditError(m)) && m@ == "API returned neither URL nor base64 data"@,
            },
        },
{
    let mut data = data;
    if data.len() == 0 {
        return Err(AppError::AiEditError("API returned no image data".to_string()));
    }
    let first = data.swap_remove(0);
    match first.url {
        Some(u) => Ok(EditedImage::Download(u)),
        None => match first.b64_json {
            Some(b) => Ok(EditedImage::Inline(b)),
            None => Err(AppError::AiEditError("API returned neither URL nor base64 data".to_string())),
        },
    }
}

/// The bytes of an edited image sent inline, from the result of decoding its base64
/// text: a decoding error becomes an AI edit error naming it.
pub fn inline_image_bytes(decoded: Result<Vec<u8>, String>) -> (r: Result<Vec<u8>, AppError>)
    ensures
        match decoded {
            Ok(v) => r matches Ok(w) && w@ == v@,
            Err(e) => r matches Err(AppError::AiEditError(m)) && m@ == "Failed to decode base64 image: "@ + e@,
        },
{
    match decoded {
        Ok(v) => Ok(v),
        Err(e) => Err(AppError::AiEditError(join_strs("Failed to decode base64 image: ", e.as_str()))),
    }
}

/// Decodes an edited image sent inline (see `inline_image_bytes`).
pub fn decode_inline_image(b64: &str) -> (r: Result<Vec<u8>, AppError>)
    ensures
        match base64_decoded(b64@) {
            Some(v) => r matches Ok(w) && w@ == v,
            None => r matches Err(AppError::AiEditError(_)),
        },
{
    inline_image_bytes(base64_decode(b64))
}

} // verus!
