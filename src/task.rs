//! The task descriptor: one per requested identifier, moved through
//! resolve and download by a state machine. The caller performs the
//! network and file work that an [`Action`] asks for and hands the result
//! back as an [`Event`]; every decision is taken here.

use vstd::prelude::*;
use crate::failure::{Failure, status_failure, classify_status, reason_text};

verus! {

/// How many leading characters of an identifier go into a file name.
pub const ID_PREFIX_LEN: usize = 8;

/// The identifier as it appears in a file name: its first
/// [`ID_PREFIX_LEN`] characters, or all of it when it is shorter.
pub open spec fn id_prefix(id: Seq<char>) -> Seq<char> {
    if id.len() <= ID_PREFIX_LEN {
        id
    } else {
        id.take(ID_PREFIX_LEN as int)
    }
}

/// Where the archive of `id`, named `name`, is written inside `folder`:
/// `{folder}/{name}-{id prefix}.zip`.
pub open spec fn dest_of(folder: Seq<char>, name: Seq<char>, id: Seq<char>) -> Seq<char> {
    folder + "/"@ + name + "-"@ + id_prefix(id) + ".zip"@
}

/// Where a download stands once metadata has been resolved.
#[derive(Debug, Clone, Copy, PartialEq, Eq, Structural)]
pub enum Stage {
    /// The content request has been issued; its reply is awaited.
    Requested,
    /// The reply was a success; the destination file is being created.
    CreatingFile,
    /// The file exists; chunks of the body are being written to it.
    Streaming,
    /// The body has been written; the file is being flushed to storage.
    Syncing,
}

/// The lifecycle of a task. It only moves forward, and `Succeeded` and
/// `Failed` are terminal.
#[derive(Debug)]
pub enum TaskStatus {
    Pending,
    Resolving,
    Downloading(Stage),
    Succeeded,
    Failed(Failure),
}

/// What a successful metadata reply told about the collection.
#[derive(Debug)]
pub struct Metadata {
    pub name: String,
}

/// The outcome of the work that the last [`Action`] asked for.
#[derive(Debug)]
pub enum Event {
    /// The pipeline begins.
    Start,
    /// The outstanding request could not be sent or answered.
    TransportFailed { detail: String },
    /// The metadata reply: its status and, when the body held a usable
    /// record, what it said.
    MetadataReceived { status: u16, metadata: Option<Metadata> },
    /// The content reply: its status and its length header, if any.
    ContentReceived { status: u16, content_length: Option<u64> },
    FileCreated,
    FileCreateFailed { cause: String },
    /// One chunk of `len` bytes was read and written to the file.
    ChunkWritten { len: u64 },
    WriteFailed { cause: String },
    StreamFailed { cause: String },
    /// The body has no more chunks.
    StreamEnded,
    Synced,
    SyncFailed { cause: String },
}

/// The work a task asks its caller to do next.
#[derive(Debug, Clone, Copy, PartialEq, Eq, Structural)]
pub enum Action {
    /// GET the metadata URL with the authorization header.
    FetchMetadata,
    /// GET the content URL with the authorization header.
    FetchContent,
    /// Create (or truncate) the destination file.
    CreateFile,
    /// Read the next chunk of the body and write it to the file.
    Transfer,
    /// Flush the file to durable storage.
    Sync,
    /// The task is terminal; nothing more is to be done.
    Finish,
    /// The event did not answer the awaited work; nothing changed.
    Idle,
}

/// How far a task has come, in the form a progress indicator shows it.
#[derive(Debug, Clone, Copy, PartialEq, Eq, Structural)]
pub enum Progress {
    /// Before any bytes move: `done` of `total` steps.
    Steps { done: u64, total: u64 },
    /// Bytes written against a reported, positive length.
    Bytes { written: u64, total: u64 },
    /// Bytes written with no usable length: no total, no percentage.
    Indeterminate { written: u64 },
    /// Finished successfully.
    Done,
    /// Finished with a failure.
    Abandoned,
}

/// Per-identifier state of the batch engine.
#[derive(Debug)]
pub struct DownloadTask {
    pub id: String,
    pub name: String,
    pub folder_path: String,
    pub dl_dest: String,
    pub meta_url: String,
    pub dl_url: String,
    pub token_value: String,
    pub expected_size: Option<u64>,
    pub bytes_written: u64,
    pub file_created: bool,
    pub status: TaskStatus,
}

/// The mathematical value of a [`DownloadTask`].
pub struct TaskView {
    pub id: Seq<char>,
    pub name: Seq<char>,
    pub folder: Seq<char>,
    pub dest: Seq<char>,
    pub meta_url: Seq<char>,
    pub dl_url: Seq<char>,
    pub token: Seq<char>,
    pub expected_size: Option<u64>,
    pub written: u64,
    pub file_created: bool,
    pub status: TaskStatus,
}

impl View for DownloadTask {
    type V = TaskView;

    open spec fn view(&self) -> TaskView {
        TaskView {
            id: self.id@,
            name: self.name@,
            folder: self.folder_path@,
            dest: self.dl_dest@,
            meta_url: self.meta_url@,
            dl_url: self.dl_url@,
            token: self.token_value@,
            expected_size: self.expected_size,
            written: self.bytes_written,
            file_created: self.file_created,
            status: self.status,
        }
    }
}

/// Is the status terminal?
pub open spec fn is_terminal(s: TaskStatus) -> bool {
    s is Succeeded || s is Failed
}

/// The task with its status replaced.
pub open spec fn with_status(t: TaskView, s: TaskStatus) -> TaskView {
    TaskView { status: s, ..t }
}

/// The task failed for `f`; nothing more is to be done.
pub open spec fn failed(t: TaskView, f: Failure) -> (TaskView, Action) {
    (with_status(t, TaskStatus::Failed(f)), Action::Finish)
}

/// What an event that does not answer the awaited work yields.
pub open spec fn unanswered(t: TaskView) -> (TaskView, Action) {
    (t, if is_terminal(t.status) { Action::Finish } else { Action::Idle })
}

/// One step of the pipeline: the task after `e`, and the work to do next.
pub open spec fn next(t: TaskView, e: Event) -> (TaskView, Action) {
    match t.status {
        TaskStatus::Pending => match e {
            Event::Start => (with_status(t, TaskStatus::Resolving), Action::FetchMetadata),
            _ => unanswered(t),
        },
        TaskStatus::Resolving => match e {
            Event::TransportFailed { detail } => failed(t, Failure::Transport { detail }),
            Event::MetadataReceived { status, metadata } => {
                if status_failure(status) is Some {
                    failed(t, status_failure(status)->0)
                } else if metadata is None {
                    failed(t, Failure::MalformedMetadata)
                } else {
                    let name = metadata->0.name@;
                    (
                        TaskView {
                            name,
                            dest: dest_of(t.folder, name, t.id),
                            status: TaskStatus::Downloading(Stage::Requested),
                            ..t
                        },
                        Action::FetchContent,
                    )
                }
            },
            _ => unanswered(t),
        },
        TaskStatus::Downloading(stage) => match stage {
            Stage::Requested => match e {
                Event::TransportFailed { detail } => failed(t, Failure::Transport { detail }),
                Event::ContentReceived { status, content_length } => {
                    if status_failure(status) is Some {
                        failed(t, status_failure(status)->0)
                    } else {
                        (
                            TaskView {
                                expected_size: content_length,
                                status: TaskStatus::Downloading(Stage::CreatingFile),
                                ..t
                            },
                            Action::CreateFile,
                        )
                    }
                },
                _ => unanswered(t),
            },
            Stage::CreatingFile => match e {
                Event::FileCreated => (
                    TaskView {
                        file_created: true,
                        status: TaskStatus::Downloading(Stage::Streaming),
                        ..t
                    },
                    Action::Transfer,
                ),
                Event::FileCreateFailed { cause } => failed(t, Failure::CannotCreateFile { cause }),
                _ => unanswered(t),
            },
            Stage::Streaming => match e {
                Event::ChunkWritten { len } => {
                    if t.written + len > u64::MAX {
                        failed(t, Failure::Oversized)
                    } else {
                        (TaskView { written: (t.written + len) as u64, ..t }, Action::Transfer)
                    }
                },
                Event::WriteFailed { cause } => failed(t, Failure::WriteError { cause }),
                Event::StreamFailed { cause } => failed(t, Failure::StreamError { cause }),
                Event::StreamEnded => {
                    if t.expected_size is Some && t.expected_size->0 != t.written {
                        failed(
                            t,
                            Failure::SizeMismatch {
                                expected: t.expected_size->0,
                                written: t.written,
                            },
                        )
                    } else {
                        (with_status(t, TaskStatus::Downloading(Stage::Syncing)), Action::Sync)
                    }
                },
                _ => unanswered(t),
            },
            Stage::Syncing => match e {
                Event::Synced => (with_status(t, TaskStatus::Succeeded), Action::Finish),
                Event::SyncFailed { cause } => failed(t, Failure::SyncError { cause }),
                _ => unanswered(t),
            },
        },
        _ => unanswered(t),
    }
}

/// The progress a task shows. A length of zero, like a missing one, gives
/// indeterminate progress, so no percentage is ever taken of it.
pub open spec fn progress_of(t: TaskView) -> Progress {
    match t.status {
        TaskStatus::Pending => Progress::Steps { done: 0, total: 3 },
        TaskStatus::Resolving => Progress::Steps { done: 1, total: 3 },
        TaskStatus::Downloading(stage) => {
            if stage == Stage::Requested || stage == Stage::CreatingFile {
                Progress::Steps { done: 2, total: 3 }
            } else if t.expected_size is Some && t.expected_size->0 > 0 {
                Progress::Bytes { written: t.written, total: t.expected_size->0 }
            } else {
                Progress::Indeterminate { written: t.written }
            }
        },
        TaskStatus::Succeeded => Progress::Done,
        TaskStatus::Failed(_) => Progress::Abandoned,
    }
}

/// The line that names a failed task in the batch report: `{id} - {reason}`.
pub open spec fn failure_line(id: Seq<char>, f: Failure) -> Seq<char> {
    id + " - "@ + reason_text(f)
}

/// The destination path of `id` named `name` inside `folder`.
pub fn destination(folder: &str, name: &str, id: &str) -> (r: String)
    ensures
        r@ == dest_of(folder@, name@, id@),
{
    let n = id.unicode_len();
    let k = if n <= ID_PREFIX_LEN { n } else { ID_PREFIX_LEN };
    let prefix = id.substring_char(0, k);
    let mut out = folder.to_owned();
    out.append("/");
    out.append(name);
    out.append("-");
    out.append(prefix);
    out.append(".zip");
    assert(prefix@ =~= id_prefix(id@));
    out
}

impl DownloadTask {
    /// A pending task for `id`.
    pub fn new(
        id: String,
        folder_path: String,
        meta_url: String,
        dl_url: String,
        token_value: String,
    ) -> (r: DownloadTask)
        ensures
            r@ == (TaskView {
                id: id@,
                name: Seq::empty(),
                folder: folder_path@,
                dest: Seq::empty(),
                meta_url: meta_url@,
                dl_url: dl_url@,
                token: token_value@,
                expected_size: None,
                written: 0,
                file_created: false,
                status: TaskStatus::Pending,
            }),
    {
        DownloadTask {
            id,
            name: String::new(),
            folder_path,
            dl_dest: String::new(),
            meta_url,
            dl_url,
            token_value,
            expected_size: None,
            bytes_written: 0,
            file_created: false,
            status: TaskStatus::Pending,
        }
    }

    /// Is the task terminal?
    pub fn is_terminal(&self) -> (r: bool)
        ensures
            r == is_terminal(self.status),
    {
        match self.status {
            TaskStatus::Succeeded => true,
            TaskStatus::Failed(_) => true,
            _ => false,
        }
    }

    fn fail(&mut self, f: Failure) -> (r: Action)
        ensures
            (final(self)@, r) == failed(old(self)@, f),
    {
        self.status = TaskStatus::Failed(f);
        Action::Finish
    }

    fn unanswered(&self) -> (r: Action)
        ensures
            (self@, r) == unanswered(self@),
    {
        if self.is_terminal() {
            Action::Finish
        } else {
            Action::Idle
        }
    }

    /// Takes one step: applies `event` and returns the work to do next.
    pub fn step(&mut self, event: Event) -> (r: Action)
        ensures
            (final(self)@, r) == next(old(self)@, event),
    {
        match &self.status {
            TaskStatus::Pending => match event {
                Event::Start => {
                    self.status = TaskStatus::Resolving;
                    Action::FetchMetadata
                },
                _ => self.unanswered(),
            },
            TaskStatus::Resolving => match event {
                Event::TransportFailed { detail } => self.fail(Failure::Transport { detail }),
                Event::MetadataReceived { status, metadata } => match classify_status(status) {
                    Some(f) => self.fail(f),
                    None => match metadata {
                        None => self.fail(Failure::MalformedMetadata),
                        Some(m) => {
                            self.dl_dest = destination(
                                self.folder_path.as_str(),
                                m.name.as_str(),
                                self.id.as_str(),
                            );
                            self.name = m.name;
                            self.status = TaskStatus::Downloading(Stage::Requested);
                            Action::FetchContent
                        },
                    },
                },
                _ => self.unanswered(),
            },
            TaskStatus::Downloading(stage) => {
                let stage = *stage;
                match stage {
                    Stage::Requested => match event {
                        Event::TransportFailed { detail } => self.fail(
                            Failure::Transport { detail },
                        ),
                        Event::ContentReceived { status, content_length } => match classify_status(
                            status,
                        ) {
                            Some(f) => self.fail(f),
                            None => {
                                self.expected_size = content_length;
                                self.status = TaskStatus::Downloading(Stage::CreatingFile);
                                Action::CreateFile
                            },
                        },
                        _ => self.unanswered(),
                    },
                    Stage::CreatingFile => match event {
                        Event::FileCreated => {
                            self.file_created = true;
                            self.status = TaskStatus::Downloading(Stage::Streaming);
                            Action::Transfer
                        },
                        Event::FileCreateFailed { cause } => self.fail(
                            Failure::CannotCreateFile { cause },
                        ),
                        _ => self.unanswered(),
                    },
                    Stage::Streaming => match event {
                        Event::ChunkWritten { len } => match self.bytes_written.checked_add(len) {
                            None => self.fail(Failure::Oversized),
                            Some(total) => {
                                self.bytes_written = total;
                                Action::Transfer
                            },
                        },
                        Event::WriteFailed { cause } => self.fail(Failure::WriteError { cause }),
                        Event::StreamFailed { cause } => self.fail(Failure::StreamError { cause }),
                        Event::StreamEnded => match self.expected_size {
                            Some(n) if n != self.bytes_written => {
                                let written = self.bytes_written;
                                self.fail(Failure::SizeMismatch { expected: n, written })
                            },
                            _ => {
                                self.status = TaskStatus::Downloading(Stage::Syncing);
                                Action::Sync
                            },
                        },
                        _ => self.unanswered(),
                    },
                    Stage::Syncing => match event {
                        Event::Synced => {
                            self.status = TaskStatus::Succeeded;
                            Action::Finish
                        },
                        Event::SyncFailed { cause } => self.fail(Failure::SyncError { cause }),
                        _ => self.unanswered(),
                    },
                }
            },
            _ => self.unanswered(),
        }
    }

    /// The progress the task shows.
    pub fn progress(&self) -> (r: Progress)
        ensures
            r == progress_of(self@),
    {
        match &self.status {
            TaskStatus::Pending => Progress::Steps { done: 0, total: 3 },
            TaskStatus::Resolving => Progress::Steps { done: 1, total: 3 },
            TaskStatus::Downloading(stage) => {
                let stage = *stage;
                if stage == Stage::Requested || stage == Stage::CreatingFile {
                    Progress::Steps { done: 2, total: 3 }
                } else {
                    match self.expected_size {
                        Some(n) if n > 0 => Progress::Bytes { written: self.bytes_written, total: n },
                        _ => Progress::Indeterminate { written: self.bytes_written },
                    }
                }
            },
            TaskStatus::Succeeded => Progress::Done,
            TaskStatus::Failed(_) => Progress::Abandoned,
        }
    }

    /// The line that names the task in the batch report, if it failed.
    pub fn failure_line(&self) -> (r: Option<String>)
        ensures
            match self.status {
                TaskStatus::Failed(f) => r is Some && r->0@ == failure_line(self.id@, f),
                _ => r is None,
            },
    {
        match &self.status {
            TaskStatus::Failed(f) => {
                let mut out = self.id.clone();
                out.append(" - ");
                f.push_reason(&mut out);
                Some(out)
            },
            _ => None,
        }
    }

    /// The closing message of a terminal task: where the archive went, or
    /// why it failed; for a task still running, its identifier.
    pub fn summary(&self) -> (r: String)
        ensures
            self.status is Succeeded ==> r@ == self.id@ + " downloaded to "@ + self.dl_dest@,
            self.status is Failed ==> r@ == failure_line(self.id@, self.status->Failed_0),
            !is_terminal(self.status) ==> r@ == self.id@,
    {
        match &self.status {
            TaskStatus::Succeeded => {
                let mut out = self.id.clone();
                out.append(" downloaded to ");
                out.append(self.dl_dest.as_str());
                out
            },
            TaskStatus::Failed(f) => {
                let mut out = self.id.clone();
                out.append(" - ");
                f.push_reason(&mut out);
                out
            },
            _ => self.id.clone(),
        }
    }
}

} // verus!
