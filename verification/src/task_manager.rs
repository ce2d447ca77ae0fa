//! The task registry: tasks with a life cycle, cooperative cancellation,
//! filtered queries and cleanup after a retention period.

use crate::error::{IpcError, Result};
use crate::event_stream::event_types;
use crate::event_stream::{
    id_after, log_event_type, BusModel, Event, EventBus, EventBusConfig, EventIds,
    SlowConsumerPolicy,
};
use crate::json::{
    empty_object, json_clone, json_members, json_string, member_text, member_unsigned,
    object_with,
};
use crate::text::{
    concat, decimal, decimal_string, pair_texts, str_eq, text_of, text_of_ref, text_of_str,
};
use std::sync::atomic::AtomicBool;
use std::sync::atomic::Ordering;
use std::sync::Arc;
use vstd::prelude::*;

verus! {

/// Task status.
#[derive(Debug, Clone, Copy, PartialEq, Eq, Structural)]
pub enum TaskStatus {
    /// Task is pending (not yet started).
    Pending,
    /// Task is currently running.
    Running,
    /// Task is paused.
    Paused,
    /// Task completed successfully.
    Completed,
    /// Task failed with an error.
    Failed,
    /// Task was cancelled.
    Cancelled,
}

impl TaskStatus {
    /// Whether the status is one of the three that end a task.
    pub open spec fn terminal(self) -> bool {
        self == TaskStatus::Completed || self == TaskStatus::Failed || self
            == TaskStatus::Cancelled
    }

    /// Check if the task is in a terminal state.
    pub fn is_terminal(&self) -> (b: bool)
        ensures
            b == self.terminal(),
    {
        match self {
            TaskStatus::Completed | TaskStatus::Failed | TaskStatus::Cancelled => true,
            _ => false,
        }
    }

    /// Check if the task is active (pending, running or paused).
    pub fn is_active(&self) -> (b: bool)
        ensures
            b == !self.terminal(),
    {
        match self {
            TaskStatus::Pending | TaskStatus::Running | TaskStatus::Paused => true,
            _ => false,
        }
    }

    /// The number that stands for the status.
    pub open spec fn code(self) -> u8 {
        match self {
            TaskStatus::Pending => 0,
            TaskStatus::Running => 1,
            TaskStatus::Paused => 2,
            TaskStatus::Completed => 3,
            TaskStatus::Failed => 4,
            TaskStatus::Cancelled => 5,
        }
    }

    /// The number that stands for the status.
    pub fn to_u8(self) -> (n: u8)
        ensures
            n == self.code(),
    {
        match self {
            TaskStatus::Pending => 0,
            TaskStatus::Running => 1,
            TaskStatus::Paused => 2,
            TaskStatus::Completed => 3,
            TaskStatus::Failed => 4,
            TaskStatus::Cancelled => 5,
        }
    }

    /// The status that a number stands for; a number above five counts as
    /// `Pending`.
    pub fn from_u8(value: u8) -> (s: Self)
        ensures
            value <= 5 ==> s.code() == value,
            value > 5 ==> s == TaskStatus::Pending,
    {
        match value {
            0 => TaskStatus::Pending,
            1 => TaskStatus::Running,
            2 => TaskStatus::Paused,
            3 => TaskStatus::Completed,
            4 => TaskStatus::Failed,
            5 => TaskStatus::Cancelled,
            _ => TaskStatus::Pending,
        }
    }

    /// The name of the status.
    pub open spec fn name(self) -> Seq<char> {
        match self {
            TaskStatus::Pending => "Pending"@,
            TaskStatus::Running => "Running"@,
            TaskStatus::Paused => "Paused"@,
            TaskStatus::Completed => "Completed"@,
            TaskStatus::Failed => "Failed"@,
            TaskStatus::Cancelled => "Cancelled"@,
        }
    }

    /// The name of the status.
    pub fn as_str(&self) -> (s: &'static str)
        ensures
            s@ == self.name(),
    {
        match self {
            TaskStatus::Pending => "Pending",
            TaskStatus::Running => "Running",
            TaskStatus::Paused => "Paused",
            TaskStatus::Completed => "Completed",
            TaskStatus::Failed => "Failed",
            TaskStatus::Cancelled => "Cancelled",
        }
    }
}

/// A latch that tells a task to stop. Once set it stays set, and every copy
/// made with `clone` or `child` reads the same latch, on any thread.
///
/// The latch is an atomic cell that the holders share, so a contract cannot
/// speak of its value: another holder may set it between any two calls.
#[derive(Debug, Clone)]
pub struct CancellationToken {
    cancelled: Arc<AtomicBool>,
}

impl CancellationToken {
    /// A token whose latch is not set.
    pub fn new() -> (token: Self) {
        CancellationToken { cancelled: Arc::new(AtomicBool::new(false)) }
    }

    /// Sets the latch.
    pub fn cancel(&self) {
        self.cancelled.store(true, Ordering::SeqCst);
    }

    /// Whether the latch is set.
    pub fn is_cancelled(&self) -> (b: bool) {
        self.cancelled.load(Ordering::SeqCst)
    }

    /// A token that reads the same latch.
    pub fn child(&self) -> (token: Self)
        ensures
            token == *self,
    {
        CancellationToken { cancelled: self.cancelled.clone() }
    }
}

impl Default for CancellationToken {
    fn default() -> (token: Self) {
        CancellationToken::new()
    }
}

/// The keys and values of a list of metadata.
pub open spec fn metadata_texts(metadata: Seq<(String, serde_json::Value)>) -> Seq<
    (Seq<char>, serde_json::Value),
> {
    metadata.map_values(|pair: (String, serde_json::Value)| (pair.0@, pair.1))
}

/// The value that `labels` give to `key`: that of the last entry with the
/// key, so that a later entry replaces an earlier one.
pub open spec fn label_value(labels: Seq<(Seq<char>, Seq<char>)>, key: Seq<char>) -> Option<
    Seq<char>,
>
    decreases labels.len(),
{
    if labels.len() == 0 {
        None
    } else if labels.last().0 == key {
        Some(labels.last().1)
    } else {
        label_value(labels.drop_last(), key)
    }
}

/// The mathematical model of a task's record.
pub struct TaskView {
    pub id: Seq<char>,
    pub name: Seq<char>,
    pub task_type: Seq<char>,
    pub status: TaskStatus,
    pub progress: u8,
    pub progress_message: Option<Seq<char>>,
    pub created_at: u64,
    pub started_at: Option<u64>,
    pub finished_at: Option<u64>,
    pub metadata: Seq<(Seq<char>, serde_json::Value)>,
    pub labels: Seq<(Seq<char>, Seq<char>)>,
    pub error: Option<Seq<char>>,
    pub result: Option<serde_json::Value>,
}

/// Task information. Times are in milliseconds since the Unix epoch.
#[derive(Debug)]
pub struct TaskInfo {
    /// Unique task ID.
    pub id: String,
    /// Human-readable task name.
    pub name: String,
    /// Task type (e.g., "upload", "download", "process").
    pub task_type: String,
    /// Current status.
    pub status: TaskStatus,
    /// Progress (0-100).
    pub progress: u8,
    /// Progress message.
    pub progress_message: Option<String>,
    /// When the task was created.
    pub created_at: u64,
    /// When the task started running.
    pub started_at: Option<u64>,
    /// When the task finished.
    pub finished_at: Option<u64>,
    /// Custom metadata; a later entry replaces an earlier one with its key.
    pub metadata: Vec<(String, serde_json::Value)>,
    /// Labels for filtering; a later entry replaces an earlier one with its key.
    pub labels: Vec<(String, String)>,
    /// Error message (if failed).
    pub error: Option<String>,
    /// Result data (if completed).
    pub result: Option<serde_json::Value>,
}

impl View for TaskInfo {
    type V = TaskView;

    open spec fn view(&self) -> TaskView {
        TaskView {
            id: self.id@,
            name: self.name@,
            task_type: self.task_type@,
            status: self.status,
            progress: self.progress,
            progress_message: text_of(self.progress_message),
            created_at: self.created_at,
            started_at: self.started_at,
            finished_at: self.finished_at,
            metadata: metadata_texts(self.metadata@),
            labels: pair_texts(self.labels@),
            error: text_of(self.error),
            result: self.result,
        }
    }
}

/// A copy of an optional string.
fn clone_text(s: &Option<String>) -> (r: Option<String>)
    ensures
        r == *s,
{
    match s {
        Some(s) => Some(s.clone()),
        None => None,
    }
}

/// A copy of a list of labels.
fn clone_labels(labels: &Vec<(String, String)>) -> (r: Vec<(String, String)>)
    ensures
        r@ == labels@,
{
    let mut r: Vec<(String, String)> = Vec::new();
    let mut i: usize = 0;
    while i < labels.len()
        invariant
            i <= labels@.len(),
            r@ == labels@.take(i as int),
        decreases labels@.len() - i,
    {
        r.push((labels[i].0.clone(), labels[i].1.clone()));
        assert(labels@.take(i as int).push(labels@[i as int]) =~= labels@.take(i + 1));
        i += 1;
    }
    assert(labels@.take(i as int) =~= labels@);
    r
}

/// A copy of a list of metadata.
fn clone_metadata(metadata: &Vec<(String, serde_json::Value)>) -> (r: Vec<
    (String, serde_json::Value),
>)
    ensures
        r@ == metadata@,
{
    let mut r: Vec<(String, serde_json::Value)> = Vec::new();
    let mut i: usize = 0;
    while i < metadata.len()
        invariant
            i <= metadata@.len(),
            r@ == metadata@.take(i as int),
        decreases metadata@.len() - i,
    {
        r.push((metadata[i].0.clone(), json_clone(&metadata[i].1)));
        assert(metadata@.take(i as int).push(metadata@[i as int]) =~= metadata@.take(i + 1));
        i += 1;
    }
    assert(metadata@.take(i as int) =~= metadata@);
    r
}

impl Clone for TaskInfo {
    fn clone(&self) -> (r: Self)
        ensures
            r@ == self@,
    {
        let result = match &self.result {
            Some(value) => Some(json_clone(value)),
            None => None,
        };
        TaskInfo {
            id: self.id.clone(),
            name: self.name.clone(),
            task_type: self.task_type.clone(),
            status: self.status,
            progress: self.progress,
            progress_message: clone_text(&self.progress_message),
            created_at: self.created_at,
            started_at: self.started_at,
            finished_at: self.finished_at,
            metadata: clone_metadata(&self.metadata),
            labels: clone_labels(&self.labels),
            error: clone_text(&self.error),
            result,
        }
    }
}

/// The value that `labels` give to `key`.
fn find_label<'a>(labels: &'a Vec<(String, String)>, key: &str) -> (r: Option<&'a String>)
    ensures
        text_of_ref(r) == label_value(pair_texts(labels@), key@),
{
    let mut i: usize = labels.len();
    assert(labels@.take(i as int) =~= labels@);
    while i > 0
        invariant
            i <= labels@.len(),
            label_value(pair_texts(labels@), key@) == label_value(
                pair_texts(labels@.take(i as int)),
                key@,
            ),
        decreases i,
    {
        let ghost shorter = pair_texts(labels@.take(i as int));
        assert(shorter.drop_last() =~= pair_texts(labels@.take(i - 1)));
        assert(shorter.last() == (labels@[i - 1].0@, labels@[i - 1].1@));
        i -= 1;
        if str_eq(labels[i].0.as_str(), key) {
            return Some(&labels[i].1);
        }
    }
    assert(pair_texts(labels@.take(0)) =~= Seq::empty());
    None
}

/// Builder for creating tasks.
#[derive(Debug)]
pub struct TaskBuilder {
    name: String,
    task_type: String,
    metadata: Vec<(String, serde_json::Value)>,
    labels: Vec<(String, String)>,
}

impl TaskBuilder {
    /// The name of the task to build.
    pub closed spec fn task_name(&self) -> Seq<char> {
        self.name@
    }

    /// The type of the task to build.
    pub closed spec fn kind(&self) -> Seq<char> {
        self.task_type@
    }

    /// The metadata of the task to build.
    pub closed spec fn metadata_entries(&self) -> Seq<(Seq<char>, serde_json::Value)> {
        metadata_texts(self.metadata@)
    }

    /// The labels of the task to build.
    pub closed spec fn label_entries(&self) -> Seq<(Seq<char>, Seq<char>)> {
        pair_texts(self.labels@)
    }

    /// A builder for a task with the given name and type.
    pub fn new(name: &str, task_type: &str) -> (b: Self)
        ensures
            b.task_name() == name@,
            b.kind() == task_type@,
            b.metadata_entries() == Seq::<(Seq<char>, serde_json::Value)>::empty(),
            b.label_entries() == Seq::<(Seq<char>, Seq<char>)>::empty(),
    {
        let b = TaskBuilder {
            name: String::from_str(name),
            task_type: String::from_str(task_type),
            metadata: Vec::new(),
            labels: Vec::new(),
        };
        assert(b.metadata_entries() =~= Seq::empty());
        assert(b.label_entries() =~= Seq::empty());
        b
    }

    /// Adds metadata to the task.
    pub fn metadata(self, key: &str, value: serde_json::Value) -> (b: Self)
        ensures
            b.task_name() == self.task_name(),
            b.kind() == self.kind(),
            b.metadata_entries() == self.metadata_entries().push((key@, value)),
            b.label_entries() == self.label_entries(),
    {
        let mut b = self;
        b.metadata.push((String::from_str(key), value));
        assert(b.metadata_entries() =~= self.metadata_entries().push((key@, value)));
        b
    }

    /// Adds a label to the task.
    pub fn label(self, key: &str, value: &str) -> (b: Self)
        ensures
            b.task_name() == self.task_name(),
            b.kind() == self.kind(),
            b.metadata_entries() == self.metadata_entries(),
            b.label_entries() == self.label_entries().push((key@, value@)),
    {
        let mut b = self;
        b.labels.push((String::from_str(key), String::from_str(value)));
        assert(b.label_entries() =~= self.label_entries().push((key@, value@)));
        b
    }
}

/// Filter for listing tasks.
#[derive(Debug)]
pub struct TaskFilter {
    /// Filter by status.
    pub status: Option<Vec<TaskStatus>>,
    /// Filter by task type.
    pub task_type: Option<String>,
    /// Filter by labels; a later entry replaces an earlier one with its key.
    pub labels: Vec<(String, String)>,
    /// Include only active tasks.
    pub active_only: bool,
}

impl TaskFilter {
    /// Whether the filter lets a task pass: the task is active where only
    /// active tasks are asked for, its status is among those named where any
    /// is, its type is the one named where one is, and each label of the
    /// filter is a label of the task with the same value.
    pub open spec fn accepts(self, task: TaskView) -> bool {
        &&& self.active_only ==> !task.status.terminal()
        &&& self.status matches Some(list) ==> list@.contains(task.status)
        &&& self.task_type matches Some(kind) ==> task.task_type == kind@
        &&& forall|key: Seq<char>|
            label_value(pair_texts(self.labels@), key) is Some ==> label_value(task.labels, key)
                == #[trigger] label_value(pair_texts(self.labels@), key)
    }

    /// A filter that lets every task pass.
    pub fn new() -> (f: Self)
        ensures
            f.status is None,
            f.task_type is None,
            f.labels@.len() == 0,
            !f.active_only,
            forall|task: TaskView| f.accepts(task),
    {
        let f = TaskFilter { status: None, task_type: None, labels: Vec::new(),
            active_only: false };
        assert(pair_texts(f.labels@) =~= Seq::empty());
        f
    }

    /// Adds a status to those that the filter lets pass.
    pub fn status(self, status: TaskStatus) -> (f: Self)
        ensures
            f.status is Some,
            f.status->Some_0@ == match self.status {
                Some(list) => list@.push(status),
                None => seq![status],
            },
            f.task_type == self.task_type,
            f.labels == self.labels,
            f.active_only == self.active_only,
    {
        let mut list = match self.status {
            Some(list) => list,
            None => Vec::new(),
        };
        list.push(status);
        assert(Seq::<TaskStatus>::empty().push(status) =~= seq![status]);
        TaskFilter {
            status: Some(list),
            task_type: self.task_type,
            labels: self.labels,
            active_only: self.active_only,
        }
    }

    /// Lets only tasks of the given type pass.
    pub fn task_type(self, t: &str) -> (f: Self)
        ensures
            f.task_type is Some,
            f.task_type->Some_0@ == t@,
            f.status == self.status,
            f.labels == self.labels,
            f.active_only == self.active_only,
    {
        TaskFilter {
            status: self.status,
            task_type: Some(String::from_str(t)),
            labels: self.labels,
            active_only: self.active_only,
        }
    }

    /// Lets only tasks with the given label pass.
    pub fn label(self, key: &str, value: &str) -> (f: Self)
        ensures
            pair_texts(f.labels@) == pair_texts(self.labels@).push((key@, value@)),
            f.status == self.status,
            f.task_type == self.task_type,
            f.active_only == self.active_only,
    {
        let mut labels = self.labels;
        labels.push((String::from_str(key), String::from_str(value)));
        assert(pair_texts(labels@) =~= pair_texts(self.labels@).push((key@, value@)));
        TaskFilter {
            status: self.status,
            task_type: self.task_type,
            labels,
            active_only: self.active_only,
        }
    }

    /// Lets only active tasks pass.
    pub fn active(self) -> (f: Self)
        ensures
            f.active_only,
            f.status == self.status,
            f.task_type == self.task_type,
            f.labels == self.labels,
    {
        TaskFilter {
            status: self.status,
            task_type: self.task_type,
            labels: self.labels,
            active_only: true,
        }
    }

    /// Check if a task matches this filter.
    pub fn matches(&self, info: &TaskInfo) -> (b: bool)
        ensures
            b == self.accepts(info@),
    {
        if self.active_only && !info.status.is_active() {
            return false;
        }
        match &self.status {
            Some(list) => {
                if !contains_status(list, info.status) {
                    return false;
                }
            },
            None => {},
        }
        match &self.task_type {
            Some(kind) => {
                if !str_eq(info.task_type.as_str(), kind.as_str()) {
                    return false;
                }
            },
            None => {},
        }
        let ghost wanted = pair_texts(self.labels@);
        let mut i: usize = 0;
        while i < self.labels.len()
            invariant
                i <= self.labels@.len(),
                wanted == pair_texts(self.labels@),
                forall|j: int|
                    0 <= j < i ==> label_value(info@.labels, wanted[j].0) == label_value(
                        wanted,
                        #[trigger] wanted[j].0,
                    ),
            decreases self.labels@.len() - i,
        {
            let key = self.labels[i].0.as_str();
            assert(key@ == wanted[i as int].0);
            proof {
                lemma_label_of_entry(wanted, i as int);
            }
            let expected = find_label(&self.labels, key);
            let actual = find_label(&info.labels, key);
            let same = match (expected, actual) {
                (Some(e), Some(a)) => str_eq(e.as_str(), a.as_str()),
                _ => false,
            };
            if !same {
                return false;
            }
            i += 1;
        }
        proof {
            assert forall|key: Seq<char>| label_value(wanted, key) is Some implies label_value(
                info@.labels,
                key,
            ) == #[trigger] label_value(wanted, key) by {
                let j = lemma_entry_of_label(wanted, key);
                assert(wanted[j].0 == key);
            }
        }
        true
    }
}

impl Default for TaskFilter {
    fn default() -> (f: Self)
        ensures
            forall|task: TaskView| f.accepts(task),
    {
        TaskFilter::new()
    }
}

/// The key of every entry has a value.
proof fn lemma_label_of_entry(labels: Seq<(Seq<char>, Seq<char>)>, i: int)
    requires
        0 <= i < labels.len(),
    ensures
        label_value(labels, labels[i].0) is Some,
    decreases labels.len(),
{
    if labels.last().0 != labels[i].0 {
        lemma_label_of_entry(labels.drop_last(), i);
    }
}

/// A key with a value is the key of an entry.
proof fn lemma_entry_of_label(labels: Seq<(Seq<char>, Seq<char>)>, key: Seq<char>) -> (i: int)
    requires
        label_value(labels, key) is Some,
    ensures
        0 <= i < labels.len(),
        labels[i].0 == key,
    decreases labels.len(),
{
    if labels.last().0 == key {
        labels.len() - 1
    } else {
        lemma_entry_of_label(labels.drop_last(), key)
    }
}

/// Whether `list` holds `status`.
fn contains_status(list: &Vec<TaskStatus>, status: TaskStatus) -> (b: bool)
    ensures
        b == list@.contains(status),
{
    let mut i: usize = 0;
    while i < list.len()
        invariant
            i <= list@.len(),
            forall|j: int| 0 <= j < i ==> list@[j] != status,
        decreases list@.len() - i,
    {
        if list[i] == status {
            return true;
        }
        i += 1;
    }
    false
}

/// Task manager configuration.
#[derive(Debug, Clone, Copy)]
pub struct TaskManagerConfig {
    /// How long a finished task is kept, in milliseconds.
    pub retention_period: u64,
    /// Maximum concurrent tasks.
    pub max_concurrent: usize,
    /// Event bus configuration.
    pub event_bus_config: EventBusConfig,
}

impl Default for TaskManagerConfig {
    fn default() -> (c: Self)
        ensures
            c.retention_period == 3600000,
            c.max_concurrent == 100,
            c.event_bus_config.history_size == 1000,
            c.event_bus_config.subscriber_buffer == 256,
            c.event_bus_config.slow_consumer == SlowConsumerPolicy::DropOldest,
    {
        TaskManagerConfig {
            retention_period: 3600000,
            max_concurrent: 100,
            event_bus_config: EventBusConfig::default(),
        }
    }
}

/// A change that a caller asks of a task.
pub enum TaskChange {
    /// Begin to run.
    Start,
    /// Stop for a while.
    Pause,
    /// Run again after a pause.
    Resume,
    /// Give up.
    Cancel,
    /// End with a result.
    Complete(serde_json::Value),
    /// End with an error.
    Fail(Seq<char>),
    /// Report progress, with or without a message.
    Progress(u8, Option<Seq<char>>),
}

/// The progress that a report of `progress` records: at most 100.
pub open spec fn clamp_progress(progress: u8) -> u8 {
    if progress > 100 {
        100
    } else {
        progress
    }
}

impl TaskChange {
    /// Whether the change is legal for a task of the given status. A task
    /// starts from `Pending`, pauses from `Running`, resumes from `Paused`,
    /// completes or fails from `Running` or `Paused`, and is cancelled from
    /// any status that is not terminal. Progress may be reported at any time.
    pub open spec fn allowed(self, status: TaskStatus) -> bool {
        match self {
            TaskChange::Start => status == TaskStatus::Pending,
            TaskChange::Pause => status == TaskStatus::Running,
            TaskChange::Resume => status == TaskStatus::Paused,
            TaskChange::Cancel => !status.terminal(),
            TaskChange::Complete(_) => status == TaskStatus::Running || status
                == TaskStatus::Paused,
            TaskChange::Fail(_) => status == TaskStatus::Running || status == TaskStatus::Paused,
            TaskChange::Progress(_, _) => true,
        }
    }

    /// The verb of the change.
    pub open spec fn verb(self) -> Seq<char> {
        match self {
            TaskChange::Start => "start"@,
            TaskChange::Pause => "pause"@,
            TaskChange::Resume => "resume"@,
            TaskChange::Cancel => "cancel"@,
            TaskChange::Complete(_) => "complete"@,
            TaskChange::Fail(_) => "fail"@,
            TaskChange::Progress(_, _) => "update"@,
        }
    }

    /// The words with which the change is refused for a task of the given
    /// status.
    pub open spec fn refusal(self, status: TaskStatus) -> Seq<char> {
        "Cannot "@ + self.verb() + " task in "@ + status.name() + " state"@
    }

    /// The type of the event that announces the change.
    pub open spec fn event_type(self) -> Seq<char> {
        match self {
            TaskChange::Start => event_types::TASK_STARTED@,
            TaskChange::Pause => event_types::TASK_PAUSED@,
            TaskChange::Resume => event_types::TASK_RESUMED@,
            TaskChange::Cancel => event_types::TASK_CANCELLED@,
            TaskChange::Complete(_) => event_types::TASK_COMPLETED@,
            TaskChange::Fail(_) => event_types::TASK_FAILED@,
            TaskChange::Progress(_, _) => event_types::TASK_PROGRESS@,
        }
    }

    /// Whether `data` is what the event of the change carries.
    pub open spec fn describes(self, data: serde_json::Value) -> bool {
        match self {
            TaskChange::Complete(result) => json_members(data) =~= Map::empty().insert(
                "result"@,
                result,
            ),
            TaskChange::Fail(error) => member_text(data, "error"@) == Some(error),
            TaskChange::Progress(progress, message) => {
                &&& member_unsigned(data, "current"@) == Some(progress as u64)
                &&& member_unsigned(data, "total"@) == Some(100u64)
                &&& member_unsigned(data, "percentage"@) == Some(progress as u64)
                &&& member_text(data, "message"@) == Some(
                    match message {
                        Some(text) => text,
                        None => Seq::empty(),
                    },
                )
            },
            _ => json_members(data) =~= Map::empty(),
        }
    }

    /// Whether `event` announces the change of task `task_id` at time `now`
    /// under the identifier `event_id`.
    pub open spec fn announces(self, event: Event, event_id: u64, now: u64,
        task_id: Seq<char>) -> bool {
        &&& event.id == event_id
        &&& event.timestamp == now
        &&& event.event_type@ == self.event_type()
        &&& event.resource_id is Some
        &&& event.resource_id->Some_0@ == task_id
        &&& self.describes(event.data)
    }

    /// The record of a task after the change, made at time `now`.
    pub open spec fn apply(self, task: TaskView, now: u64) -> TaskView {
        match self {
            TaskChange::Start => TaskView {
                status: TaskStatus::Running,
                started_at: Some(now),
                ..task
            },
            TaskChange::Pause => TaskView { status: TaskStatus::Paused, ..task },
            TaskChange::Resume => TaskView { status: TaskStatus::Running, ..task },
            TaskChange::Cancel => TaskView {
                status: TaskStatus::Cancelled,
                finished_at: Some(now),
                ..task
            },
            TaskChange::Complete(result) => TaskView {
                status: TaskStatus::Completed,
                progress: 100,
                progress_message: Some("Completed"@),
                finished_at: Some(now),
                result: Some(result),
                ..task
            },
            TaskChange::Fail(error) => TaskView {
                status: TaskStatus::Failed,
                finished_at: Some(now),
                error: Some(error),
                ..task
            },
            TaskChange::Progress(progress, message) => TaskView {
                progress: clamp_progress(progress),
                progress_message: match message {
                    Some(text) => Some(text),
                    None => task.progress_message,
                },
                ..task
            },
        }
    }
}

/// A task as the manager holds it.
pub struct TaskRecord {
    /// The record of the task.
    pub info: TaskView,
    /// Whether the manager has asked the task to stop.
    pub cancelled: bool,
    /// The latch that the workers of the task watch.
    pub latch: CancellationToken,
}

impl TaskRecord {
    /// The invariant of a task: one that has ended has the time of its end,
    /// its progress is at most 100, and the manager has asked it to stop
    /// exactly where it was cancelled.
    pub open spec fn well_formed(self) -> bool {
        &&& self.info.status.terminal() ==> self.info.finished_at is Some
        &&& self.info.progress <= 100
        &&& self.cancelled <==> self.info.status == TaskStatus::Cancelled
    }

    /// The task after a change that is legal for it.
    pub open spec fn after(self, change: TaskChange, now: u64) -> TaskRecord {
        TaskRecord {
            info: change.apply(self.info, now),
            cancelled: self.cancelled || change is Cancel,
            latch: self.latch,
        }
    }

    /// Whether a cleanup at time `now` drops the task: it has ended, and the
    /// retention period has passed since.
    pub open spec fn expired(self, now: u64, retention: u64) -> bool {
        &&& self.info.status.terminal()
        &&& self.info.finished_at matches Some(end)
        &&& now >= end
        &&& now - end >= retention
    }
}

/// The index of the first task of `tasks` with the given ID, or the length
/// of `tasks` where none has it.
pub open spec fn first_with_id(tasks: Seq<TaskRecord>, id: Seq<char>) -> int
    decreases tasks.len(),
{
    if tasks.len() == 0 {
        0
    } else if tasks[0].info.id == id {
        0
    } else {
        1 + first_with_id(tasks.drop_first(), id)
    }
}

/// The ID of the task with the given number.
pub open spec fn task_id(number: u64) -> Seq<char> {
    "task-"@ + decimal(number as nat)
}

/// The mathematical model of a task manager.
pub struct ManagerModel {
    /// The tasks, in the order of their creation.
    pub tasks: Seq<TaskRecord>,
    /// The event bus of the manager.
    pub bus: BusModel,
    /// The number of the next task.
    pub next_number: u64,
    /// The identifier of the next event.
    pub next_event: u64,
    /// The configuration.
    pub config: TaskManagerConfig,
}

impl ManagerModel {
    /// The place of the task with the given ID.
    pub open spec fn position(self, id: Seq<char>) -> Option<int> {
        if first_with_id(self.tasks, id) < self.tasks.len() {
            Some(first_with_id(self.tasks, id))
        } else {
            None
        }
    }

    /// The manager after task `index` has changed and `event` has announced
    /// it.
    pub open spec fn changed(self, index: int, change: TaskChange, now: u64,
        event: Event) -> ManagerModel {
        ManagerModel {
            tasks: self.tasks.update(index, self.tasks[index].after(change, now)),
            bus: self.bus.publish(event),
            next_number: self.next_number,
            next_event: id_after(self.next_event),
            config: self.config,
        }
    }

    /// Whether the result `r` and the state `after` are what the manager owes
    /// for the request to change task `id` at time `now`: `NotFound` where no
    /// task has the ID; `InvalidState` where the change is not legal for the
    /// task; in both cases nothing has changed. Otherwise success, with the
    /// task changed and the event published.
    pub open spec fn owes(
        self,
        id: Seq<char>,
        change: TaskChange,
        now: u64,
        r: Result<()>,
        after: ManagerModel,
    ) -> bool {
        match self.position(id) {
            None => {
                &&& r matches Err(IpcError::NotFound(text))
                &&& text@ == id
                &&& after == self
            },
            Some(index) => if !change.allowed(self.tasks[index].info.status) {
                &&& r matches Err(IpcError::InvalidState(text))
                &&& text@ == change.refusal(self.tasks[index].info.status)
                &&& after == self
            } else {
                exists|event: Event| #[trigger]
                    change.announces(event, self.next_event, now, id) && r is Ok && after
                        == self.changed(index, change, now, event)
            },
        }
    }

    /// Whether every task is well formed.
    pub open spec fn well_formed(self) -> bool {
        forall|i: int| 0 <= i < self.tasks.len() ==> (#[trigger] self.tasks[i]).well_formed()
    }
}

/// What `first_with_id` finds: an index within the tasks, a task with the ID
/// where the index is inside, and none before it.
pub proof fn lemma_first_with_id(tasks: Seq<TaskRecord>, id: Seq<char>)
    ensures
        0 <= first_with_id(tasks, id) <= tasks.len(),
        first_with_id(tasks, id) < tasks.len() ==> tasks[first_with_id(tasks, id)].info.id == id,
        forall|j: int| 0 <= j < first_with_id(tasks, id) ==> (#[trigger] tasks[j]).info.id != id,
    decreases tasks.len(),
{
    if tasks.len() > 0 && tasks[0].info.id != id {
        let tail = tasks.drop_first();
        lemma_first_with_id(tail, id);
        assert forall|j: int| 0 <= j < first_with_id(tasks, id) implies (
        #[trigger] tasks[j]).info.id != id by {
            if j > 0 {
                assert(tasks[j] == tail[j - 1]);
            }
        }
    }
}

/// The first task with an ID is where a scan from the front finds it.
proof fn lemma_first_with_id_is(tasks: Seq<TaskRecord>, id: Seq<char>, k: int)
    requires
        0 <= k <= tasks.len(),
        forall|j: int| 0 <= j < k ==> (#[trigger] tasks[j]).info.id != id,
        k < tasks.len() ==> tasks[k].info.id == id,
    ensures
        first_with_id(tasks, id) == k,
{
    lemma_first_with_id(tasks, id);
    let found = first_with_id(tasks, id);
    if found < k {
        assert(tasks[found].info.id == id);
    }
}

/// A change keeps a task well formed, and a task that has ended takes no
/// change of status: every change but a report of progress is refused, and
/// its progress leaves status and end time as they are.
pub proof fn lemma_terminal_is_final(task: TaskRecord, change: TaskChange, now: u64)
    requires
        task.well_formed(),
    ensures
        change.allowed(task.info.status) ==> task.after(change, now).well_formed(),
        task.info.status.terminal() && !(change is Progress) ==> !change.allowed(
            task.info.status,
        ),
        task.info.status.terminal() && change.allowed(task.info.status) ==> task.after(
            change,
            now,
        ).info.status == task.info.status && task.after(change, now).info.finished_at
            == task.info.finished_at,
{
}

/// Progress is clamped: after a report of `progress` the task's progress is
/// the smaller of `progress` and 100.
pub proof fn lemma_progress_is_clamped(task: TaskRecord, progress: u8, message: Option<Seq<char>>,
    now: u64)
    ensures
        task.after(TaskChange::Progress(progress, message), now).info.progress == if progress
            < 100 {
            progress
        } else {
            100u8
        },
{
}

/// Cancelling is idempotent: a second request to cancel is refused, so that
/// the task stays as the first left it.
pub proof fn lemma_cancel_is_idempotent(task: TaskRecord, first: u64, second: u64)
    requires
        TaskChange::Cancel.allowed(task.info.status),
    ensures
        !TaskChange::Cancel.allowed(task.after(TaskChange::Cancel, first).info.status),
        task.after(TaskChange::Cancel, first).cancelled,
{
}

/// A change that a caller asks of a task, as the manager takes it.
#[derive(Debug)]
pub enum TaskOp {
    /// Begin to run.
    Start,
    /// Stop for a while.
    Pause,
    /// Run again after a pause.
    Resume,
    /// Give up.
    Cancel,
    /// End with a result.
    Complete(serde_json::Value),
    /// End with an error.
    Fail(String),
    /// Report progress, with or without a message.
    Progress(u8, Option<String>),
}

impl View for TaskOp {
    type V = TaskChange;

    open spec fn view(&self) -> TaskChange {
        match self {
            TaskOp::Start => TaskChange::Start,
            TaskOp::Pause => TaskChange::Pause,
            TaskOp::Resume => TaskChange::Resume,
            TaskOp::Cancel => TaskChange::Cancel,
            TaskOp::Complete(result) => TaskChange::Complete(*result),
            TaskOp::Fail(error) => TaskChange::Fail(error@),
            TaskOp::Progress(progress, message) => TaskChange::Progress(
                *progress,
                text_of(*message),
            ),
        }
    }
}

impl TaskOp {
    /// Whether the change is legal for a task of the given status.
    pub fn is_allowed(&self, status: TaskStatus) -> (b: bool)
        ensures
            b == self@.allowed(status),
    {
        match self {
            TaskOp::Start => status == TaskStatus::Pending,
            TaskOp::Pause => status == TaskStatus::Running,
            TaskOp::Resume => status == TaskStatus::Paused,
            TaskOp::Cancel => !status.is_terminal(),
            TaskOp::Complete(_) => status == TaskStatus::Running || status == TaskStatus::Paused,
            TaskOp::Fail(_) => status == TaskStatus::Running || status == TaskStatus::Paused,
            TaskOp::Progress(_, _) => true,
        }
    }

    /// The words with which the change is refused for a task of the given
    /// status.
    pub fn refusal(&self, status: TaskStatus) -> (text: String)
        ensures
            text@ == self@.refusal(status),
    {
        let verb = match self {
            TaskOp::Start => "start",
            TaskOp::Pause => "pause",
            TaskOp::Resume => "resume",
            TaskOp::Cancel => "cancel",
            TaskOp::Complete(_) => "complete",
            TaskOp::Fail(_) => "fail",
            TaskOp::Progress(_, _) => "update",
        };
        let mut text = concat("Cannot ", verb);
        text.append(" task in ");
        text.append(status.as_str());
        text.append(" state");
        text
    }

    /// The event that announces the change of task `id`.
    fn event(&self, ids: &mut EventIds, now: u64, id: &str) -> (event: Event)
        ensures
            self@.announces(event, old(ids).upcoming(), now, id@),
            final(ids).upcoming() == id_after(old(ids).upcoming()),
    {
        match self {
            TaskOp::Start => Event::with_resource(
                ids,
                now,
                event_types::TASK_STARTED,
                id,
                empty_object(),
            ),
            TaskOp::Pause => Event::with_resource(
                ids,
                now,
                event_types::TASK_PAUSED,
                id,
                empty_object(),
            ),
            TaskOp::Resume => Event::with_resource(
                ids,
                now,
                event_types::TASK_RESUMED,
                id,
                empty_object(),
            ),
            TaskOp::Cancel => Event::with_resource(
                ids,
                now,
                event_types::TASK_CANCELLED,
                id,
                empty_object(),
            ),
            TaskOp::Complete(result) => Event::with_resource(
                ids,
                now,
                event_types::TASK_COMPLETED,
                id,
                object_with("result", json_clone(result)),
            ),
            TaskOp::Fail(error) => {
                let data = object_with("error", json_string(error.as_str()));
                Event::with_resource(ids, now, event_types::TASK_FAILED, id, data)
            },
            TaskOp::Progress(progress, message) => {
                let text = match message {
                    Some(text) => text.as_str(),
                    None => "",
                };
                proof {
                    reveal_strlit("");
                    assert(""@ =~= Seq::<char>::empty());
                }
                Event::progress(ids, now, id, *progress as u64, 100, text)
            },
        }
    }
}

/// A task as the manager holds it: its record, the latch that its workers
/// watch, and whether the manager has set that latch.
#[derive(Debug)]
struct TaskEntry {
    info: TaskInfo,
    token: CancellationToken,
    cancel_requested: bool,
}

impl TaskEntry {
    spec fn record(self) -> TaskRecord {
        TaskRecord { info: self.info@, cancelled: self.cancel_requested, latch: self.token }
    }
}

/// Handle to a task: its ID, with which the manager finds the task.
#[derive(Debug)]
pub struct TaskHandle {
    id: String,
}

/// Task manager for managing task lifecycle.
#[derive(Debug)]
pub struct TaskManager {
    tasks: Vec<TaskEntry>,
    event_bus: EventBus,
    ids: EventIds,
    config: TaskManagerConfig,
    next_id: u64,
}

impl View for TaskManager {
    type V = ManagerModel;

    closed spec fn view(&self) -> ManagerModel {
        ManagerModel {
            tasks: self.tasks@.map_values(|entry: TaskEntry| entry.record()),
            bus: self.event_bus@,
            next_number: self.next_id,
            next_event: self.ids.upcoming(),
            config: self.config,
        }
    }
}

impl TaskManager {
    /// A manager without tasks. The first task gets the number 1, the first
    /// event the identifier 1.
    pub fn new(config: TaskManagerConfig) -> (manager: Self)
        ensures
            manager@ == (ManagerModel {
                tasks: Seq::empty(),
                bus: BusModel {
                    config: config.event_bus_config,
                    history: Seq::empty(),
                    subscriptions: Seq::empty(),
                },
                next_number: 1,
                next_event: 1,
                config,
            }),
            manager@.well_formed(),
    {
        let manager = TaskManager {
            tasks: Vec::new(),
            event_bus: EventBus::new(config.event_bus_config),
            ids: EventIds::new(),
            config,
            next_id: 1,
        };
        assert(manager@.tasks =~= Seq::empty());
        manager
    }

    /// The place of the task with the given ID.
    fn find(&self, id: &str) -> (r: Option<usize>)
        ensures
            match r {
                Some(index) => self@.position(id@) == Some(index as int) && index
                    < self.tasks@.len(),
                None => self@.position(id@) is None,
            },
    {
        let mut i: usize = 0;
        while i < self.tasks.len()
            invariant
                i <= self.tasks@.len(),
                forall|j: int| 0 <= j < i ==> (#[trigger] self@.tasks[j]).info.id != id@,
            decreases self.tasks@.len() - i,
        {
            if str_eq(self.tasks[i].info.id.as_str(), id) {
                proof {
                    assert(self@.tasks[i as int].info.id == id@);
                    lemma_first_with_id_is(self@.tasks, id@, i as int);
                }
                return Some(i);
            }
            i += 1;
        }
        proof {
            lemma_first_with_id_is(self@.tasks, id@, i as int);
        }
        None
    }

    /// Changes the task with the given ID and announces the change on the
    /// bus. Nothing changes where the call fails.
    pub fn apply(&mut self, id: &str, now: u64, op: TaskOp) -> (r: Result<()>)
        ensures
            old(self)@.owes(id@, op@, now, r, final(self)@),
            old(self)@.well_formed() ==> final(self)@.well_formed(),
    {
        let index = match self.find(id) {
            Some(index) => index,
            None => {
                return Err(IpcError::NotFound(String::from_str(id)));
            },
        };
        let status = self.tasks[index].info.status;
        if !op.is_allowed(status) {
            return Err(IpcError::InvalidState(op.refusal(status)));
        }
        let mut ids = self.ids;
        let event = op.event(&mut ids, now, id);
        let ghost announced = event;
        // Where a subscriber has no room under the `Block` policy, the event
        // waits for it in the bus; the change is made all the same.
        let _ = self.event_bus.publish(event);
        self.ids = ids;
        let ghost before = self.tasks@[index as int].info@;
        match op {
            TaskOp::Start => {
                self.tasks[index].info.status = TaskStatus::Running;
                self.tasks[index].info.started_at = Some(now);
            },
            TaskOp::Pause => {
                self.tasks[index].info.status = TaskStatus::Paused;
            },
            TaskOp::Resume => {
                self.tasks[index].info.status = TaskStatus::Running;
            },
            TaskOp::Cancel => {
                self.tasks[index].token.cancel();
                self.tasks[index].cancel_requested = true;
                self.tasks[index].info.status = TaskStatus::Cancelled;
                self.tasks[index].info.finished_at = Some(now);
            },
            TaskOp::Complete(result) => {
                self.tasks[index].info.status = TaskStatus::Completed;
                self.tasks[index].info.progress = 100;
                self.tasks[index].info.progress_message = Some(String::from_str("Completed"));
                self.tasks[index].info.finished_at = Some(now);
                self.tasks[index].info.result = Some(result);
            },
            TaskOp::Fail(error) => {
                self.tasks[index].info.status = TaskStatus::Failed;
                self.tasks[index].info.finished_at = Some(now);
                self.tasks[index].info.error = Some(error);
            },
            TaskOp::Progress(progress, message) => {
                self.tasks[index].info.progress = if progress > 100 {
                    100
                } else {
                    progress
                };
                match message {
                    Some(text) => {
                        self.tasks[index].info.progress_message = Some(text);
                    },
                    None => {},
                }
            },
        }
        proof {
            assert(self.tasks@[index as int].info@ == op@.apply(before, now));
            assert(self@.tasks =~= old(self)@.changed(
                index as int,
                op@,
                now,
                announced,
            ).tasks);
            assert(op@.announces(announced, old(self)@.next_event, now, id@));
            if old(self)@.well_formed() {
                lemma_terminal_is_final(old(self)@.tasks[index as int], op@, now);
                assert forall|i: int| 0 <= i < self@.tasks.len() implies (
                #[trigger] self@.tasks[i]).well_formed() by {
                    if i != index {
                        assert(self@.tasks[i] == old(self)@.tasks[i]);
                    }
                }
            }
        }
        Ok(())
    }
}

/// Whether `event` announces, at time `now` and under the identifier
/// `event_id`, that task `task_id` was created.
pub open spec fn announces_creation(event: Event, event_id: u64, now: u64,
    task_id: Seq<char>) -> bool {
    &&& event.id == event_id
    &&& event.timestamp == now
    &&& event.event_type@ == event_types::TASK_CREATED@
    &&& event.resource_id is Some
    &&& event.resource_id->Some_0@ == task_id
    &&& json_members(event.data) =~= Map::empty()
}

/// Whether `event` is a log line of task `task_id`, made at time `now` under
/// the identifier `event_id`.
pub open spec fn announces_log(
    event: Event,
    event_id: u64,
    now: u64,
    task_id: Seq<char>,
    level: Seq<char>,
    message: Seq<char>,
) -> bool {
    &&& event.id == event_id
    &&& event.timestamp == now
    &&& event.event_type@ == log_event_type(level)
    &&& event.resource_id is Some
    &&& event.resource_id->Some_0@ == task_id
    &&& member_text(event.data, "level"@) == Some(level)
    &&& member_text(event.data, "message"@) == Some(message)
}

/// The record of a task that was just created.
pub open spec fn fresh_task(
    number: u64,
    name: Seq<char>,
    kind: Seq<char>,
    metadata: Seq<(Seq<char>, serde_json::Value)>,
    labels: Seq<(Seq<char>, Seq<char>)>,
    now: u64,
    latch: CancellationToken,
) -> TaskRecord {
    TaskRecord {
        info: TaskView {
            id: task_id(number),
            name,
            task_type: kind,
            status: TaskStatus::Pending,
            progress: 0,
            progress_message: None,
            created_at: now,
            started_at: None,
            finished_at: None,
            metadata,
            labels,
            error: None,
            result: None,
        },
        cancelled: false,
        latch,
    }
}

/// The records of `tasks`.
pub open spec fn task_views(tasks: Seq<TaskRecord>) -> Seq<TaskView> {
    tasks.map_values(|task: TaskRecord| task.info)
}

/// The views of a list of task records.
pub open spec fn info_views(infos: Seq<TaskInfo>) -> Seq<TaskView> {
    infos.map_values(|info: TaskInfo| info@)
}

impl TaskHandle {
    /// The ID of the task.
    pub closed spec fn task(&self) -> Seq<char> {
        self.id@
    }

    /// Get the task ID.
    pub fn id(&self) -> (id: &str)
        ensures
            id@ == self.task(),
    {
        self.id.as_str()
    }

    /// A snapshot of the task's record, where `manager` holds the task.
    pub fn info(&self, manager: &TaskManager) -> (r: Option<TaskInfo>)
        ensures
            match manager@.position(self.task()) {
                Some(index) => r is Some && r->Some_0@ == manager@.tasks[index].info,
                None => r is None,
            },
    {
        manager.get(self.id.as_str())
    }

    /// The status of the task, where `manager` holds the task.
    pub fn status(&self, manager: &TaskManager) -> (r: Option<TaskStatus>)
        ensures
            match manager@.position(self.task()) {
                Some(index) => r == Some(manager@.tasks[index].info.status),
                None => r is None,
            },
    {
        match manager.find(self.id.as_str()) {
            Some(index) => Some(manager.tasks[index].info.status),
            None => None,
        }
    }

    /// The progress of the task, where `manager` holds the task.
    pub fn progress(&self, manager: &TaskManager) -> (r: Option<u8>)
        ensures
            match manager@.position(self.task()) {
                Some(index) => r == Some(manager@.tasks[index].info.progress),
                None => r is None,
            },
    {
        match manager.find(self.id.as_str()) {
            Some(index) => Some(manager.tasks[index].info.progress),
            None => None,
        }
    }

    /// Whether the manager has asked the task to stop. A task that the
    /// manager no longer holds counts as stopped.
    pub fn is_cancelled(&self, manager: &TaskManager) -> (b: bool)
        ensures
            b == match manager@.position(self.task()) {
                Some(index) => manager@.tasks[index].cancelled,
                None => true,
            },
    {
        match manager.find(self.id.as_str()) {
            Some(index) => manager.tasks[index].cancel_requested,
            None => true,
        }
    }

    /// A token on the latch of the task, for a worker to watch: the manager
    /// sets the latch when it cancels the task. `None` where `manager` does
    /// not hold the task.
    pub fn cancel_token(&self, manager: &TaskManager) -> (r: Option<CancellationToken>)
        ensures
            r == match manager@.position(self.task()) {
                Some(index) => Some(manager@.tasks[index].latch),
                None => None,
            },
    {
        match manager.find(self.id.as_str()) {
            Some(index) => Some(manager.tasks[index].token.child()),
            None => None,
        }
    }

    /// Reports progress: the task's progress becomes `progress`, at most
    /// 100, and its message becomes `message` where one is given.
    pub fn set_progress(&self, manager: &mut TaskManager, now: u64, progress: u8, message: Option<
        &str,
    >) -> (r: Result<()>)
        ensures
            old(manager)@.owes(
                self.task(),
                TaskChange::Progress(progress, text_of_str(message)),
                now,
                r,
                final(manager)@,
            ),
    {
        let message = match message {
            Some(text) => Some(String::from_str(text)),
            None => None,
        };
        manager.apply(self.id.as_str(), now, TaskOp::Progress(progress, message))
    }

    /// Marks the task as started.
    pub fn start(&self, manager: &mut TaskManager, now: u64) -> (r: Result<()>)
        ensures
            old(manager)@.owes(self.task(), TaskChange::Start, now, r, final(manager)@),
    {
        manager.apply(self.id.as_str(), now, TaskOp::Start)
    }

    /// Marks the task as completed, with a result.
    pub fn complete(&self, manager: &mut TaskManager, now: u64, result: serde_json::Value) -> (r:
        Result<()>)
        ensures
            old(manager)@.owes(
                self.task(),
                TaskChange::Complete(result),
                now,
                r,
                final(manager)@,
            ),
    {
        manager.apply(self.id.as_str(), now, TaskOp::Complete(result))
    }

    /// Marks the task as failed, with an error.
    pub fn fail(&self, manager: &mut TaskManager, now: u64, error: &str) -> (r: Result<()>)
        ensures
            old(manager)@.owes(self.task(), TaskChange::Fail(error@), now, r, final(manager)@),
    {
        manager.apply(self.id.as_str(), now, TaskOp::Fail(String::from_str(error)))
    }

    /// Publishes a log line of the task.
    pub fn log(&self, manager: &mut TaskManager, now: u64, level: &str, message: &str)
        ensures
            old(manager)@.owes_log(self.task(), level@, message@, now, final(manager)@),
    {
        manager.log(self.id.as_str(), now, level, message)
    }

    /// Publishes a line of the task's standard output.
    pub fn stdout(&self, manager: &mut TaskManager, now: u64, line: &str)
        ensures
            old(manager)@.owes_log(self.task(), "stdout"@, line@, now, final(manager)@),
    {
        manager.log(self.id.as_str(), now, "stdout", line)
    }

    /// Publishes a line of the task's standard error.
    pub fn stderr(&self, manager: &mut TaskManager, now: u64, line: &str)
        ensures
            old(manager)@.owes_log(self.task(), "stderr"@, line@, now, final(manager)@),
    {
        manager.log(self.id.as_str(), now, "stderr", line)
    }
}

impl ManagerModel {
    /// The manager after a task was created and `event` has announced it.
    pub open spec fn created(self, task: TaskRecord, event: Event) -> ManagerModel {
        ManagerModel {
            tasks: self.tasks.push(task),
            bus: self.bus.publish(event),
            next_number: id_after(self.next_number),
            next_event: id_after(self.next_event),
            config: self.config,
        }
    }

    /// The manager after `event` was published and nothing else changed.
    pub open spec fn announced(self, event: Event) -> ManagerModel {
        ManagerModel {
            tasks: self.tasks,
            bus: self.bus.publish(event),
            next_number: self.next_number,
            next_event: id_after(self.next_event),
            config: self.config,
        }
    }

    /// Whether `after` is what the manager owes for a log line of task `id`:
    /// the event of the line is published.
    pub open spec fn owes_log(
        self,
        id: Seq<char>,
        level: Seq<char>,
        message: Seq<char>,
        now: u64,
        after: ManagerModel,
    ) -> bool {
        exists|event: Event| #[trigger]
            announces_log(event, self.next_event, now, id, level, message) && after
                == self.announced(event)
    }

    /// The manager after the task at `index` was removed.
    pub open spec fn without(self, index: int) -> ManagerModel {
        ManagerModel {
            tasks: self.tasks.remove(index),
            bus: self.bus,
            next_number: self.next_number,
            next_event: self.next_event,
            config: self.config,
        }
    }

    /// The manager after a cleanup at time `now`: the tasks that have not
    /// expired, in their order.
    pub open spec fn cleaned(self, now: u64) -> ManagerModel {
        ManagerModel {
            tasks: self.tasks.filter(
                |task: TaskRecord| !task.expired(now, self.config.retention_period),
            ),
            bus: self.bus,
            next_number: self.next_number,
            next_event: self.next_event,
            config: self.config,
        }
    }
}

impl TaskManager {
    /// Creates a task from `builder`: pending, without progress, with the
    /// next task number in its ID and a latch of its own. Announces the task
    /// on the bus.
    pub fn create(&mut self, builder: TaskBuilder, now: u64) -> (handle: TaskHandle)
        ensures
            handle.task() == task_id(old(self)@.next_number),
            exists|event: Event, latch: CancellationToken| #[trigger]
                announces_creation(
                    event,
                    old(self)@.next_event,
                    now,
                    task_id(old(self)@.next_number),
                ) && final(self)@ == old(self)@.created(
                    #[trigger] fresh_task(
                        old(self)@.next_number,
                        builder.task_name(),
                        builder.kind(),
                        builder.metadata_entries(),
                        builder.label_entries(),
                        now,
                        latch,
                    ),
                    event,
                ),
            old(self)@.well_formed() ==> final(self)@.well_formed(),
    {
        let id = concat("task-", decimal_string(self.next_id).as_str());
        let mut ids = self.ids;
        let event = Event::with_resource(
            &mut ids,
            now,
            event_types::TASK_CREATED,
            id.as_str(),
            empty_object(),
        );
        let ghost announced = event;
        let _ = self.event_bus.publish(event);
        self.ids = ids;
        let info = TaskInfo {
            id: id.clone(),
            name: builder.name,
            task_type: builder.task_type,
            status: TaskStatus::Pending,
            progress: 0,
            progress_message: None,
            created_at: now,
            started_at: None,
            finished_at: None,
            metadata: builder.metadata,
            labels: builder.labels,
            error: None,
            result: None,
        };
        let token = CancellationToken::new();
        let ghost latch = token;
        self.tasks.push(TaskEntry { info, token, cancel_requested: false });
        self.next_id = if self.next_id == u64::MAX {
            0
        } else {
            self.next_id + 1
        };
        proof {
            let task = fresh_task(
                old(self)@.next_number,
                builder.task_name(),
                builder.kind(),
                builder.metadata_entries(),
                builder.label_entries(),
                now,
                latch,
            );
            assert(self@.tasks =~= old(self)@.tasks.push(task));
            assert(announces_creation(
                announced,
                old(self)@.next_event,
                now,
                task_id(old(self)@.next_number),
            ));
            assert(self@ == old(self)@.created(task, announced));
        }
        TaskHandle { id }
    }

    /// Publishes a log line of task `id`.
    pub fn log(&mut self, id: &str, now: u64, level: &str, message: &str)
        ensures
            old(self)@.owes_log(id@, level@, message@, now, final(self)@),
    {
        let mut ids = self.ids;
        let event = Event::log(&mut ids, now, id, level, message);
        let ghost announced = event;
        assert(announces_log(announced, old(self)@.next_event, now, id@, level@, message@));
        let _ = self.event_bus.publish(event);
        self.ids = ids;
    }

    /// A snapshot of the record of the task with the given ID.
    pub fn get(&self, id: &str) -> (r: Option<TaskInfo>)
        ensures
            match self@.position(id@) {
                Some(index) => r is Some && r->Some_0@ == self@.tasks[index].info,
                None => r is None,
            },
    {
        match self.find(id) {
            Some(index) => Some(self.tasks[index].info.clone()),
            None => None,
        }
    }

    /// A handle to the task with the given ID.
    pub fn get_handle(&self, id: &str) -> (r: Option<TaskHandle>)
        ensures
            match self@.position(id@) {
                Some(_) => r is Some && r->Some_0.task() == id@,
                None => r is None,
            },
    {
        match self.find(id) {
            Some(_) => Some(TaskHandle { id: String::from_str(id) }),
            None => None,
        }
    }

    /// Snapshots of the tasks that `filter` accepts, in the order of their
    /// creation.
    pub fn list(&self, filter: &TaskFilter) -> (infos: Vec<TaskInfo>)
        ensures
            info_views(infos@) == task_views(self@.tasks).filter(
                |task: TaskView| filter.accepts(task),
            ),
    {
        let mut infos: Vec<TaskInfo> = Vec::new();
        let ghost accepts = |task: TaskView| filter.accepts(task);
        let ghost all = task_views(self@.tasks);
        let mut i: usize = 0;
        proof {
            reveal(Seq::filter);
            assert(all.take(0) =~= Seq::empty());
            assert(info_views(infos@) =~= Seq::empty());
        }
        while i < self.tasks.len()
            invariant
                i <= self.tasks@.len(),
                all == task_views(self@.tasks),
                accepts == |task: TaskView| filter.accepts(task),
                info_views(infos@) == all.take(i as int).filter(accepts),
            decreases self.tasks@.len() - i,
        {
            proof {
                let shorter = all.take(i as int);
                let longer = all.take(i + 1);
                assert(longer.drop_last() =~= shorter);
                assert(longer.last() == self.tasks@[i as int].info@);
                reveal(Seq::filter);
                assert(longer.filter(accepts) == if accepts(longer.last()) {
                    shorter.filter(accepts).push(longer.last())
                } else {
                    shorter.filter(accepts)
                });
            }
            if filter.matches(&self.tasks[i].info) {
                let ghost before = infos@;
                let info = self.tasks[i].info.clone();
                infos.push(info);
                assert(info_views(infos@) =~= info_views(before).push(info@));
            }
            i += 1;
        }
        assert(all.take(i as int) =~= all);
        infos
    }

    /// Cancels the task with the given ID: sets its latch, ends it as
    /// `Cancelled` and records the time.
    pub fn cancel(&mut self, id: &str, now: u64) -> (r: Result<()>)
        ensures
            old(self)@.owes(id@, TaskChange::Cancel, now, r, final(self)@),
    {
        self.apply(id, now, TaskOp::Cancel)
    }

    /// Pauses the task with the given ID.
    pub fn pause(&mut self, id: &str, now: u64) -> (r: Result<()>)
        ensures
            old(self)@.owes(id@, TaskChange::Pause, now, r, final(self)@),
    {
        self.apply(id, now, TaskOp::Pause)
    }

    /// Resumes the task with the given ID.
    pub fn resume(&mut self, id: &str, now: u64) -> (r: Result<()>)
        ensures
            old(self)@.owes(id@, TaskChange::Resume, now, r, final(self)@),
    {
        self.apply(id, now, TaskOp::Resume)
    }

    /// Removes the task with the given ID. Only a task that has ended can be
    /// removed.
    pub fn remove(&mut self, id: &str) -> (r: Result<()>)
        ensures
            match old(self)@.position(id@) {
                None => {
                    &&& r matches Err(IpcError::NotFound(text))
                    &&& text@ == id@
                    &&& final(self)@ == old(self)@
                },
                Some(index) => if old(self)@.tasks[index].info.status.terminal() {
                    r is Ok && final(self)@ == old(self)@.without(index)
                } else {
                    &&& r matches Err(IpcError::InvalidState(text))
                    &&& text@ == "Cannot remove task in "@ + old(self)@.tasks[index].info.status.name() + " state"@
                    &&& final(self)@ == old(self)@
                },
            },
            old(self)@.well_formed() ==> final(self)@.well_formed(),
    {
        let index = match self.find(id) {
            Some(index) => index,
            None => {
                return Err(IpcError::NotFound(String::from_str(id)));
            },
        };
        let status = self.tasks[index].info.status;
        if !status.is_terminal() {
            let mut text = concat("Cannot remove task in ", status.as_str());
            text.append(" state");
            return Err(IpcError::InvalidState(text));
        }
        let _ = self.tasks.remove(index);
        assert(self@.tasks =~= old(self)@.tasks.remove(index as int));
        Ok(())
    }

    /// Drops the tasks that have ended and whose retention period has
    /// passed.
    pub fn cleanup(&mut self, now: u64)
        ensures
            final(self)@ == old(self)@.cleaned(now),
            old(self)@.well_formed() ==> final(self)@.well_formed(),
    {
        let retention = self.config.retention_period;
        let ghost all = old(self)@.tasks;
        let ghost keeps = |task: TaskRecord| !task.expired(now, retention);
        let mut kept: usize = 0;
        let mut seen: usize = 0;
        let total: usize = self.tasks.len();
        proof {
            reveal(Seq::filter);
            assert(all.take(0) =~= Seq::empty());
            assert(all.skip(0) =~= all);
            assert(self@.tasks =~= all.take(0).filter(keeps) + all.skip(0));
        }
        while seen < total
            invariant
                seen <= total,
                total == all.len(),
                kept <= seen,
                retention == self.config.retention_period,
                self.config == old(self).config,
                self.event_bus == old(self).event_bus,
                self.ids == old(self).ids,
                self.next_id == old(self).next_id,
                all == old(self)@.tasks,
                keeps == |task: TaskRecord| !task.expired(now, retention),
                kept == all.take(seen as int).filter(keeps).len(),
                self@.tasks == all.take(seen as int).filter(keeps) + all.skip(seen as int),
                old(self)@.well_formed() ==> self@.well_formed(),
            decreases total - seen,
        {
            let ghost shorter = all.take(seen as int);
            let ghost longer = all.take(seen + 1);
            proof {
                assert(longer.drop_last() =~= shorter);
                assert(longer.last() == all[seen as int]);
                reveal(Seq::filter);
                assert(longer.filter(keeps) == if keeps(longer.last()) {
                    shorter.filter(keeps).push(longer.last())
                } else {
                    shorter.filter(keeps)
                });
                assert(all.skip(seen as int).len() == total - seen);
                assert(self@.tasks.len() == kept + (total - seen));
                assert(self.tasks@.len() == self@.tasks.len());
                assert(self@.tasks[kept as int] == all[seen as int]);
            }
            let expired = {
                let info = &self.tasks[kept].info;
                match info.finished_at {
                    Some(end) => info.status.is_terminal() && now >= end && now - end
                        >= retention,
                    None => false,
                }
            };
            if expired {
                let ghost before = self@.tasks;
                let _ = self.tasks.remove(kept);
                proof {
                    assert(self@.tasks =~= before.remove(kept as int));
                    assert(self@.tasks =~= longer.filter(keeps) + all.skip(seen + 1));
                    assert forall|i: int| 0 <= i < self@.tasks.len() implies (
                    #[trigger] self@.tasks[i]).well_formed() == before[if i < kept {
                        i
                    } else {
                        i + 1
                    }].well_formed() by {}
                }
            } else {
                proof {
                    assert(self@.tasks =~= longer.filter(keeps) + all.skip(seen + 1));
                }
                kept = kept + 1;
            }
            seen = seen + 1;
        }
        proof {
            assert(all.take(seen as int) =~= all);
            assert(all.skip(seen as int) =~= Seq::empty());
            assert(self@.tasks =~= all.filter(keeps));
        }
    }

    /// The event bus of the manager.
    pub fn event_bus(&self) -> (bus: &EventBus)
        ensures
            bus@ == self@.bus,
    {
        &self.event_bus
    }

    /// The event bus of the manager, to subscribe to it and to receive from
    /// it.
    pub fn event_bus_mut(&mut self) -> (bus: &mut EventBus)
        ensures
            bus@ == old(self)@.bus,
            final(self)@ == (ManagerModel { bus: final(bus)@, ..old(self)@ }),
    {
        &mut self.event_bus
    }

    /// The number of tasks that the manager holds.
    pub fn task_count(&self) -> (n: usize)
        ensures
            n == self@.tasks.len(),
    {
        self.tasks.len()
    }

    /// The number of tasks that have not ended.
    pub fn active_task_count(&self) -> (n: usize)
        ensures
            n == self@.tasks.filter(|task: TaskRecord| !task.info.status.terminal()).len(),
    {
        let ghost active = |task: TaskRecord| !task.info.status.terminal();
        let mut n: usize = 0;
        let mut i: usize = 0;
        proof {
            reveal(Seq::filter);
            assert(self@.tasks.take(0) =~= Seq::empty());
        }
        while i < self.tasks.len()
            invariant
                i <= self.tasks@.len(),
                n <= i,
                active == |task: TaskRecord| !task.info.status.terminal(),
                n == self@.tasks.take(i as int).filter(active).len(),
            decreases self.tasks@.len() - i,
        {
            proof {
                let shorter = self@.tasks.take(i as int);
                let longer = self@.tasks.take(i + 1);
                assert(longer.drop_last() =~= shorter);
                assert(longer.last() == self@.tasks[i as int]);
                reveal(Seq::filter);
                assert(longer.filter(active) == if active(longer.last()) {
                    shorter.filter(active).push(longer.last())
                } else {
                    shorter.filter(active)
                });
            }
            if self.tasks[i].info.status.is_active() {
                n = n + 1;
            }
            i += 1;
        }
        assert(self@.tasks.take(i as int) =~= self@.tasks);
        n
    }
}

impl Default for TaskManager {
    fn default() -> (manager: Self)
        ensures
            manager@.tasks == Seq::<TaskRecord>::empty(),
            manager@.next_number == 1,
            manager@.next_event == 1,
            manager@.well_formed(),
    {
        TaskManager::new(TaskManagerConfig::default())
    }
}

/// Every answer that the manager owes to a request for a change keeps the
/// tasks well formed: a task that has ended has the time of its end.
pub proof fn lemma_change_keeps_well_formed(
    before: ManagerModel,
    id: Seq<char>,
    change: TaskChange,
    now: u64,
    r: Result<()>,
    after: ManagerModel,
)
    requires
        before.well_formed(),
        before.owes(id, change, now, r, after),
    ensures
        after.well_formed(),
{
    if before.position(id) is Some {
        let index = before.position(id)->Some_0;
        lemma_first_with_id(before.tasks, id);
        lemma_terminal_is_final(before.tasks[index], change, now);
    }
}

} // verus!
