//! The standard event types.

use vstd::prelude::*;

verus! {

/// A task was created.
pub const TASK_CREATED: &'static str = "task.created";

/// A task began to run.
pub const TASK_STARTED: &'static str = "task.started";

/// A task reported progress.
pub const TASK_PROGRESS: &'static str = "task.progress";

/// A task completed.
pub const TASK_COMPLETED: &'static str = "task.completed";

/// A task failed.
pub const TASK_FAILED: &'static str = "task.failed";

/// A task was cancelled.
pub const TASK_CANCELLED: &'static str = "task.cancelled";

/// A task was paused.
pub const TASK_PAUSED: &'static str = "task.paused";

/// A task was resumed.
pub const TASK_RESUMED: &'static str = "task.resumed";

/// A line on standard output.
pub const LOG_STDOUT: &'static str = "log.stdout";

/// A line on standard error.
pub const LOG_STDERR: &'static str = "log.stderr";

/// A log line of level info.
pub const LOG_INFO: &'static str = "log.info";

/// A log line of level warn.
pub const LOG_WARN: &'static str = "log.warn";

/// A log line of level error.
pub const LOG_ERROR: &'static str = "log.error";

/// Progress of an upload.
pub const FILE_UPLOAD_PROGRESS: &'static str = "file.upload.progress";

/// Progress of a download.
pub const FILE_DOWNLOAD_PROGRESS: &'static str = "file.download.progress";

/// The system shuts down.
pub const SYSTEM_SHUTDOWN: &'static str = "system.shutdown";

/// The system met an error.
pub const SYSTEM_ERROR: &'static str = "system.error";

} // verus!
