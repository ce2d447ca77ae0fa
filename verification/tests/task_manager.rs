use ipckit::error::IpcError;
use ipckit::event_stream::{EventBusConfig, EventFilter, SlowConsumerPolicy};
use ipckit::task_manager::{
    CancellationToken, TaskBuilder, TaskFilter, TaskInfo, TaskManager, TaskManagerConfig, TaskOp,
    TaskStatus,
};

fn object(entries: Vec<(&str, serde_json::Value)>) -> serde_json::Value {
    let mut map = serde_json::Map::new();
    for (key, value) in entries {
        map.insert(key.to_string(), value);
    }
    serde_json::Value::Object(map)
}

fn empty() -> serde_json::Value {
    object(Vec::new())
}

fn metadata<'a>(info: &'a TaskInfo, key: &str) -> Option<&'a serde_json::Value> {
    info.metadata.iter().rev().find(|entry| entry.0 == key).map(|entry| &entry.1)
}

#[test]
fn test_task_creation() {
    let mut manager = TaskManager::new(Default::default());
    let handle = manager.create(TaskBuilder::new("Test Task", "test"), 0);

    assert!(handle.id().starts_with("task-"));
    assert_eq!(handle.status(&manager), Some(TaskStatus::Pending));
    assert_eq!(handle.progress(&manager), Some(0));
}

#[test]
fn test_task_lifecycle() {
    let mut manager = TaskManager::new(Default::default());
    let handle = manager.create(TaskBuilder::new("Test Task", "test"), 0);

    // Start
    handle.start(&mut manager, 1).unwrap();
    assert_eq!(handle.status(&manager), Some(TaskStatus::Running));

    // Progress
    handle.set_progress(&mut manager, 2, 50, Some("Half done")).unwrap();
    assert_eq!(handle.progress(&manager), Some(50));

    // Complete
    handle
        .complete(&mut manager, 3, object(vec![("result", serde_json::Value::from("success"))]))
        .unwrap();
    assert_eq!(handle.status(&manager), Some(TaskStatus::Completed));
    assert_eq!(handle.progress(&manager), Some(100));
}

#[test]
fn test_task_cancellation() {
    let mut manager = TaskManager::new(Default::default());
    let handle = manager.create(TaskBuilder::new("Test Task", "test"), 0);

    handle.start(&mut manager, 1).unwrap();
    assert!(!handle.is_cancelled(&manager));

    manager.cancel(handle.id(), 2).unwrap();

    assert!(handle.is_cancelled(&manager));
    assert_eq!(handle.status(&manager), Some(TaskStatus::Cancelled));
}

#[test]
fn test_task_failure() {
    let mut manager = TaskManager::new(Default::default());
    let handle = manager.create(TaskBuilder::new("Test Task", "test"), 0);

    handle.start(&mut manager, 1).unwrap();
    handle.fail(&mut manager, 2, "Something went wrong").unwrap();

    assert_eq!(handle.status(&manager), Some(TaskStatus::Failed));

    let info = handle.info(&manager).unwrap();
    assert_eq!(info.error, Some("Something went wrong".to_string()));
}

#[test]
fn test_task_filter() {
    let mut manager = TaskManager::new(Default::default());

    let h1 = manager.create(TaskBuilder::new("Task 1", "upload"), 0);
    let h2 = manager.create(TaskBuilder::new("Task 2", "download"), 0);
    let _h3 = manager.create(TaskBuilder::new("Task 3", "upload"), 0);

    h1.start(&mut manager, 1).unwrap();
    h2.start(&mut manager, 1).unwrap();
    h2.complete(&mut manager, 2, empty()).unwrap();

    // Filter by type
    let uploads = manager.list(&TaskFilter::new().task_type("upload"));
    assert_eq!(uploads.len(), 2);

    // Filter active only
    let active = manager.list(&TaskFilter::new().active());
    assert_eq!(active.len(), 2); // h1 and h3

    // Filter by status
    let completed = manager.list(&TaskFilter::new().status(TaskStatus::Completed));
    assert_eq!(completed.len(), 1);
}

#[test]
fn test_task_labels() {
    let mut manager = TaskManager::new(Default::default());

    let h1 = manager
        .create(TaskBuilder::new("Task 1", "test").label("env", "prod").label("priority", "high"), 0);

    let h2 = manager.create(TaskBuilder::new("Task 2", "test").label("env", "dev"), 0);

    let prod_tasks = manager.list(&TaskFilter::new().label("env", "prod"));
    assert_eq!(prod_tasks.len(), 1);
    assert_eq!(prod_tasks[0].id, h1.id());

    let _ = h2; // Silence unused warning
}

#[test]
fn test_task_metadata() {
    let mut manager = TaskManager::new(Default::default());

    let handle = manager
        .create(
            TaskBuilder::new("Task", "test")
                .metadata("file_count", serde_json::Value::from(10))
                .metadata("total_size", serde_json::Value::from(1024)),
            0,
        );

    let info = handle.info(&manager).unwrap();
    assert_eq!(metadata(&info, "file_count"), Some(&serde_json::Value::from(10)));
    assert_eq!(metadata(&info, "total_size"), Some(&serde_json::Value::from(1024)));
}

#[test]
fn test_pause_resume() {
    let mut manager = TaskManager::new(Default::default());
    let handle = manager.create(TaskBuilder::new("Task", "test"), 0);

    handle.start(&mut manager, 1).unwrap();
    assert_eq!(handle.status(&manager), Some(TaskStatus::Running));

    manager.pause(handle.id(), 2).unwrap();
    assert_eq!(handle.status(&manager), Some(TaskStatus::Paused));

    manager.resume(handle.id(), 3).unwrap();
    assert_eq!(handle.status(&manager), Some(TaskStatus::Running));
}

#[test]
fn test_remove_task() {
    let mut manager = TaskManager::new(Default::default());
    let handle = manager.create(TaskBuilder::new("Task", "test"), 0);
    let id = handle.id().to_string();

    // Cannot remove active task
    assert!(manager.remove(&id).is_err());

    // A task completes from the running state.
    handle.start(&mut manager, 1).unwrap();
    handle.complete(&mut manager, 2, empty()).unwrap();

    // Can remove completed task
    assert!(manager.remove(&id).is_ok());
    assert!(manager.get(&id).is_none());
}

#[test]
fn test_task_count() {
    let mut manager = TaskManager::new(Default::default());

    assert_eq!(manager.task_count(), 0);
    assert_eq!(manager.active_task_count(), 0);

    let h1 = manager.create(TaskBuilder::new("Task 1", "test"), 0);
    let h2 = manager.create(TaskBuilder::new("Task 2", "test"), 0);

    assert_eq!(manager.task_count(), 2);
    assert_eq!(manager.active_task_count(), 2);

    h1.start(&mut manager, 1).unwrap();
    h1.complete(&mut manager, 2, empty()).unwrap();

    assert_eq!(manager.task_count(), 2);
    assert_eq!(manager.active_task_count(), 1);

    let _ = h2;
}

#[test]
fn test_cancellation_token() {
    let token = CancellationToken::new();

    assert!(!token.is_cancelled());

    let child = token.child();
    assert!(!child.is_cancelled());

    token.cancel();

    assert!(token.is_cancelled());
    assert!(child.is_cancelled());
}

#[test]
fn cancelling_twice_is_cancelling_once() {
    let token = CancellationToken::new();
    let clone = token.clone();
    token.cancel();
    token.cancel();
    clone.cancel();
    assert!(token.is_cancelled());
    assert!(clone.is_cancelled());
    assert!(token.child().is_cancelled());
    assert!(!CancellationToken::default().is_cancelled());

    let mut manager = TaskManager::default();
    let handle = manager.create(TaskBuilder::new("T", "demo"), 0);
    let watcher = handle.cancel_token(&manager).unwrap();
    assert!(!watcher.is_cancelled());
    manager.cancel(handle.id(), 5).unwrap();
    assert!(watcher.is_cancelled());
    let first = manager.get(handle.id()).unwrap();
    let events = manager.event_bus().history(&EventFilter::new()).len();

    let again = manager.cancel(handle.id(), 9);
    assert!(matches!(again, Err(IpcError::InvalidState(text)) if text == "Cannot cancel task in Cancelled state"));
    let second = manager.get(handle.id()).unwrap();
    assert_eq!(second.status, first.status);
    assert_eq!(second.finished_at, Some(5));
    assert_eq!(manager.event_bus().history(&EventFilter::new()).len(), events);
    assert!(handle.is_cancelled(&manager));
}

#[test]
fn task_lifecycle_scenario() {
    let mut manager = TaskManager::new(TaskManagerConfig::default());
    let filter = EventFilter::new().event_type("task.*").resource("task-1");
    let subscriber = manager.event_bus_mut().subscribe(filter);

    let handle = manager.create(TaskBuilder::new("T", "demo"), 10);
    assert_eq!(handle.id(), "task-1");
    let info = handle.info(&manager).unwrap();
    assert_eq!(info.name, "T");
    assert_eq!(info.task_type, "demo");
    assert_eq!(info.created_at, 10);
    assert_eq!(info.started_at, None);

    handle.start(&mut manager, 20).unwrap();
    let info = handle.info(&manager).unwrap();
    assert_eq!(info.status, TaskStatus::Running);
    assert_eq!(info.started_at, Some(20));

    handle.set_progress(&mut manager, 30, 50, Some("half")).unwrap();
    let info = handle.info(&manager).unwrap();
    assert_eq!(info.progress, 50);
    assert_eq!(info.progress_message.as_deref(), Some("half"));

    manager.cancel(handle.id(), 40).unwrap();
    let info = handle.info(&manager).unwrap();
    assert_eq!(info.status, TaskStatus::Cancelled);
    assert!(handle.is_cancelled(&manager));
    assert_eq!(info.finished_at, Some(40));

    let events = subscriber.try_iter(manager.event_bus_mut());
    let types: Vec<&str> = events.iter().map(|event| event.event_type.as_str()).collect();
    assert_eq!(types, vec!["task.created", "task.started", "task.progress", "task.cancelled"]);
    assert_eq!(events.iter().map(|event| event.id).collect::<Vec<_>>(), vec![1, 2, 3, 4]);
    assert_eq!(events.iter().map(|event| event.timestamp).collect::<Vec<_>>(), vec![10, 20, 30, 40]);
    assert_eq!(events[2].data["current"], 50);
    assert_eq!(events[2].data["total"], 100);
    assert_eq!(events[2].data["percentage"], 50);
    assert_eq!(events[2].data["message"], "half");
}

#[test]
fn progress_is_clamped_to_one_hundred() {
    let mut manager = TaskManager::default();
    let handle = manager.create(TaskBuilder::new("T", "demo"), 0);
    for (given, expected) in [(0u8, 0u8), (1, 1), (99, 99), (100, 100), (101, 100), (255, 100)] {
        handle.set_progress(&mut manager, 1, given, None).unwrap();
        assert_eq!(handle.progress(&manager), Some(expected));
    }
    handle.set_progress(&mut manager, 1, 10, Some("ten")).unwrap();
    handle.set_progress(&mut manager, 1, 20, None).unwrap();
    let info = handle.info(&manager).unwrap();
    assert_eq!(info.progress, 20);
    assert_eq!(info.progress_message.as_deref(), Some("ten"));

    let last = manager.event_bus().history(&EventFilter::new()).pop().unwrap();
    assert_eq!(last.data["current"], 20);
    assert_eq!(last.data["message"], "");
}

#[test]
fn illegal_changes_are_refused_and_change_nothing() {
    let mut manager = TaskManager::default();
    let handle = manager.create(TaskBuilder::new("T", "demo"), 0);
    let id = handle.id().to_string();

    let refused = |result: Result<(), IpcError>, words: &str| match result {
        Err(IpcError::InvalidState(text)) => assert_eq!(text, words),
        other => panic!("expected a refusal, got {:?}", other),
    };

    refused(manager.pause(&id, 1), "Cannot pause task in Pending state");
    refused(manager.resume(&id, 1), "Cannot resume task in Pending state");
    refused(handle.complete(&mut manager, 1, empty()), "Cannot complete task in Pending state");
    refused(handle.fail(&mut manager, 1, "e"), "Cannot fail task in Pending state");
    refused(manager.remove(&id), "Cannot remove task in Pending state");
    assert_eq!(handle.status(&manager), Some(TaskStatus::Pending));
    assert_eq!(manager.event_bus().history(&EventFilter::new()).len(), 1);

    handle.start(&mut manager, 2).unwrap();
    refused(handle.start(&mut manager, 3), "Cannot start task in Running state");
    refused(manager.resume(&id, 3), "Cannot resume task in Running state");
    assert_eq!(handle.info(&manager).unwrap().started_at, Some(2));

    manager.pause(&id, 4).unwrap();
    refused(manager.pause(&id, 5), "Cannot pause task in Paused state");
    handle.fail(&mut manager, 6, "broken").unwrap();

    for op in [TaskOp::Start, TaskOp::Pause, TaskOp::Resume, TaskOp::Cancel] {
        assert!(matches!(manager.apply(&id, 7, op), Err(IpcError::InvalidState(_))));
    }
    refused(handle.complete(&mut manager, 7, empty()), "Cannot complete task in Failed state");
    refused(handle.fail(&mut manager, 7, "again"), "Cannot fail task in Failed state");
    let info = handle.info(&manager).unwrap();
    assert_eq!(info.status, TaskStatus::Failed);
    assert_eq!(info.finished_at, Some(6));
    assert_eq!(info.error.as_deref(), Some("broken"));

    assert!(matches!(manager.cancel("task-99", 1), Err(IpcError::NotFound(text)) if text == "task-99"));
    assert!(matches!(manager.pause("nope", 1), Err(IpcError::NotFound(_))));
    assert!(matches!(manager.remove("nope"), Err(IpcError::NotFound(_))));
    assert!(manager.get("nope").is_none());
    assert!(manager.get_handle("nope").is_none());
    assert_eq!(manager.get_handle(&id).unwrap().id(), id);
}

#[test]
fn terminal_tasks_have_their_end_time() {
    let mut manager = TaskManager::default();
    let a = manager.create(TaskBuilder::new("a", "x"), 0);
    let b = manager.create(TaskBuilder::new("b", "x"), 0);
    let c = manager.create(TaskBuilder::new("c", "x"), 0);
    let d = manager.create(TaskBuilder::new("d", "x"), 0);
    a.start(&mut manager, 1).unwrap();
    a.complete(&mut manager, 11, serde_json::Value::from(1)).unwrap();
    b.start(&mut manager, 2).unwrap();
    manager.pause(b.id(), 3).unwrap();
    b.fail(&mut manager, 12, "no").unwrap();
    manager.cancel(c.id(), 13).unwrap();
    for info in manager.list(&TaskFilter::new()) {
        assert_eq!(info.status.is_terminal(), info.finished_at.is_some());
        assert_eq!(info.status.is_terminal(), !info.status.is_active());
    }
    let done = a.info(&manager).unwrap();
    assert_eq!(done.progress, 100);
    assert_eq!(done.progress_message.as_deref(), Some("Completed"));
    assert_eq!(done.result, Some(serde_json::Value::from(1)));
    assert_eq!(done.finished_at, Some(11));
    assert_eq!(d.status(&manager), Some(TaskStatus::Pending));
    assert!(!d.is_cancelled(&manager));
    assert!(c.is_cancelled(&manager));
}

#[test]
fn cleanup_drops_what_has_expired() {
    let mut manager = TaskManager::new(TaskManagerConfig {
        retention_period: 100,
        max_concurrent: 4,
        event_bus_config: EventBusConfig::default(),
    });
    let old = manager.create(TaskBuilder::new("old", "x"), 0);
    let young = manager.create(TaskBuilder::new("young", "x"), 0);
    let active = manager.create(TaskBuilder::new("active", "x"), 0);
    let edge = manager.create(TaskBuilder::new("edge", "x"), 0);
    manager.cancel(old.id(), 10).unwrap();
    manager.cancel(young.id(), 150).unwrap();
    manager.cancel(edge.id(), 100).unwrap();
    active.start(&mut manager, 5).unwrap();

    manager.cleanup(50);
    assert_eq!(manager.task_count(), 4);
    manager.cleanup(199);
    let names: Vec<String> = manager.list(&TaskFilter::new()).into_iter().map(|i| i.name).collect();
    assert_eq!(names, vec!["young", "active", "edge"]);
    manager.cleanup(200);
    let names: Vec<String> = manager.list(&TaskFilter::new()).into_iter().map(|i| i.name).collect();
    assert_eq!(names, vec!["young", "active"]);
    manager.cleanup(u64::MAX);
    let names: Vec<String> = manager.list(&TaskFilter::new()).into_iter().map(|i| i.name).collect();
    assert_eq!(names, vec!["active"]);
    assert!(old.status(&manager).is_none());
    assert!(old.is_cancelled(&manager));
    assert!(old.cancel_token(&manager).is_none());
}

#[test]
fn later_labels_replace_earlier_ones() {
    let mut manager = TaskManager::default();
    manager
        .create(TaskBuilder::new("a", "x").label("env", "dev").label("env", "prod"), 0);
    manager.create(TaskBuilder::new("b", "x").label("env", "dev"), 0);
    manager.create(TaskBuilder::new("c", "y"), 0);

    let named = |manager: &TaskManager, filter: TaskFilter| -> Vec<String> {
        manager.list(&filter).into_iter().map(|info| info.name).collect()
    };
    assert_eq!(named(&manager, TaskFilter::new().label("env", "prod")), vec!["a"]);
    assert_eq!(named(&manager, TaskFilter::new().label("env", "dev")), vec!["b"]);
    assert_eq!(named(&manager, TaskFilter::new().label("env", "prod").label("env", "dev")), vec!["b"]);
    assert_eq!(named(&manager, TaskFilter::new().label("zone", "eu")), Vec::<String>::new());
    assert_eq!(named(&manager, TaskFilter::default()), vec!["a", "b", "c"]);
    assert_eq!(
        named(&manager, TaskFilter::new().status(TaskStatus::Running).status(TaskStatus::Pending).task_type("y")),
        vec!["c"]
    );
}

#[test]
fn status_codes_and_names() {
    let all = [
        TaskStatus::Pending,
        TaskStatus::Running,
        TaskStatus::Paused,
        TaskStatus::Completed,
        TaskStatus::Failed,
        TaskStatus::Cancelled,
    ];
    for (code, status) in all.iter().enumerate() {
        assert_eq!(status.to_u8(), code as u8);
        assert_eq!(TaskStatus::from_u8(code as u8), *status);
        assert_eq!(status.as_str(), format!("{:?}", status));
        assert_eq!(status.is_terminal(), code >= 3);
        assert_eq!(status.is_active(), code < 3);
    }
    assert_eq!(TaskStatus::from_u8(6), TaskStatus::Pending);
    assert_eq!(TaskStatus::from_u8(255), TaskStatus::Pending);
}

#[test]
fn blocked_bus_holds_the_change_back() {
    let mut manager = TaskManager::new(TaskManagerConfig {
        retention_period: 1,
        max_concurrent: 1,
        event_bus_config: EventBusConfig {
            history_size: 10,
            subscriber_buffer: 1,
            slow_consumer: SlowConsumerPolicy::Block,
        },
    });
    let subscriber = manager.event_bus_mut().subscribe(EventFilter::new());
    let handle = manager.create(TaskBuilder::new("T", "demo"), 0);

    // The subscriber is full. Every change is made all the same, and its
    // event is recorded and waits for the subscriber.
    handle.start(&mut manager, 1).unwrap();
    assert_eq!(handle.status(&manager), Some(TaskStatus::Running));
    let next = manager.create(TaskBuilder::new("U", "demo"), 1);
    assert_eq!(next.id(), "task-2");
    assert_eq!(manager.task_count(), 2);
    handle.log(&mut manager, 1, "info", "x");
    handle.stdout(&mut manager, 3, "out");
    handle.stderr(&mut manager, 4, "err");
    assert_eq!(manager.event_bus().history(&EventFilter::new()).len(), 6);
    assert!(manager.event_bus().has_pending());

    let mut seen: Vec<String> = Vec::new();
    loop {
        match subscriber.try_recv(manager.event_bus_mut()) {
            Some(event) => seen.push(event.event_type),
            None => break,
        }
        let _ = manager.event_bus_mut().deliver_pending();
    }
    assert_eq!(
        seen,
        vec!["task.created", "task.started", "task.created", "log.info", "log.stdout", "log.stderr"]
    );
    assert!(!manager.event_bus().has_pending());
}
