use ipckit::error::IpcError;
use ipckit::event_stream::event_types;
use ipckit::event_stream::{
    Event, EventBus, EventBusConfig, EventFilter, EventIds, EventPublisher, SlowConsumerPolicy,
};
use ipckit::pattern::pattern_matches_chars;
use ipckit::text::chars_of;

fn object(entries: Vec<(&str, serde_json::Value)>) -> serde_json::Value {
    let mut map = serde_json::Map::new();
    for (key, value) in entries {
        map.insert(key.to_string(), value);
    }
    serde_json::Value::Object(map)
}

fn empty() -> serde_json::Value {
    object(Vec::new())
}

fn types(events: &[Event]) -> Vec<String> {
    events.iter().map(|event| event.event_type.clone()).collect()
}

#[test]
fn test_event_creation() {
    let mut ids = EventIds::new();
    let event = Event::new(
        &mut ids,
        1_700_000_000_000,
        "test.event",
        object(vec![("key", serde_json::Value::from("value"))]),
    );

    assert!(event.id > 0);
    assert_eq!(event.event_type, "test.event");
    assert!(event.resource_id.is_none());
}

#[test]
fn test_event_with_resource() {
    let mut ids = EventIds::new();
    let event = Event::with_resource(&mut ids, 0, "task.started", "task-123", empty());

    assert_eq!(event.event_type, "task.started");
    assert_eq!(event.resource_id, Some("task-123".to_string()));
}

#[test]
fn test_progress_event() {
    let mut ids = EventIds::new();
    let event = Event::progress(&mut ids, 0, "task-123", 50, 100, "Half done");

    assert_eq!(event.event_type, event_types::TASK_PROGRESS);
    assert_eq!(event.resource_id, Some("task-123".to_string()));
    assert_eq!(event.data["percentage"], 50);
}

#[test]
fn test_filter_event_type() {
    let mut ids = EventIds::new();
    let filter = EventFilter::new().event_type("task.*");

    let event1 = Event::new(&mut ids, 0, "task.started", empty());
    let event2 = Event::new(&mut ids, 0, "log.info", empty());

    assert!(filter.matches(&event1));
    assert!(!filter.matches(&event2));
}

#[test]
fn test_filter_resource() {
    let mut ids = EventIds::new();
    let filter = EventFilter::new().resource("task-123");

    let event1 = Event::with_resource(&mut ids, 0, "task.started", "task-123", empty());
    let event2 = Event::with_resource(&mut ids, 0, "task.started", "task-456", empty());
    let event3 = Event::new(&mut ids, 0, "task.started", empty());

    assert!(filter.matches(&event1));
    assert!(!filter.matches(&event2));
    assert!(!filter.matches(&event3));
}

#[test]
fn test_filter_combined() {
    let mut ids = EventIds::new();
    let filter = EventFilter::new().event_type("task.*").resource("task-123");

    let event1 = Event::with_resource(&mut ids, 0, "task.started", "task-123", empty());
    let event2 = Event::with_resource(&mut ids, 0, "log.info", "task-123", empty());
    let event3 = Event::with_resource(&mut ids, 0, "task.started", "task-456", empty());

    assert!(filter.matches(&event1));
    assert!(!filter.matches(&event2));
    assert!(!filter.matches(&event3));
}

#[test]
fn test_event_bus_publish_subscribe() {
    let mut ids = EventIds::new();
    let mut bus = EventBus::new(Default::default());
    let subscriber = bus.subscribe(EventFilter::new());

    bus.publish(Event::new(
        &mut ids,
        0,
        "test.event",
        object(vec![("value", serde_json::Value::from(42))]),
    ))
    .unwrap();

    let event = subscriber.try_recv(&mut bus).unwrap();
    assert_eq!(event.event_type, "test.event");
    assert_eq!(event.data["value"], 42);
}

#[test]
fn test_event_bus_filtered_subscription() {
    let mut ids = EventIds::new();
    let mut bus = EventBus::new(Default::default());
    let subscriber = bus.subscribe(EventFilter::new().event_type("task.*"));

    bus.publish(Event::new(&mut ids, 0, "task.started", empty())).unwrap();
    bus.publish(Event::new(&mut ids, 0, "log.info", empty())).unwrap();
    bus.publish(Event::new(&mut ids, 0, "task.completed", empty())).unwrap();

    let events: Vec<Event> = subscriber.try_iter(&mut bus);
    assert_eq!(events.len(), 2);
    assert_eq!(events[0].event_type, "task.started");
    assert_eq!(events[1].event_type, "task.completed");
}

#[test]
fn test_event_bus_history() {
    let mut ids = EventIds::new();
    let mut bus = EventBus::new(EventBusConfig { history_size: 10, ..Default::default() });

    bus.publish(Event::new(&mut ids, 0, "event.1", empty())).unwrap();
    bus.publish(Event::new(&mut ids, 0, "event.2", empty())).unwrap();
    bus.publish(Event::new(&mut ids, 0, "event.3", empty())).unwrap();

    let history = bus.history(&EventFilter::new());
    assert_eq!(history.len(), 3);
}

#[test]
fn test_event_bus_history_limit() {
    let mut ids = EventIds::new();
    let mut bus = EventBus::new(EventBusConfig { history_size: 2, ..Default::default() });

    bus.publish(Event::new(&mut ids, 0, "event.1", empty())).unwrap();
    bus.publish(Event::new(&mut ids, 0, "event.2", empty())).unwrap();
    bus.publish(Event::new(&mut ids, 0, "event.3", empty())).unwrap();

    let history = bus.history(&EventFilter::new());
    assert_eq!(history.len(), 2);
    assert_eq!(history[0].event_type, "event.2");
    assert_eq!(history[1].event_type, "event.3");
}

#[test]
fn test_event_bus_clear_history() {
    let mut ids = EventIds::new();
    let mut bus = EventBus::new(Default::default());

    bus.publish(Event::new(&mut ids, 0, "event.1", empty())).unwrap();
    bus.publish(Event::new(&mut ids, 0, "event.2", empty())).unwrap();

    assert_eq!(bus.history(&EventFilter::new()).len(), 2);

    bus.clear_history();

    assert_eq!(bus.history(&EventFilter::new()).len(), 0);
}

#[test]
fn test_multiple_subscribers() {
    let mut ids = EventIds::new();
    let mut bus = EventBus::new(Default::default());

    let sub1 = bus.subscribe(EventFilter::new().event_type("task.*"));
    let sub2 = bus.subscribe(EventFilter::new().event_type("log.*"));
    let sub3 = bus.subscribe(EventFilter::new());

    bus.publish(Event::new(&mut ids, 0, "task.started", empty())).unwrap();
    bus.publish(Event::new(&mut ids, 0, "log.info", empty())).unwrap();

    assert_eq!(sub1.try_iter(&mut bus).len(), 1);
    assert_eq!(sub2.try_iter(&mut bus).len(), 1);
    assert_eq!(sub3.try_iter(&mut bus).len(), 2);
}

#[test]
fn test_publisher_helper_methods() {
    let mut bus = EventBus::new(Default::default());
    let mut publisher = EventPublisher::new();
    let subscriber = bus.subscribe(EventFilter::new());

    publisher.progress(&mut bus, 0, "task-1", 50, 100, "Half done").unwrap();
    publisher.log(&mut bus, 0, "task-1", "info", "Processing...").unwrap();
    publisher.stdout(&mut bus, 0, "task-1", "Output line").unwrap();
    publisher
        .task_completed(&mut bus, 0, "task-1", object(vec![("success", serde_json::Value::from(true))]))
        .unwrap();

    let events: Vec<Event> = subscriber.try_iter(&mut bus);
    assert_eq!(events.len(), 4);
}

#[test]
fn publisher_stamps_its_events() {
    let mut bus = EventBus::new(EventBusConfig {
        history_size: 100,
        subscriber_buffer: 1,
        slow_consumer: SlowConsumerPolicy::Block,
    });
    let mut publisher = EventPublisher::default();
    let subscriber = bus.subscribe(EventFilter::new().resource("t"));

    publisher.task_started(&mut bus, 5, "t", object(vec![("n", serde_json::Value::from(1))])).unwrap();
    // The subscriber has no room: the event is published and waits for it.
    assert!(matches!(publisher.stderr(&mut bus, 6, "t", "line"), Err(IpcError::WouldBlock)));
    assert_eq!(bus.history(&EventFilter::new()).len(), 2);
    // An event for another resource passes.
    publisher.task_cancelled(&mut bus, 7, "other").unwrap();
    let started = subscriber.try_recv(&mut bus).unwrap();
    assert_eq!((started.id, started.timestamp), (1, 5));
    assert_eq!(started.event_type, "task.started");
    assert_eq!(started.data, object(vec![("n", serde_json::Value::from(1))]));

    bus.deliver_pending().unwrap();
    let line = subscriber.try_recv(&mut bus).unwrap();
    assert_eq!((line.id, line.timestamp), (2, 6));
    assert_eq!(line.event_type, "log.stderr");

    publisher.task_failed(&mut bus, 8, "t", "broken").unwrap();
    let failed = subscriber.try_recv(&mut bus).unwrap();
    assert_eq!((failed.id, failed.timestamp), (4, 8));
    assert_eq!(failed.event_type, "task.failed");
    assert_eq!(failed.data, object(vec![("error", serde_json::Value::from("broken"))]));
}

#[test]
fn event_ids_count_up_from_one() {
    let mut ids = EventIds::new();
    assert_eq!(ids.next_id(), 1);
    assert_eq!(ids.next_id(), 2);
    let event = Event::new(&mut ids, 77, "a.b", empty());
    assert_eq!(event.id, 3);
    assert_eq!(event.timestamp, 77);
    let copy = event.clone();
    assert_eq!(copy.id, 3);
    assert_eq!(copy.event_type, "a.b");
    assert_eq!(copy.data, event.data);
    assert_eq!(ids.next_id(), 4);
}

#[test]
fn progress_and_log_events_carry_their_data() {
    let mut ids = EventIds::new();
    let event = Event::progress(&mut ids, 9, "task-1", 1, 3, "a third");
    assert_eq!(event.data["current"], 1);
    assert_eq!(event.data["total"], 3);
    assert_eq!(event.data["percentage"], 33);
    assert_eq!(event.data["message"], "a third");
    assert_eq!(event.data.as_object().unwrap().len(), 4);

    let event = Event::progress(&mut ids, 9, "task-1", 5, 0, "");
    assert_eq!(event.data["percentage"], 0);
    let event = Event::progress(&mut ids, 9, "task-1", u64::MAX, 1, "");
    assert_eq!(event.data["percentage"], u64::MAX);
    let event = Event::progress(&mut ids, 9, "task-1", u64::MAX, 100, "");
    assert_eq!(event.data["percentage"], u64::MAX);
    let event = Event::progress(&mut ids, 9, "task-1", u64::MAX, 200, "");
    assert_eq!(event.data["percentage"], u64::MAX / 2);

    for (level, expected) in [
        ("info", event_types::LOG_INFO),
        ("warn", event_types::LOG_WARN),
        ("warning", event_types::LOG_WARN),
        ("error", event_types::LOG_ERROR),
        ("stdout", event_types::LOG_STDOUT),
        ("stderr", event_types::LOG_STDERR),
        ("debug", event_types::LOG_INFO),
        ("", event_types::LOG_INFO),
    ] {
        let event = Event::log(&mut ids, 9, "task-1", level, "line");
        assert_eq!(event.event_type, expected);
        assert_eq!(event.data["level"], level);
        assert_eq!(event.data["message"], "line");
        assert_eq!(event.resource_id.as_deref(), Some("task-1"));
    }
    assert_eq!(Event::stdout(&mut ids, 9, "t", "x").event_type, "log.stdout");
    assert_eq!(Event::stderr(&mut ids, 9, "t", "x").event_type, "log.stderr");
    assert_eq!(Event::stderr(&mut ids, 9, "t", "x").data["level"], "stderr");
}

fn matches(pattern: &str, text: &str) -> bool {
    pattern_matches_chars(&chars_of(pattern), &chars_of(text))
}

#[test]
fn patterns_match_as_documented() {
    // A pattern that ends in ".*" matches by the prefix before it.
    assert!(matches("task.*", "task.started"));
    assert!(matches("task.*", "task"));
    assert!(matches("task.*", "tasks.all"));
    assert!(!matches("task.*", "tas"));
    assert!(!matches("task.*", "log.task.started"));
    assert!(matches(".*", ""));
    assert!(matches(".*", "anything"));
    assert!(matches("a*.*", "a*x"));
    assert!(!matches("a*.*", "abx"));

    // Any other pattern with a star is a glob.
    assert!(matches("task.*.done", "task.upload.done"));
    assert!(matches("task.*.done", "task..done"));
    assert!(matches("task.*.done", "task.upload.done.later"));
    assert!(!matches("task.*.done", "a.task.upload.done"));
    assert!(!matches("task.*.done", "task.upload"));
    assert!(!matches("task.*.done", "task.done"));
    assert!(matches("*.done", "task.done"));
    assert!(matches("*.done", ".done"));
    assert!(matches("*.done", "x.done.y"));
    assert!(!matches("*.done", "done"));
    assert!(matches("*", ""));
    assert!(matches("*", "anything"));
    assert!(matches("**", "anything"));
    assert!(matches("a*b*c", "abc"));
    assert!(matches("a*b*c", "a1b2c3"));
    assert!(!matches("a*b*c", "acb"));
    assert!(!matches("a*b*c", "ab"));
    assert!(matches("ab*ab", "abab"));
    assert!(!matches("ab*ab", "aba"));
    assert!(matches("a*a", "aa"));
    assert!(!matches("a*a", "a"));
    assert!(matches("tä*k", "täsk"));

    // A pattern without a star matches the equal text.
    assert!(matches("task.started", "task.started"));
    assert!(!matches("task.started", "task.started2"));
    assert!(!matches("task.started", "task.starte"));
    assert!(matches("", ""));
    assert!(!matches("", "x"));
    assert!(matches("task.", "task."));
}

#[test]
fn empty_filter_matches_every_event() {
    let mut ids = EventIds::new();
    let filter = EventFilter::new();
    let default = EventFilter::default();
    for event in [
        Event::new(&mut ids, 0, "", empty()),
        Event::new(&mut ids, u64::MAX, "task.started", empty()),
        Event::with_resource(&mut ids, 5, "x", "", serde_json::Value::Null),
    ] {
        assert!(filter.matches(&event));
        assert!(default.matches(&event));
    }
}

#[test]
fn filter_checks_every_dimension() {
    let mut ids = EventIds::new();
    let filter = EventFilter::new()
        .event_type("log.*")
        .event_type("task.started")
        .resource("a")
        .resource("b")
        .since(100)
        .until(200);
    let good = Event::with_resource(&mut ids, 100, "task.started", "b", empty());
    assert!(filter.matches(&good));
    assert!(filter.matches(&Event::with_resource(&mut ids, 200, "log.x", "a", empty())));
    assert!(!filter.matches(&Event::with_resource(&mut ids, 99, "log.x", "a", empty())));
    assert!(!filter.matches(&Event::with_resource(&mut ids, 201, "log.x", "a", empty())));
    assert!(!filter.matches(&Event::with_resource(&mut ids, 150, "log.x", "c", empty())));
    assert!(!filter.matches(&Event::with_resource(&mut ids, 150, "task.stopped", "a", empty())));
    assert!(!filter.matches(&Event::new(&mut ids, 150, "log.x", empty())));

    let none = EventFilter { event_types: Some(Vec::new()), resource_ids: None, since: None, until: None };
    assert!(!none.matches(&good));
}

#[test]
fn event_filtering_scenario() {
    let mut ids = EventIds::new();
    let mut bus = EventBus::default();
    let tasks = bus.subscribe(EventFilter::new().event_type("task.*"));
    let all = bus.subscribe(EventFilter::new());

    bus.publish(Event::new(&mut ids, 0, "task.started", empty())).unwrap();
    bus.publish(Event::new(&mut ids, 0, "log.info", empty())).unwrap();

    assert_eq!(types(&tasks.try_iter(&mut bus)), vec!["task.started"]);
    assert_eq!(types(&all.try_iter(&mut bus)), vec!["task.started", "log.info"]);
    assert!(tasks.try_recv(&mut bus).is_none());
}

#[test]
fn drop_newest_backpressure_scenario() {
    let mut ids = EventIds::new();
    let mut bus = EventBus::new(EventBusConfig {
        history_size: 10,
        subscriber_buffer: 1,
        slow_consumer: SlowConsumerPolicy::DropNewest,
    });
    let subscriber = bus.subscribe(EventFilter::new());

    bus.publish(Event::new(&mut ids, 0, "first", empty())).unwrap();
    bus.publish(Event::new(&mut ids, 0, "second", empty())).unwrap();

    assert_eq!(subscriber.try_recv(&mut bus).unwrap().event_type, "first");
    assert!(subscriber.try_recv(&mut bus).is_none());
    assert!(matches!(subscriber.recv(&mut bus), Err(IpcError::WouldBlock)));

    bus.publish(Event::new(&mut ids, 0, "third", empty())).unwrap();
    assert_eq!(subscriber.recv(&mut bus).unwrap().event_type, "third");
    assert_eq!(types(&bus.history(&EventFilter::new())), vec!["first", "second", "third"]);
}

#[test]
fn drop_oldest_keeps_what_is_buffered() {
    let mut ids = EventIds::new();
    let mut bus = EventBus::new(EventBusConfig {
        history_size: 10,
        subscriber_buffer: 2,
        slow_consumer: SlowConsumerPolicy::DropOldest,
    });
    assert_eq!(SlowConsumerPolicy::default(), SlowConsumerPolicy::DropOldest);
    let subscriber = bus.subscribe(EventFilter::new());
    for name in ["a", "b", "c", "d"] {
        bus.publish(Event::new(&mut ids, 0, name, empty())).unwrap();
    }
    assert_eq!(types(&subscriber.try_iter(&mut bus)), vec!["a", "b"]);
}

#[test]
fn block_policy_holds_the_publisher_back() {
    let mut ids = EventIds::new();
    let mut bus = EventBus::new(EventBusConfig {
        history_size: 10,
        subscriber_buffer: 1,
        slow_consumer: SlowConsumerPolicy::Block,
    });
    let slow = bus.subscribe(EventFilter::new().event_type("task.*"));
    let other = bus.subscribe(EventFilter::new());

    bus.publish(Event::new(&mut ids, 0, "task.one", empty())).unwrap();
    assert!(!bus.has_pending());
    assert_eq!(types(&other.try_iter(&mut bus)), vec!["task.one"]);

    // The slow subscriber is full: the event is recorded, the subscriber
    // with room gets it, and the publisher is told to wait for the other.
    let blocked = bus.publish(Event::new(&mut ids, 0, "task.two", empty()));
    assert!(matches!(blocked, Err(IpcError::WouldBlock)));
    assert_eq!(types(&bus.history(&EventFilter::new())), vec!["task.one", "task.two"]);
    assert_eq!(types(&other.try_iter(&mut bus)), vec!["task.two"]);
    assert!(bus.has_pending());
    assert!(matches!(bus.deliver_pending(), Err(IpcError::WouldBlock)));

    // An event that the full subscriber does not want passes.
    bus.publish(Event::new(&mut ids, 0, "log.one", empty())).unwrap();
    assert_eq!(types(&other.try_iter(&mut bus)), vec!["log.one"]);

    // A later event that it wants waits behind the first.
    let behind = bus.publish(Event::new(&mut ids, 0, "task.three", empty()));
    assert!(matches!(behind, Err(IpcError::WouldBlock)));

    assert_eq!(slow.try_recv(&mut bus).unwrap().event_type, "task.one");
    assert!(matches!(bus.deliver_pending(), Err(IpcError::WouldBlock)));
    assert_eq!(slow.try_recv(&mut bus).unwrap().event_type, "task.two");
    bus.deliver_pending().unwrap();
    assert!(!bus.has_pending());
    assert_eq!(slow.try_recv(&mut bus).unwrap().event_type, "task.three");
    assert!(slow.try_recv(&mut bus).is_none());
    assert_eq!(
        types(&bus.history(&EventFilter::new())),
        vec!["task.one", "task.two", "log.one", "task.three"]
    );
}

#[test]
fn nothing_waits_under_the_dropping_policies() {
    for policy in [SlowConsumerPolicy::DropOldest, SlowConsumerPolicy::DropNewest] {
        let mut ids = EventIds::new();
        let mut bus = EventBus::new(EventBusConfig {
            history_size: 10,
            subscriber_buffer: 1,
            slow_consumer: policy,
        });
        let subscriber = bus.subscribe(EventFilter::new());
        bus.publish(Event::new(&mut ids, 0, "a", empty())).unwrap();
        bus.publish(Event::new(&mut ids, 0, "b", empty())).unwrap();
        assert!(!bus.has_pending());
        bus.deliver_pending().unwrap();
        assert_eq!(types(&subscriber.try_iter(&mut bus)), vec!["a"]);
        assert_eq!(types(&bus.history(&EventFilter::new())), vec!["a", "b"]);
    }
}

#[test]
fn unsubscribing_ends_the_wait() {
    let mut ids = EventIds::new();
    let mut bus = EventBus::new(EventBusConfig {
        history_size: 10,
        subscriber_buffer: 1,
        slow_consumer: SlowConsumerPolicy::Block,
    });
    let slow = bus.subscribe(EventFilter::new());
    bus.publish(Event::new(&mut ids, 0, "a", empty())).unwrap();
    assert!(matches!(bus.publish(Event::new(&mut ids, 0, "b", empty())), Err(IpcError::WouldBlock)));
    assert!(bus.has_pending());
    bus.unsubscribe(slow);
    assert!(!bus.has_pending());
    bus.deliver_pending().unwrap();
    bus.publish(Event::new(&mut ids, 0, "c", empty())).unwrap();
}

#[test]
fn history_is_bounded_and_filtered() {
    let mut ids = EventIds::new();
    let mut bus = EventBus::new(EventBusConfig {
        history_size: 3,
        subscriber_buffer: 4,
        slow_consumer: SlowConsumerPolicy::DropNewest,
    });
    assert_eq!(bus.config().history_size, 3);
    for i in 0..10u64 {
        let name = if i % 2 == 0 { "even.n" } else { "odd.n" };
        bus.publish(Event::new(&mut ids, i, name, empty())).unwrap();
        assert!(bus.history(&EventFilter::new()).len() <= 3);
    }
    let history = bus.history(&EventFilter::new());
    assert_eq!(history.iter().map(|e| e.timestamp).collect::<Vec<_>>(), vec![7, 8, 9]);
    let odd = bus.history(&EventFilter::new().event_type("odd.*"));
    assert_eq!(odd.iter().map(|e| e.timestamp).collect::<Vec<_>>(), vec![7, 9]);

    let mut none = EventBus::new(EventBusConfig {
        history_size: 0,
        subscriber_buffer: 4,
        slow_consumer: SlowConsumerPolicy::DropNewest,
    });
    none.publish(Event::new(&mut ids, 0, "x", empty())).unwrap();
    assert!(none.history(&EventFilter::new()).is_empty());
}

#[test]
fn subscriber_receives_in_publication_order() {
    let mut ids = EventIds::new();
    let mut bus = EventBus::new(EventBusConfig {
        history_size: 100,
        subscriber_buffer: 3,
        slow_consumer: SlowConsumerPolicy::DropNewest,
    });
    let subscriber = bus.subscribe(EventFilter::new().event_type("keep.*"));
    assert_eq!(bus.subscriber_count(), 1);
    let mut received = Vec::new();
    for i in 0..20u64 {
        let name = if i % 3 == 0 { "skip.it" } else { "keep.it" };
        bus.publish(Event::new(&mut ids, i, name, empty())).unwrap();
        if i % 5 == 4 {
            while let Some(event) = subscriber.try_recv(&mut bus) {
                assert_eq!(event.event_type, "keep.it");
                received.push(event.timestamp);
            }
        }
    }
    let mut sorted = received.clone();
    sorted.sort();
    sorted.dedup();
    assert_eq!(received, sorted);
    assert_eq!(received, vec![1, 2, 4, 5, 7, 8, 10, 11, 13, 16, 17, 19]);
}

#[test]
fn unsubscribed_subscriber_is_closed() {
    let mut ids = EventIds::new();
    let mut bus = EventBus::default();
    let gone = bus.subscribe(EventFilter::new());
    let stays = bus.subscribe(EventFilter::new());
    bus.publish(Event::new(&mut ids, 0, "one", empty())).unwrap();
    assert!(gone.filter(&bus).is_some());
    let again = bus.subscribe(EventFilter::new());
    bus.unsubscribe(gone);
    bus.publish(Event::new(&mut ids, 0, "two", empty())).unwrap();
    assert_eq!(types(&stays.try_iter(&mut bus)), vec!["one", "two"]);
    assert_eq!(types(&again.try_iter(&mut bus)), vec!["two"]);
    assert!(matches!(again.recv_timeout(&mut bus, 10, 10), Err(IpcError::Timeout)));
    assert!(matches!(again.recv_timeout(&mut bus, 9, 10), Err(IpcError::WouldBlock)));

    let mut other = EventBus::default();
    let foreign = other.subscribe(EventFilter::new());
    let mut empty_bus = EventBus::default();
    assert!(foreign.try_recv(&mut empty_bus).is_none());
    assert!(matches!(foreign.recv(&mut empty_bus), Err(IpcError::Closed)));
    assert!(foreign.filter(&empty_bus).is_none());
}
