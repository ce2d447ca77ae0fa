//! Events, filters, and the bus that fans events out to subscribers.

use crate::error::{IpcError, Result};
use crate::json::{
    add_entry, empty_object, json_clone, json_members, json_object, json_string, json_u64,
    member_text, member_unsigned, members_of, object_with,
};
use crate::pattern::{pattern_matches, pattern_matches_chars};
use crate::text::{chars_of, str_eq, texts};
use std::collections::VecDeque;
use vstd::prelude::*;

pub mod event_types;

verus! {

/// A unique event identifier.
pub type EventId = u64;

/// The source of event identifiers: 1, 2, 3 and so on.
#[derive(Debug, Clone, Copy)]
pub struct EventIds {
    next: u64,
}

/// The identifier that follows `id`. After `u64::MAX` the count begins again
/// at zero.
pub open spec fn id_after(id: u64) -> u64 {
    if id == u64::MAX {
        0
    } else {
        (id + 1) as u64
    }
}

impl EventIds {
    /// The identifier that the next event gets.
    pub closed spec fn upcoming(&self) -> u64 {
        self.next
    }

    /// A source whose first identifier is 1.
    pub fn new() -> (ids: Self)
        ensures
            ids.upcoming() == 1,
    {
        EventIds { next: 1 }
    }

    /// Takes the next identifier.
    pub fn next_id(&mut self) -> (id: EventId)
        ensures
            id == old(self).upcoming(),
            final(self).upcoming() == id_after(id),
    {
        let id = self.next;
        self.next = if id == u64::MAX {
            0
        } else {
            id + 1
        };
        id
    }
}

/// An event that can be published and subscribed to.
#[derive(Debug)]
pub struct Event {
    /// Unique event ID.
    pub id: EventId,
    /// When the event was created, in milliseconds since the Unix epoch.
    pub timestamp: u64,
    /// Event type (e.g., "task.progress", "log.stdout", "task.completed").
    pub event_type: String,
    /// Associated resource ID (e.g., a task id).
    pub resource_id: Option<String>,
    /// Event data.
    pub data: serde_json::Value,
}

impl Clone for Event {
    fn clone(&self) -> (r: Self)
        ensures
            r == *self,
    {
        let resource_id = match &self.resource_id {
            Some(id) => Some(id.clone()),
            None => None,
        };
        Event {
            id: self.id,
            timestamp: self.timestamp,
            event_type: self.event_type.clone(),
            resource_id,
            data: json_clone(&self.data),
        }
    }
}

/// The share of `current` in `total`, in hundredths and rounded down; zero
/// where `total` is zero, and `u64::MAX` where the share is larger than that.
pub open spec fn percentage_of(current: u64, total: u64) -> u64 {
    if total == 0 {
        0
    } else if (current * 100) / (total as int) > u64::MAX {
        u64::MAX
    } else {
        ((current * 100) / (total as int)) as u64
    }
}

/// The event type of a log line of the given level.
pub open spec fn log_event_type(level: Seq<char>) -> Seq<char> {
    if level == "info"@ {
        event_types::LOG_INFO@
    } else if level == "warn"@ || level == "warning"@ {
        event_types::LOG_WARN@
    } else if level == "error"@ {
        event_types::LOG_ERROR@
    } else if level == "stdout"@ {
        event_types::LOG_STDOUT@
    } else if level == "stderr"@ {
        event_types::LOG_STDERR@
    } else {
        event_types::LOG_INFO@
    }
}

impl Event {
    /// A new event of the given type, with the next identifier of `ids` and
    /// the time `now`.
    pub fn new(ids: &mut EventIds, now: u64, event_type: &str, data: serde_json::Value) -> (e:
        Self)
        ensures
            e.id == old(ids).upcoming(),
            final(ids).upcoming() == id_after(e.id),
            e.timestamp == now,
            e.event_type@ == event_type@,
            e.resource_id is None,
            e.data == data,
    {
        Event {
            id: ids.next_id(),
            timestamp: now,
            event_type: String::from_str(event_type),
            resource_id: None,
            data,
        }
    }

    /// A new event that belongs to a resource.
    pub fn with_resource(
        ids: &mut EventIds,
        now: u64,
        event_type: &str,
        resource_id: &str,
        data: serde_json::Value,
    ) -> (e: Self)
        ensures
            e.id == old(ids).upcoming(),
            final(ids).upcoming() == id_after(e.id),
            e.timestamp == now,
            e.event_type@ == event_type@,
            e.resource_id is Some,
            e.resource_id->Some_0@ == resource_id@,
            e.data == data,
    {
        Event {
            id: ids.next_id(),
            timestamp: now,
            event_type: String::from_str(event_type),
            resource_id: Some(String::from_str(resource_id)),
            data,
        }
    }

    /// A progress event: `current` of `total`, the share in hundredths, and a
    /// message.
    pub fn progress(
        ids: &mut EventIds,
        now: u64,
        resource_id: &str,
        current: u64,
        total: u64,
        message: &str,
    ) -> (e: Self)
        ensures
            e.id == old(ids).upcoming(),
            final(ids).upcoming() == id_after(e.id),
            e.timestamp == now,
            e.event_type@ == event_types::TASK_PROGRESS@,
            e.resource_id is Some,
            e.resource_id->Some_0@ == resource_id@,
            member_unsigned(e.data, "current"@) == Some(current),
            member_unsigned(e.data, "total"@) == Some(total),
            member_unsigned(e.data, "percentage"@) == Some(percentage_of(current, total)),
            member_text(e.data, "message"@) == Some(message@),
            json_members(e.data).dom() =~= set!["current"@, "total"@, "percentage"@, "message"@],
    {
        let percentage: u64 = if total == 0 {
            0
        } else {
            let share: u128 = (current as u128 * 100) / (total as u128);
            if share > u64::MAX as u128 {
                u64::MAX
            } else {
                share as u64
            }
        };
        let mut entries: Vec<(String, serde_json::Value)> = Vec::new();
        proof {
            assert(members_of(entries@) =~= Map::empty());
            reveal_strlit("current");
            reveal_strlit("total");
            reveal_strlit("percentage");
            reveal_strlit("message");
            assert("current"@[0] != "total"@[0]);
            assert("current"@[0] != "percentage"@[0]);
            assert("current"@[0] != "message"@[0]);
            assert("total"@[0] != "percentage"@[0]);
            assert("total"@[0] != "message"@[0]);
            assert("percentage"@[0] != "message"@[0]);
        }
        add_entry(&mut entries, "current", json_u64(current));
        add_entry(&mut entries, "total", json_u64(total));
        add_entry(&mut entries, "percentage", json_u64(percentage));
        add_entry(&mut entries, "message", json_string(message));
        Event::with_resource(
            ids,
            now,
            event_types::TASK_PROGRESS,
            resource_id,
            json_object(entries),
        )
    }

    /// A log event. The level picks the event type; a level that is not
    /// known counts as `info`.
    pub fn log(ids: &mut EventIds, now: u64, resource_id: &str, level: &str, message: &str) -> (e:
        Self)
        ensures
            e.id == old(ids).upcoming(),
            final(ids).upcoming() == id_after(e.id),
            e.timestamp == now,
            e.event_type@ == log_event_type(level@),
            e.resource_id is Some,
            e.resource_id->Some_0@ == resource_id@,
            member_text(e.data, "level"@) == Some(level@),
            member_text(e.data, "message"@) == Some(message@),
            json_members(e.data).dom() =~= set!["level"@, "message"@],
    {
        let event_type = if str_eq(level, "info") {
            event_types::LOG_INFO
        } else if str_eq(level, "warn") || str_eq(level, "warning") {
            event_types::LOG_WARN
        } else if str_eq(level, "error") {
            event_types::LOG_ERROR
        } else if str_eq(level, "stdout") {
            event_types::LOG_STDOUT
        } else if str_eq(level, "stderr") {
            event_types::LOG_STDERR
        } else {
            event_types::LOG_INFO
        };
        let mut entries: Vec<(String, serde_json::Value)> = Vec::new();
        proof {
            assert(members_of(entries@) =~= Map::empty());
            reveal_strlit("level");
            reveal_strlit("message");
            assert("level"@[0] != "message"@[0]);
        }
        add_entry(&mut entries, "level", json_string(level));
        add_entry(&mut entries, "message", json_string(message));
        Event::with_resource(ids, now, event_type, resource_id, json_object(entries))
    }

    /// A log event for a line on standard output.
    pub fn stdout(ids: &mut EventIds, now: u64, resource_id: &str, line: &str) -> (e: Self)
        ensures
            e.id == old(ids).upcoming(),
            final(ids).upcoming() == id_after(e.id),
            e.timestamp == now,
            e.event_type@ == event_types::LOG_STDOUT@,
            e.resource_id is Some,
            e.resource_id->Some_0@ == resource_id@,
            member_text(e.data, "level"@) == Some("stdout"@),
            member_text(e.data, "message"@) == Some(line@),
            json_members(e.data).dom() =~= set!["level"@, "message"@],
    {
        proof {
            reveal_strlit("stdout");
            reveal_strlit("info");
            reveal_strlit("warn");
            reveal_strlit("warning");
            reveal_strlit("error");
            assert("stdout"@.len() == 6 && "info"@.len() == 4 && "warn"@.len() == 4);
            assert("warning"@.len() == 7 && "error"@.len() == 5);
        }
        Event::log(ids, now, resource_id, "stdout", line)
    }

    /// A log event for a line on standard error.
    pub fn stderr(ids: &mut EventIds, now: u64, resource_id: &str, line: &str) -> (e: Self)
        ensures
            e.id == old(ids).upcoming(),
            final(ids).upcoming() == id_after(e.id),
            e.timestamp == now,
            e.event_type@ == event_types::LOG_STDERR@,
            e.resource_id is Some,
            e.resource_id->Some_0@ == resource_id@,
            member_text(e.data, "level"@) == Some("stderr"@),
            member_text(e.data, "message"@) == Some(line@),
            json_members(e.data).dom() =~= set!["level"@, "message"@],
    {
        proof {
            reveal_strlit("stderr");
            reveal_strlit("stdout");
            reveal_strlit("info");
            reveal_strlit("warn");
            reveal_strlit("warning");
            reveal_strlit("error");
            assert("stderr"@.len() == 6 && "info"@.len() == 4 && "warn"@.len() == 4);
            assert("warning"@.len() == 7 && "error"@.len() == 5);
            assert("stderr"@[3] != "stdout"@[3]);
        }
        Event::log(ids, now, resource_id, "stderr", line)
    }
}

/// Whether one of `patterns` matches `text`.
pub open spec fn some_pattern_matches(patterns: Seq<Seq<char>>, text: Seq<char>) -> bool {
    exists|i: int| 0 <= i < patterns.len() && pattern_matches(#[trigger] patterns[i], text)
}

/// Event filter for subscribing to specific events.
#[derive(Debug)]
pub struct EventFilter {
    /// Event type patterns (supports wildcards like "task.*").
    pub event_types: Option<Vec<String>>,
    /// Resource ID filter.
    pub resource_ids: Option<Vec<String>>,
    /// Events before this time are left out.
    pub since: Option<u64>,
    /// Events after this time are left out.
    pub until: Option<u64>,
}

impl EventFilter {
    /// The patterns of the filter, where it has any.
    pub open spec fn patterns(self) -> Option<Seq<Seq<char>>> {
        match self.event_types {
            Some(list) => Some(texts(list@)),
            None => None,
        }
    }

    /// The resource IDs of the filter, where it has any.
    pub open spec fn resources(self) -> Option<Seq<Seq<char>>> {
        match self.resource_ids {
            Some(list) => Some(texts(list@)),
            None => None,
        }
    }

    /// Whether the filter lets `event` pass: every dimension that the filter
    /// configures agrees with the event.
    pub open spec fn accepts(self, event: Event) -> bool {
        &&& self.patterns() matches Some(patterns) ==> some_pattern_matches(
            patterns,
            event.event_type@,
        )
        &&& self.resources() matches Some(ids) ==> event.resource_id is Some && ids.contains(
            event.resource_id->Some_0@,
        )
        &&& self.since matches Some(t) ==> event.timestamp >= t
        &&& self.until matches Some(t) ==> event.timestamp <= t
    }

    /// An empty filter, which lets every event pass.
    pub fn new() -> (f: Self)
        ensures
            f.patterns() is None,
            f.resources() is None,
            f.since is None,
            f.until is None,
            forall|event: Event| f.accepts(event),
    {
        EventFilter { event_types: None, resource_ids: None, since: None, until: None }
    }

    /// Adds an event type pattern to the filter.
    pub fn event_type(self, pattern: &str) -> (f: Self)
        ensures
            f.patterns() == Some(
                match self.patterns() {
                    Some(list) => list.push(pattern@),
                    None => seq![pattern@],
                },
            ),
            f.resources() == self.resources(),
            f.since == self.since,
            f.until == self.until,
    {
        let mut list = match self.event_types {
            Some(list) => list,
            None => Vec::new(),
        };
        let ghost before = list@;
        list.push(String::from_str(pattern));
        proof {
            assert(texts(list@) =~= texts(before).push(pattern@));
            assert(texts(Seq::<String>::empty()).push(pattern@) =~= seq![pattern@]);
        }
        EventFilter {
            event_types: Some(list),
            resource_ids: self.resource_ids,
            since: self.since,
            until: self.until,
        }
    }

    /// Adds a resource ID to the filter.
    pub fn resource(self, id: &str) -> (f: Self)
        ensures
            f.resources() == Some(
                match self.resources() {
                    Some(list) => list.push(id@),
                    None => seq![id@],
                },
            ),
            f.patterns() == self.patterns(),
            f.since == self.since,
            f.until == self.until,
    {
        let mut list = match self.resource_ids {
            Some(list) => list,
            None => Vec::new(),
        };
        let ghost before = list@;
        list.push(String::from_str(id));
        proof {
            assert(texts(list@) =~= texts(before).push(id@));
            assert(texts(Seq::<String>::empty()).push(id@) =~= seq![id@]);
        }
        EventFilter {
            event_types: self.event_types,
            resource_ids: Some(list),
            since: self.since,
            until: self.until,
        }
    }

    /// Sets the start of the time range.
    pub fn since(self, time: u64) -> (f: Self)
        ensures
            f.since == Some(time),
            f.patterns() == self.patterns(),
            f.resources() == self.resources(),
            f.until == self.until,
    {
        EventFilter {
            event_types: self.event_types,
            resource_ids: self.resource_ids,
            since: Some(time),
            until: self.until,
        }
    }

    /// Sets the end of the time range.
    pub fn until(self, time: u64) -> (f: Self)
        ensures
            f.until == Some(time),
            f.patterns() == self.patterns(),
            f.resources() == self.resources(),
            f.since == self.since,
    {
        EventFilter {
            event_types: self.event_types,
            resource_ids: self.resource_ids,
            since: self.since,
            until: Some(time),
        }
    }

    /// Check if an event matches this filter.
    pub fn matches(&self, event: &Event) -> (b: bool)
        ensures
            b == self.accepts(*event),
    {
        match &self.event_types {
            Some(patterns) => {
                if !any_pattern_matches(patterns, event.event_type.as_str()) {
                    return false;
                }
            },
            None => {},
        }
        match &self.resource_ids {
            Some(ids) => {
                match &event.resource_id {
                    Some(resource) => {
                        if !contains_text(ids, resource.as_str()) {
                            return false;
                        }
                    },
                    None => {
                        return false;
                    },
                }
            },
            None => {},
        }
        match self.since {
            Some(since) => {
                if event.timestamp < since {
                    return false;
                }
            },
            None => {},
        }
        match self.until {
            Some(until) => {
                if event.timestamp > until {
                    return false;
                }
            },
            None => {},
        }
        true
    }
}

impl Default for EventFilter {
    fn default() -> (f: Self)
        ensures
            forall|event: Event| f.accepts(event),
    {
        EventFilter::new()
    }
}

/// Whether one of `patterns` matches `text`.
fn any_pattern_matches(patterns: &Vec<String>, text: &str) -> (b: bool)
    ensures
        b == some_pattern_matches(texts(patterns@), text@),
{
    let chars = chars_of(text);
    let mut i: usize = 0;
    while i < patterns.len()
        invariant
            i <= patterns@.len(),
            chars@ == text@,
            forall|j: int| 0 <= j < i ==> !pattern_matches(#[trigger] texts(patterns@)[j], text@),
        decreases patterns@.len() - i,
    {
        let pattern = chars_of(patterns[i].as_str());
        if pattern_matches_chars(&pattern, &chars) {
            assert(pattern_matches(texts(patterns@)[i as int], text@));
            return true;
        }
        i += 1;
    }
    false
}

/// Whether `list` holds a string with the text of `wanted`.
fn contains_text(list: &Vec<String>, wanted: &str) -> (b: bool)
    ensures
        b == texts(list@).contains(wanted@),
{
    let mut i: usize = 0;
    while i < list.len()
        invariant
            i <= list@.len(),
            forall|j: int| 0 <= j < i ==> texts(list@)[j] != wanted@,
        decreases list@.len() - i,
    {
        if str_eq(list[i].as_str(), wanted) {
            assert(texts(list@)[i as int] == wanted@);
            return true;
        }
        i += 1;
    }
    false
}

/// Policy for handling slow consumers.
#[derive(Debug, Clone, Copy, PartialEq, Eq, Structural)]
pub enum SlowConsumerPolicy {
    /// Drop an event for a subscriber whose buffer is full. Events that are
    /// buffered already stay.
    DropOldest,
    /// Drop an event for a subscriber whose buffer is full.
    DropNewest,
    /// Hold the publisher back until every subscriber has room.
    Block,
}

impl Default for SlowConsumerPolicy {
    fn default() -> (p: Self)
        ensures
            p == SlowConsumerPolicy::DropOldest,
    {
        SlowConsumerPolicy::DropOldest
    }
}

/// Configuration for the event bus.
#[derive(Debug, Clone, Copy)]
pub struct EventBusConfig {
    /// Number of events to keep in history.
    pub history_size: usize,
    /// Buffer size per subscriber.
    pub subscriber_buffer: usize,
    /// Policy for slow consumers.
    pub slow_consumer: SlowConsumerPolicy,
}

impl Default for EventBusConfig {
    fn default() -> (c: Self)
        ensures
            c.history_size == 1000,
            c.subscriber_buffer == 256,
            c.slow_consumer == SlowConsumerPolicy::DropOldest,
    {
        EventBusConfig {
            history_size: 1000,
            subscriber_buffer: 256,
            slow_consumer: SlowConsumerPolicy::DropOldest,
        }
    }
}

/// One subscription as the bus holds it.
pub struct SubscriptionModel {
    /// The filter that the subscriber gave.
    pub filter: EventFilter,
    /// The events accepted for the subscriber and not yet received, oldest
    /// first.
    pub queue: Seq<Event>,
    /// The events that publishers wait to deliver, oldest first: accepted
    /// for the subscriber under the `Block` policy while its buffer was full.
    pub waiting: Seq<Event>,
    /// Whether the subscriber still listens.
    pub connected: bool,
}

/// The mathematical model of an event bus.
pub struct BusModel {
    /// The configuration that the bus was made with.
    pub config: EventBusConfig,
    /// The retained events, oldest first.
    pub history: Seq<Event>,
    /// The subscriptions, in the order in which they were made.
    pub subscriptions: Seq<SubscriptionModel>,
}

/// The last `limit` elements of `events`, or all of them where they are fewer.
pub open spec fn keep_last(events: Seq<Event>, limit: nat) -> Seq<Event> {
    if events.len() > limit {
        events.skip(events.len() - limit)
    } else {
        events
    }
}

/// The index of the first event of `queue` that `filter` accepts, or the
/// length of `queue` where it accepts none.
pub open spec fn first_accepted(filter: EventFilter, queue: Seq<Event>) -> int
    decreases queue.len(),
{
    if queue.len() == 0 {
        0
    } else if filter.accepts(queue[0]) {
        0
    } else {
        1 + first_accepted(filter, queue.drop_first())
    }
}

impl SubscriptionModel {
    /// Whether the bus offers `event` to this subscription.
    pub open spec fn wants(self, event: Event) -> bool {
        self.connected && self.filter.accepts(event)
    }

    /// Whether the buffer of the subscription is full.
    pub open spec fn full(self, capacity: nat) -> bool {
        self.queue.len() >= capacity
    }

    /// Whether the subscription cannot take an event into its buffer now:
    /// the buffer is full, or earlier events wait for it.
    pub open spec fn busy(self, capacity: nat) -> bool {
        self.full(capacity) || self.waiting.len() > 0
    }

    /// The subscription after the bus has published `event`. A subscription
    /// that does not want the event stays as it is. One that wants it takes
    /// it into its buffer where it can; where it cannot, the event waits for
    /// it under the `Block` policy and is lost to it under the others.
    pub open spec fn offer(self, event: Event, capacity: nat, policy: SlowConsumerPolicy) -> SubscriptionModel {
        if !self.wants(event) {
            self
        } else if !self.busy(capacity) {
            SubscriptionModel { queue: self.queue.push(event), ..self }
        } else if policy == SlowConsumerPolicy::Block {
            SubscriptionModel { waiting: self.waiting.push(event), ..self }
        } else {
            self
        }
    }

    /// The number of waiting events that the buffer has room for.
    pub open spec fn room_for_waiting(self, capacity: nat) -> int {
        if self.queue.len() >= capacity {
            0
        } else if self.waiting.len() <= capacity - self.queue.len() {
            self.waiting.len() as int
        } else {
            capacity - self.queue.len()
        }
    }

    /// The subscription after the waiting events have moved into the buffer
    /// as far as it has room, oldest first.
    pub open spec fn settle(self, capacity: nat) -> SubscriptionModel {
        let k = self.room_for_waiting(capacity);
        SubscriptionModel {
            queue: self.queue + self.waiting.take(k),
            waiting: self.waiting.skip(k),
            ..self
        }
    }

    /// The event that the subscriber receives next: the oldest that its
    /// filter accepts.
    pub open spec fn next_event(self) -> Option<Event> {
        let k = first_accepted(self.filter, self.queue);
        if k < self.queue.len() {
            Some(self.queue[k])
        } else {
            None
        }
    }

    /// The subscription after the subscriber has asked for its next event.
    pub open spec fn after_receive(self) -> SubscriptionModel {
        let k = first_accepted(self.filter, self.queue);
        SubscriptionModel {
            queue: if k < self.queue.len() {
                self.queue.skip(k + 1)
            } else {
                Seq::empty()
            },
            ..self
        }
    }
}

impl BusModel {
    /// Whether the publisher of `event` has to wait for a delivery: the
    /// policy is `Block` and a subscription that wants the event cannot take
    /// it into its buffer now.
    pub open spec fn blocks(self, event: Event) -> bool {
        self.config.slow_consumer == SlowConsumerPolicy::Block && exists|i: int|
            0 <= i < self.subscriptions.len() && (#[trigger] self.subscriptions[i]).wants(event)
                && self.subscriptions[i].busy(self.config.subscriber_buffer as nat)
    }

    /// The bus after `event` has been published: the event is the last entry
    /// of the history, and every subscription has been offered it.
    pub open spec fn publish(self, event: Event) -> BusModel {
        BusModel {
            config: self.config,
            history: keep_last(self.history.push(event), self.config.history_size as nat),
            subscriptions: Seq::new(
                self.subscriptions.len(),
                |i: int|
                    self.subscriptions[i].offer(
                        event,
                        self.config.subscriber_buffer as nat,
                        self.config.slow_consumer,
                    ),
            ),
        }
    }

    /// Whether an event waits to be delivered.
    pub open spec fn pending(self) -> bool {
        exists|i: int|
            0 <= i < self.subscriptions.len() && (#[trigger] self.subscriptions[i]).waiting.len()
                > 0
    }

    /// The bus after the waiting events have moved into the buffers of their
    /// subscriptions as far as these have room.
    pub open spec fn settle(self) -> BusModel {
        BusModel {
            config: self.config,
            history: self.history,
            subscriptions: Seq::new(
                self.subscriptions.len(),
                |i: int| self.subscriptions[i].settle(self.config.subscriber_buffer as nat),
            ),
        }
    }

    /// The bus after a subscription with `filter` has been added.
    pub open spec fn subscribe(self, filter: EventFilter) -> BusModel {
        BusModel {
            config: self.config,
            history: self.history,
            subscriptions: self.subscriptions.push(
                SubscriptionModel {
                    filter,
                    queue: Seq::empty(),
                    waiting: Seq::empty(),
                    connected: true,
                },
            ),
        }
    }

    /// The bus after subscription `index` has been taken off.
    pub open spec fn unsubscribe(self, index: int) -> BusModel {
        if 0 <= index < self.subscriptions.len() {
            BusModel {
                config: self.config,
                history: self.history,
                subscriptions: self.subscriptions.update(
                    index,
                    SubscriptionModel {
                        filter: self.subscriptions[index].filter,
                        queue: Seq::empty(),
                        waiting: Seq::empty(),
                        connected: false,
                    },
                ),
            }
        } else {
            self
        }
    }

    /// The bus after subscriber `index` has asked for its next event.
    pub open spec fn receive(self, index: int) -> BusModel {
        if 0 <= index < self.subscriptions.len() {
            BusModel {
                config: self.config,
                history: self.history,
                subscriptions: self.subscriptions.update(
                    index,
                    self.subscriptions[index].after_receive(),
                ),
            }
        } else {
            self
        }
    }

    /// The bus after subscriber `index` has taken all that was buffered for
    /// it.
    pub open spec fn receive_all(self, index: int) -> BusModel {
        if 0 <= index < self.subscriptions.len() {
            BusModel {
                config: self.config,
                history: self.history,
                subscriptions: self.subscriptions.update(
                    index,
                    SubscriptionModel { queue: Seq::empty(), ..self.subscriptions[index] },
                ),
            }
        } else {
            self
        }
    }

    /// The events buffered for subscriber `index` that its filter accepts,
    /// oldest first.
    pub open spec fn buffered(self, index: int) -> Seq<Event> {
        if 0 <= index < self.subscriptions.len() {
            self.subscriptions[index].queue.filter(
                |event: Event| self.subscriptions[index].filter.accepts(event),
            )
        } else {
            Seq::empty()
        }
    }

    /// The event that subscriber `index` receives next.
    pub open spec fn next_event(self, index: int) -> Option<Event> {
        if 0 <= index < self.subscriptions.len() {
            self.subscriptions[index].next_event()
        } else {
            None
        }
    }

    /// The retained events that `filter` accepts, oldest first.
    pub open spec fn history_for(self, filter: EventFilter) -> Seq<Event> {
        self.history.filter(|event: Event| filter.accepts(event))
    }
}

/// One subscription: the filter, the buffer, and whether the subscriber
/// still listens.
#[derive(Debug)]
struct Subscription {
    filter: EventFilter,
    queue: VecDeque<Event>,
    waiting: VecDeque<Event>,
    connected: bool,
}

impl Subscription {
    spec fn model(self) -> SubscriptionModel {
        SubscriptionModel {
            filter: self.filter,
            queue: self.queue@,
            waiting: self.waiting@,
            connected: self.connected,
        }
    }
}

/// The handle of a subscriber: the place of its subscription in the bus.
#[derive(Debug)]
pub struct EventSubscriber {
    index: usize,
}

/// The event bus: a bounded history of what was published, and for every
/// subscriber a bounded buffer of the events that its filter accepts.
#[derive(Debug)]
pub struct EventBus {
    config: EventBusConfig,
    subscriptions: Vec<Subscription>,
    history: VecDeque<Event>,
}

impl View for EventBus {
    type V = BusModel;

    closed spec fn view(&self) -> BusModel {
        BusModel {
            config: self.config,
            history: self.history@,
            subscriptions: self.subscriptions@.map_values(|s: Subscription| s.model()),
        }
    }
}

impl EventSubscriber {
    /// The place of the subscription in its bus.
    pub closed spec fn place(&self) -> int {
        self.index as int
    }

    /// Takes the next event for this subscriber from `bus`, without waiting:
    /// the oldest buffered event that the subscriber's filter accepts.
    pub fn try_recv(&self, bus: &mut EventBus) -> (r: Option<Event>)
        ensures
            r == old(bus)@.next_event(self.place()),
            final(bus)@ == old(bus)@.receive(self.place()),
            r matches Some(event) ==> old(bus)@.subscriptions[self.place()].filter.accepts(event),
    {
        bus.take_next(self.index)
    }

    /// Takes the next event for this subscriber. Fails with `WouldBlock`
    /// where none is buffered and the caller has to wait for a publisher, and
    /// with `Closed` where none is buffered and the subscription was taken
    /// off the bus.
    pub fn recv(&self, bus: &mut EventBus) -> (r: Result<Event>)
        ensures
            final(bus)@ == old(bus)@.receive(self.place()),
            match old(bus)@.next_event(self.place()) {
                Some(event) => r == Ok::<Event, IpcError>(event),
                None => r == Err::<Event, IpcError>(
                    if 0 <= self.place() < old(bus)@.subscriptions.len()
                        && old(bus)@.subscriptions[self.place()].connected {
                        IpcError::WouldBlock
                    } else {
                        IpcError::Closed
                    },
                ),
            },
    {
        let listening = bus.is_connected(self.index);
        match bus.take_next(self.index) {
            Some(event) => Ok(event),
            None => {
                if listening {
                    Err(IpcError::WouldBlock)
                } else {
                    Err(IpcError::Closed)
                }
            },
        }
    }

    /// One step of receiving with a deadline: the next event where one is
    /// buffered; `Timeout` where none is and `waited_ms` has reached
    /// `timeout_ms`; `Closed` where the subscription was taken off the bus;
    /// `WouldBlock` where the caller has to wait and ask again.
    pub fn recv_timeout(&self, bus: &mut EventBus, waited_ms: u64, timeout_ms: u64) -> (r: Result<
        Event,
    >)
        ensures
            final(bus)@ == old(bus)@.receive(self.place()),
            match old(bus)@.next_event(self.place()) {
                Some(event) => r == Ok::<Event, IpcError>(event),
                None => r == Err::<Event, IpcError>(
                    if !(0 <= self.place() < old(bus)@.subscriptions.len()
                        && old(bus)@.subscriptions[self.place()].connected) {
                        IpcError::Closed
                    } else if waited_ms >= timeout_ms {
                        IpcError::Timeout
                    } else {
                        IpcError::WouldBlock
                    },
                ),
            },
    {
        let listening = bus.is_connected(self.index);
        match bus.take_next(self.index) {
            Some(event) => Ok(event),
            None => {
                if !listening {
                    Err(IpcError::Closed)
                } else if waited_ms >= timeout_ms {
                    Err(IpcError::Timeout)
                } else {
                    Err(IpcError::WouldBlock)
                }
            },
        }
    }

    /// Takes all buffered events for this subscriber from `bus`, oldest
    /// first: those that the subscriber's filter accepts.
    pub fn try_iter(&self, bus: &mut EventBus) -> (events: Vec<Event>)
        ensures
            final(bus)@ == old(bus)@.receive_all(self.place()),
            events@ == old(bus)@.buffered(self.place()),
    {
        bus.take_all(self.index)
    }

    /// The filter of this subscriber, where `bus` holds its subscription.
    pub fn filter<'a>(&self, bus: &'a EventBus) -> (r: Option<&'a EventFilter>)
        ensures
            match r {
                Some(filter) => 0 <= self.place() < bus@.subscriptions.len() && *filter
                    == bus@.subscriptions[self.place()].filter,
                None => !(0 <= self.place() < bus@.subscriptions.len()),
            },
    {
        if self.index < bus.subscriptions.len() {
            Some(&bus.subscriptions[self.index].filter)
        } else {
            None
        }
    }
}

/// What `first_accepted` finds: an index within the queue, an event that the
/// filter accepts where the index is inside, and none before it.
pub proof fn lemma_first_accepted(filter: EventFilter, queue: Seq<Event>)
    ensures
        0 <= first_accepted(filter, queue) <= queue.len(),
        first_accepted(filter, queue) < queue.len() ==> filter.accepts(
            queue[first_accepted(filter, queue)],
        ),
        forall|j: int| 0 <= j < first_accepted(filter, queue)
            ==> !filter.accepts(#[trigger] queue[j]),
    decreases queue.len(),
{
    if queue.len() > 0 && !filter.accepts(queue[0]) {
        let tail = queue.drop_first();
        lemma_first_accepted(filter, tail);
        assert forall|j: int| 0 <= j < first_accepted(filter, queue) implies !filter.accepts(
            #[trigger] queue[j],
        ) by {
            if j > 0 {
                assert(queue[j] == tail[j - 1]);
            }
        }
    }
}

/// The first accepted event is where a scan from the front finds it.
proof fn lemma_first_accepted_is(filter: EventFilter, queue: Seq<Event>, k: int)
    requires
        0 <= k <= queue.len(),
        forall|j: int| 0 <= j < k ==> !filter.accepts(#[trigger] queue[j]),
        k < queue.len() ==> filter.accepts(queue[k]),
    ensures
        first_accepted(filter, queue) == k,
{
    lemma_first_accepted(filter, queue);
    let found = first_accepted(filter, queue);
    if found < k {
        assert(filter.accepts(queue[found]));
    }
}

impl EventBus {
    /// A bus without subscribers and with an empty history.
    pub fn new(config: EventBusConfig) -> (bus: Self)
        ensures
            bus@ == (BusModel { config, history: Seq::empty(), subscriptions: Seq::empty() }),
    {
        let bus = EventBus { config, subscriptions: Vec::new(), history: VecDeque::new() };
        assert(bus@.subscriptions =~= Seq::empty());
        bus
    }

    /// The configuration of the bus.
    pub fn config(&self) -> (c: EventBusConfig)
        ensures
            c == self@.config,
    {
        self.config
    }

    /// The number of subscriptions ever made on this bus.
    pub fn subscriber_count(&self) -> (n: usize)
        ensures
            n == self@.subscriptions.len(),
    {
        self.subscriptions.len()
    }

    /// Subscribes with a filter. The subscriber gets a buffer of its own,
    /// empty at first, and the handle to read from it.
    pub fn subscribe(&mut self, filter: EventFilter) -> (subscriber: EventSubscriber)
        ensures
            final(self)@ == old(self)@.subscribe(filter),
            subscriber.place() == old(self)@.subscriptions.len(),
    {
        let index = self.subscriptions.len();
        self.subscriptions.push(
            Subscription {
                filter,
                queue: VecDeque::new(),
                waiting: VecDeque::new(),
                connected: true,
            },
        );
        assert(self@.subscriptions =~= old(self)@.subscribe(filter).subscriptions);
        EventSubscriber { index }
    }

    /// Takes a subscription off the bus: its buffer is emptied, what waits
    /// for it is given up, and no later event is offered to it.
    pub fn unsubscribe(&mut self, subscriber: EventSubscriber)
        ensures
            final(self)@ == old(self)@.unsubscribe(subscriber.place()),
    {
        let index = subscriber.index;
        if index < self.subscriptions.len() {
            self.subscriptions[index].connected = false;
            self.subscriptions[index].queue.clear();
            self.subscriptions[index].waiting.clear();
            assert(self@.subscriptions =~= old(self)@.unsubscribe(index as int).subscriptions);
        }
    }

    /// Whether the subscription at `index` exists and still listens.
    fn is_connected(&self, index: usize) -> (b: bool)
        ensures
            b == (0 <= index < self@.subscriptions.len()
                && self@.subscriptions[index as int].connected),
    {
        index < self.subscriptions.len() && self.subscriptions[index].connected
    }

    /// Takes the oldest event of subscription `index` that its filter accepts.
    /// Events before it that the filter does not accept are dropped.
    fn take_next(&mut self, index: usize) -> (r: Option<Event>)
        ensures
            r == old(self)@.next_event(index as int),
            final(self)@ == old(self)@.receive(index as int),
            r matches Some(event) ==> old(self)@.subscriptions[index as int].filter.accepts(event),
    {
        if index >= self.subscriptions.len() {
            return None;
        }
        let ghost before = self.subscriptions@[index as int].model();
        let total: usize = self.subscriptions[index].queue.len();
        let mut dropped: usize = 0;
        loop
            invariant
                index < self.subscriptions@.len(),
                total == before.queue.len(),
                self.subscriptions@.len() == old(self).subscriptions@.len(),
                self.config == old(self).config,
                self.history == old(self).history,
                before == old(self).subscriptions@[index as int].model(),
                forall|j: int|
                    0 <= j < self.subscriptions@.len() && j != index ==> self.subscriptions@[j]
                        == old(self).subscriptions@[j],
                self.subscriptions@[index as int].filter == before.filter,
                self.subscriptions@[index as int].waiting@ == before.waiting,
                self.subscriptions@[index as int].connected == before.connected,
                dropped <= before.queue.len(),
                self.subscriptions@[index as int].queue@ == before.queue.skip(dropped as int),
                forall|j: int| 0 <= j < dropped
                    ==> !before.filter.accepts(#[trigger] before.queue[j]),
            decreases before.queue.len() - dropped,
        {
            match self.subscriptions[index].queue.pop_front() {
                Some(event) => {
                    assert(event == before.queue[dropped as int]);
                    assert(self.subscriptions@[index as int].queue@ =~= before.queue.skip(
                        dropped + 1,
                    ));
                    if self.subscriptions[index].filter.matches(&event) {
                        proof {
                            lemma_first_accepted_is(before.filter, before.queue, dropped as int);
                            assert(self@.subscriptions =~= old(self)@.receive(
                                index as int,
                            ).subscriptions);
                        }
                        return Some(event);
                    }
                    dropped = dropped + 1;
                },
                None => {
                    proof {
                        lemma_first_accepted_is(before.filter, before.queue, dropped as int);
                        assert(self.subscriptions@[index as int].queue@ =~= Seq::empty());
                        assert(self@.subscriptions =~= old(self)@.receive(
                            index as int,
                        ).subscriptions);
                    }
                    return None;
                },
            }
        }
    }

    /// Takes all events of subscription `index` that its filter accepts.
    fn take_all(&mut self, index: usize) -> (events: Vec<Event>)
        ensures
            final(self)@ == old(self)@.receive_all(index as int),
            events@ == old(self)@.buffered(index as int),
    {
        let mut events: Vec<Event> = Vec::new();
        if index >= self.subscriptions.len() {
            return events;
        }
        let ghost before = self.subscriptions@[index as int].model();
        let ghost accepts = |event: Event| before.filter.accepts(event);
        let mut taken: usize = 0;
        let total: usize = self.subscriptions[index].queue.len();
        proof {
            reveal(Seq::filter);
            assert(before.queue.take(0) =~= Seq::empty());
            assert(before.queue.skip(0) =~= before.queue);
        }
        loop
            invariant
                taken <= total,
                index < self.subscriptions@.len(),
                self.subscriptions@.len() == old(self).subscriptions@.len(),
                self.config == old(self).config,
                self.history == old(self).history,
                before == old(self).subscriptions@[index as int].model(),
                accepts == |event: Event| before.filter.accepts(event),
                forall|j: int|
                    0 <= j < self.subscriptions@.len() && j != index ==> self.subscriptions@[j]
                        == old(self).subscriptions@[j],
                self.subscriptions@[index as int].filter == before.filter,
                self.subscriptions@[index as int].waiting@ == before.waiting,
                self.subscriptions@[index as int].connected == before.connected,
                total == before.queue.len(),
                self.subscriptions@[index as int].queue@ == before.queue.skip(taken as int),
                events@ == before.queue.take(taken as int).filter(accepts),
            ensures
                taken == total,
            decreases total - taken,
        {
            let ghost shorter = before.queue.take(taken as int);
            let ghost longer = before.queue.take(taken + 1);
            match self.subscriptions[index].queue.pop_front() {
                Some(event) => {
                    proof {
                        assert(event == before.queue[taken as int]);
                        assert(self.subscriptions@[index as int].queue@ =~= before.queue.skip(
                            taken + 1,
                        ));
                        assert(longer.drop_last() =~= shorter);
                        assert(longer.last() == before.queue[taken as int]);
                        reveal(Seq::filter);
                        assert(longer.filter(accepts) == if accepts(longer.last()) {
                            shorter.filter(accepts).push(longer.last())
                        } else {
                            shorter.filter(accepts)
                        });
                    }
                    if self.subscriptions[index].filter.matches(&event) {
                        events.push(event);
                    }
                    taken = taken + 1;
                },
                None => {
                    break;
                },
            }
        }
        proof {
            assert(before.queue.take(taken as int) =~= before.queue);
            assert(self.subscriptions@[index as int].queue@ =~= Seq::empty());
            assert(self@.subscriptions =~= old(self)@.receive_all(index as int).subscriptions);
        }
        events
    }

    /// Publishes an event: appends it to the history, dropping the oldest
    /// entries over the configured size, and offers it to every subscription
    /// whose filter accepts it. A subscription without room misses the event
    /// under the two drop policies. Under `Block` the event waits for such a
    /// subscription, behind what waits for it already, and the call returns
    /// `WouldBlock`: the publisher waits, asking `deliver_pending`, until the
    /// subscriber has made room. In every case the event is in the history
    /// and with every subscription that could take it.
    pub fn publish(&mut self, event: Event) -> (r: Result<()>)
        ensures
            final(self)@ == old(self)@.publish(event),
            old(self)@.blocks(event) ==> r == Err::<(), IpcError>(IpcError::WouldBlock),
            !old(self)@.blocks(event) ==> r is Ok,
    {
        self.history.push_back(event.clone());
        let ghost full = self.history@;
        while self.history.len() > self.config.history_size
            invariant
                self.config == old(self).config,
                self.subscriptions == old(self).subscriptions,
                self.history@.len() <= full.len(),
                self.history@.len() < full.len() ==> self.history@.len()
                    >= self.config.history_size,
                self.history@ == full.skip(full.len() - self.history@.len()),
            decreases self.history@.len(),
        {
            let _ = self.history.pop_front();
            assert(self.history@ =~= full.skip(full.len() - self.history@.len()));
        }
        assert(self.history@ =~= keep_last(full, self.config.history_size as nat));
        let capacity = self.config.subscriber_buffer;
        let policy = self.config.slow_consumer;
        let mut blocked = false;
        let mut i: usize = 0;
        while i < self.subscriptions.len()
            invariant
                i <= self.subscriptions@.len(),
                self.config == old(self).config,
                capacity == self.config.subscriber_buffer,
                policy == self.config.slow_consumer,
                self.history@ == keep_last(full, self.config.history_size as nat),
                self.subscriptions@.len() == old(self).subscriptions@.len(),
                forall|j: int|
                    0 <= j < i ==> (#[trigger] self.subscriptions@[j]).model()
                        == old(self).subscriptions@[j].model().offer(
                        event,
                        capacity as nat,
                        policy,
                    ),
                forall|j: int|
                    i <= j < self.subscriptions@.len() ==> self.subscriptions@[j]
                        == old(self).subscriptions@[j],
                blocked == (policy == SlowConsumerPolicy::Block && exists|j: int|
                    0 <= j < i && (#[trigger] old(self)@.subscriptions[j]).wants(event) && old(self)@.subscriptions[j].busy(capacity as nat)),
            decreases self.subscriptions@.len() - i,
        {
            let ghost before = self.subscriptions@[i as int].model();
            assert(before == old(self)@.subscriptions[i as int]);
            if self.subscriptions[i].connected && self.subscriptions[i].filter.matches(&event) {
                let busy = self.subscriptions[i].queue.len() >= capacity
                    || self.subscriptions[i].waiting.len() > 0;
                if !busy {
                    self.subscriptions[i].queue.push_back(event.clone());
                } else {
                    match policy {
                        SlowConsumerPolicy::Block => {
                            self.subscriptions[i].waiting.push_back(event.clone());
                            blocked = true;
                        },
                        _ => {},
                    }
                }
            }
            i += 1;
        }
        assert(self@.subscriptions =~= old(self)@.publish(event).subscriptions);
        if blocked {
            Err(IpcError::WouldBlock)
        } else {
            Ok(())
        }
    }

    /// Whether an event waits to be delivered.
    pub fn has_pending(&self) -> (b: bool)
        ensures
            b == self@.pending(),
    {
        let mut i: usize = 0;
        while i < self.subscriptions.len()
            invariant
                i <= self.subscriptions@.len(),
                forall|j: int| 0 <= j < i ==> (#[trigger] self@.subscriptions[j]).waiting.len() == 0,
            decreases self.subscriptions@.len() - i,
        {
            if self.subscriptions[i].waiting.len() > 0 {
                assert(self@.subscriptions[i as int].waiting.len() > 0);
                return true;
            }
            i += 1;
        }
        false
    }

    /// Moves what waits for subscription `index` into its buffer as far as
    /// it has room.
    fn settle_one(&mut self, index: usize)
        requires
            index < old(self).subscriptions@.len(),
        ensures
            final(self).config == old(self).config,
            final(self).history == old(self).history,
            final(self).subscriptions@.len() == old(self).subscriptions@.len(),
            final(self).subscriptions@[index as int].model() == old(self).subscriptions@[index as int].model().settle(old(self).config.subscriber_buffer as nat),
            forall|j: int|
                0 <= j < old(self).subscriptions@.len() && j != index ==> final(self).subscriptions@[j] == old(self).subscriptions@[j],
    {
        let capacity = self.config.subscriber_buffer;
        let ghost before = self.subscriptions@[index as int].model();
        let ghost mut moved: int = 0;
        proof {
            assert(before.waiting.take(0) =~= Seq::empty());
            assert(before.waiting.skip(0) =~= before.waiting);
            assert(before.queue + Seq::<Event>::empty() =~= before.queue);
        }
        while self.subscriptions[index].queue.len() < capacity
            && self.subscriptions[index].waiting.len() > 0
            invariant
                index < self.subscriptions@.len(),
                self.config == old(self).config,
                self.history == old(self).history,
                capacity == self.config.subscriber_buffer,
                self.subscriptions@.len() == old(self).subscriptions@.len(),
                before == old(self).subscriptions@[index as int].model(),
                forall|j: int|
                    0 <= j < self.subscriptions@.len() && j != index ==> self.subscriptions@[j]
                        == old(self).subscriptions@[j],
                0 <= moved <= before.waiting.len(),
                moved <= before.room_for_waiting(capacity as nat),
                self.subscriptions@[index as int].filter == before.filter,
                self.subscriptions@[index as int].connected == before.connected,
                self.subscriptions@[index as int].queue@ == before.queue + before.waiting.take(
                    moved,
                ),
                self.subscriptions@[index as int].waiting@ == before.waiting.skip(moved),
            decreases self.subscriptions@[index as int].waiting@.len(),
        {
            match self.subscriptions[index].waiting.pop_front() {
                Some(event) => {
                    self.subscriptions[index].queue.push_back(event);
                    proof {
                        assert(event == before.waiting[moved]);
                        assert(before.waiting.take(moved).push(event) =~= before.waiting.take(
                            moved + 1,
                        ));
                        assert(self.subscriptions@[index as int].queue@ =~= before.queue
                            + before.waiting.take(moved + 1));
                        assert(self.subscriptions@[index as int].waiting@
                            =~= before.waiting.skip(moved + 1));
                        moved = moved + 1;
                    }
                },
                None => {},
            }
        }
        proof {
            assert(moved == before.room_for_waiting(capacity as nat));
        }
    }

    /// Asks again for the deliveries that publishers wait for: moves the
    /// waiting events into the buffers of their subscriptions as far as
    /// these have room, oldest first. Returns `WouldBlock` while an event
    /// still waits, and `Ok` once none does.
    pub fn deliver_pending(&mut self) -> (r: Result<()>)
        ensures
            final(self)@ == old(self)@.settle(),
            final(self)@.pending() ==> r == Err::<(), IpcError>(IpcError::WouldBlock),
            !final(self)@.pending() ==> r is Ok,
    {
        let ghost capacity = self.config.subscriber_buffer as nat;
        let mut i: usize = 0;
        while i < self.subscriptions.len()
            invariant
                i <= self.subscriptions@.len(),
                self.config == old(self).config,
                self.history == old(self).history,
                capacity == self.config.subscriber_buffer,
                self.subscriptions@.len() == old(self).subscriptions@.len(),
                forall|j: int|
                    0 <= j < i ==> (#[trigger] self.subscriptions@[j]).model()
                        == old(self).subscriptions@[j].model().settle(capacity),
                forall|j: int|
                    i <= j < self.subscriptions@.len() ==> self.subscriptions@[j]
                        == old(self).subscriptions@[j],
            decreases self.subscriptions@.len() - i,
        {
            self.settle_one(i);
            i += 1;
        }
        assert(self@.subscriptions =~= old(self)@.settle().subscriptions);
        if self.has_pending() {
            Err(IpcError::WouldBlock)
        } else {
            Ok(())
        }
    }

    /// Copies out the retained events that `filter` accepts, oldest first.
    pub fn history(&self, filter: &EventFilter) -> (events: Vec<Event>)
        ensures
            events@ == self@.history_for(*filter),
    {
        let mut events: Vec<Event> = Vec::new();
        let mut i: usize = 0;
        let ghost accepts = |event: Event| filter.accepts(event);
        assert(self.history@.take(0).filter(accepts) =~= Seq::empty()) by {
            reveal(Seq::filter);
            assert(self.history@.take(0) =~= Seq::empty());
        }
        while i < self.history.len()
            invariant
                i <= self.history@.len(),
                accepts == |event: Event| filter.accepts(event),
                events@ == self.history@.take(i as int).filter(accepts),
            decreases self.history@.len() - i,
        {
            proof {
                let shorter = self.history@.take(i as int);
                let longer = self.history@.take(i + 1);
                assert(longer.drop_last() =~= shorter);
                assert(longer.last() == self.history@[i as int]);
                reveal(Seq::filter);
                assert(longer.filter(accepts) == if accepts(longer.last()) {
                    shorter.filter(accepts).push(longer.last())
                } else {
                    shorter.filter(accepts)
                });
            }
            if filter.matches(&self.history[i]) {
                events.push(self.history[i].clone());
            }
            i += 1;
        }
        assert(self.history@.take(i as int) =~= self.history@);
        events
    }

    /// Forgets the retained events.
    pub fn clear_history(&mut self)
        ensures
            final(self)@ == (BusModel {
                config: old(self)@.config,
                history: Seq::empty(),
                subscriptions: old(self)@.subscriptions,
            }),
    {
        self.history.clear();
    }
}

impl Default for EventBus {
    fn default() -> (bus: Self)
        ensures
            bus@.history == Seq::<Event>::empty(),
            bus@.subscriptions == Seq::<SubscriptionModel>::empty(),
            bus@.config.history_size == 1000,
            bus@.config.subscriber_buffer == 256,
            bus@.config.slow_consumer == SlowConsumerPolicy::DropOldest,
    {
        EventBus::new(EventBusConfig::default())
    }
}

/// A step in the life of one subscription.
pub enum SubscriberStep {
    /// The bus publishes an event.
    Publish(Event),
    /// The subscriber asks for its next event.
    Receive,
    /// A publisher asks again for the deliveries it waits for.
    Deliver,
}

/// Whether `part` can be had from `whole` by leaving elements out.
pub open spec fn is_subsequence(part: Seq<Event>, whole: Seq<Event>) -> bool
    decreases whole.len(),
{
    if part.len() == 0 {
        true
    } else if whole.len() == 0 {
        false
    } else {
        ||| part.last() == whole.last() && is_subsequence(part.drop_last(), whole.drop_last())
        ||| is_subsequence(part, whole.drop_last())
    }
}

/// The events that `steps` publish, in order.
pub open spec fn published(steps: Seq<SubscriberStep>) -> Seq<Event>
    decreases steps.len(),
{
    if steps.len() == 0 {
        Seq::empty()
    } else {
        match steps.last() {
            SubscriberStep::Publish(event) => published(steps.drop_last()).push(event),
            _ => published(steps.drop_last()),
        }
    }
}

/// The subscription after `steps`, with a buffer of `capacity` events and
/// the given policy.
pub open spec fn subscription_after(
    start: SubscriptionModel,
    capacity: nat,
    policy: SlowConsumerPolicy,
    steps: Seq<SubscriberStep>,
) -> SubscriptionModel
    decreases steps.len(),
{
    if steps.len() == 0 {
        start
    } else {
        let before = subscription_after(start, capacity, policy, steps.drop_last());
        match steps.last() {
            SubscriberStep::Publish(event) => before.offer(event, capacity, policy),
            SubscriberStep::Receive => before.after_receive(),
            SubscriberStep::Deliver => before.settle(capacity),
        }
    }
}

/// The events that the subscriber has received in the course of `steps`, in
/// the order in which it received them.
pub open spec fn received_during(
    start: SubscriptionModel,
    capacity: nat,
    policy: SlowConsumerPolicy,
    steps: Seq<SubscriberStep>,
) -> Seq<Event>
    decreases steps.len(),
{
    if steps.len() == 0 {
        Seq::empty()
    } else {
        let before = subscription_after(start, capacity, policy, steps.drop_last());
        let earlier = received_during(start, capacity, policy, steps.drop_last());
        match steps.last() {
            SubscriberStep::Receive => match before.next_event() {
                Some(event) => earlier.push(event),
                None => earlier,
            },
            _ => earlier,
        }
    }
}

/// What has been delivered to a subscription or is on its way: what the
/// subscriber has received, then its buffer, then what waits for it.
pub open spec fn delivered(received: Seq<Event>, subscription: SubscriptionModel) -> Seq<Event> {
    received + subscription.queue + subscription.waiting
}

/// After a publish the history holds at most as many events as the
/// configuration allows, and the event just published is its last entry
/// unless that size is zero.
pub proof fn lemma_history_is_bounded(bus: BusModel, event: Event)
    ensures
        bus.publish(event).history.len() <= bus.config.history_size,
        bus.config.history_size > 0 ==> bus.publish(event).history.last() == event,
{
}

/// Delivery to one subscriber is first in, first out, and at most once:
/// whatever is published and whenever the subscriber reads, the events it has
/// received, followed by those in its buffer and those that wait for it, are
/// publications in the order of publication, none of them twice, and its
/// filter accepts each. The buffer never holds more than its capacity, and
/// under the `Block` policy the subscriber misses no event that its filter
/// accepts while it listens.
pub proof fn lemma_subscriber_fifo(
    start: SubscriptionModel,
    capacity: nat,
    policy: SlowConsumerPolicy,
    steps: Seq<SubscriberStep>,
)
    requires
        start.queue.len() == 0,
        start.waiting.len() == 0,
    ensures
        is_subsequence(
            delivered(
                received_during(start, capacity, policy, steps),
                subscription_after(start, capacity, policy, steps),
            ),
            published(steps),
        ),
        forall|i: int|
            0 <= i < delivered(
                received_during(start, capacity, policy, steps),
                subscription_after(start, capacity, policy, steps),
            ).len() ==> start.filter.accepts(
                #[trigger] delivered(
                    received_during(start, capacity, policy, steps),
                    subscription_after(start, capacity, policy, steps),
                )[i],
            ),
        subscription_after(start, capacity, policy, steps).queue.len() <= capacity,
        subscription_after(start, capacity, policy, steps).filter == start.filter,
        subscription_after(start, capacity, policy, steps).connected == start.connected,
        policy == SlowConsumerPolicy::Block && start.connected ==> delivered(
            received_during(start, capacity, policy, steps),
            subscription_after(start, capacity, policy, steps),
        ) == published(steps).filter(|event: Event| start.filter.accepts(event)),
    decreases steps.len(),
{
    let after = subscription_after(start, capacity, policy, steps);
    let received = received_during(start, capacity, policy, steps);
    let accepts = |event: Event| start.filter.accepts(event);
    reveal(Seq::filter);
    if steps.len() == 0 {
        assert(delivered(received, after) =~= Seq::empty());
    } else {
        let earlier_steps = steps.drop_last();
        lemma_subscriber_fifo(start, capacity, policy, earlier_steps);
        let before = subscription_after(start, capacity, policy, earlier_steps);
        let earlier = received_during(start, capacity, policy, earlier_steps);
        let sofar = delivered(earlier, before);
        match steps.last() {
            SubscriberStep::Publish(event) => {
                let whole = published(steps);
                assert(whole.drop_last() =~= published(earlier_steps));
                assert(whole.last() == event);
                if after.queue.len() + after.waiting.len() > before.queue.len()
                    + before.waiting.len() {
                    assert(delivered(received, after) =~= sofar.push(event));
                    assert(sofar.push(event).drop_last() =~= sofar);
                } else {
                    assert(delivered(received, after) =~= sofar);
                }
            },
            SubscriberStep::Receive => {
                lemma_first_accepted(before.filter, before.queue);
                if before.queue.len() > 0 {
                    assert(sofar[earlier.len() as int] == before.queue[0]);
                    assert(before.filter.accepts(before.queue[0]));
                    assert(first_accepted(before.filter, before.queue) == 0);
                }
                assert(delivered(received, after) =~= sofar);
            },
            SubscriberStep::Deliver => {
                let k = before.room_for_waiting(capacity);
                assert(before.waiting.take(k) + before.waiting.skip(k) =~= before.waiting);
                assert(delivered(received, after) =~= sofar);
            },
        }
    }
}

/// Whether `r`, `after` and `next` are what a publisher owes for `event`,
/// for a bus that was `before` and an upcoming identifier `id`: the event is
/// published and the identifier used up; the result is `WouldBlock` where
/// the publisher has to wait for a delivery, and success otherwise.
pub open spec fn publisher_owes(
    before: BusModel,
    id: u64,
    event: Event,
    r: Result<()>,
    after: BusModel,
    next: u64,
) -> bool {
    &&& after == before.publish(event)
    &&& next == id_after(id)
    &&& before.blocks(event) ==> r == Err::<(), IpcError>(IpcError::WouldBlock)
    &&& !before.blocks(event) ==> r is Ok
}

/// Whether `event` is the event of the given type for a resource, with the
/// identifier `id`, the time `now` and the given data.
pub open spec fn is_resource_event(
    event: Event,
    id: u64,
    now: u64,
    event_type: Seq<char>,
    resource_id: Seq<char>,
) -> bool {
    &&& event.id == id
    &&& event.timestamp == now
    &&& event.event_type@ == event_type
    &&& event.resource_id is Some
    &&& event.resource_id->Some_0@ == resource_id
}

/// Whether `data` is what a progress event carries.
pub open spec fn is_progress_data(
    data: serde_json::Value,
    current: u64,
    total: u64,
    message: Seq<char>,
) -> bool {
    &&& member_unsigned(data, "current"@) == Some(current)
    &&& member_unsigned(data, "total"@) == Some(total)
    &&& member_unsigned(data, "percentage"@) == Some(percentage_of(current, total))
    &&& member_text(data, "message"@) == Some(message)
    &&& json_members(data).dom() =~= set!["current"@, "total"@, "percentage"@, "message"@]
}

/// Whether `data` is what a log event carries.
pub open spec fn is_log_data(data: serde_json::Value, level: Seq<char>,
    message: Seq<char>) -> bool {
    &&& member_text(data, "level"@) == Some(level)
    &&& member_text(data, "message"@) == Some(message)
    &&& json_members(data).dom() =~= set!["level"@, "message"@]
}

/// Stamps events with identifiers and hands them to a bus. One publisher
/// serves a process, so that the identifiers of its events count up.
#[derive(Debug)]
pub struct EventPublisher {
    ids: EventIds,
}

impl EventPublisher {
    /// The identifier that the next event gets.
    pub closed spec fn upcoming(&self) -> u64 {
        self.ids.upcoming()
    }

    /// A publisher whose first event gets the identifier 1.
    pub fn new() -> (publisher: Self)
        ensures
            publisher.upcoming() == 1,
    {
        EventPublisher { ids: EventIds::new() }
    }

    /// Publishes an event that was made elsewhere.
    pub fn publish(&self, bus: &mut EventBus, event: Event) -> (r: Result<()>)
        ensures
            final(bus)@ == old(bus)@.publish(event),
            old(bus)@.blocks(event) ==> r == Err::<(), IpcError>(IpcError::WouldBlock),
            !old(bus)@.blocks(event) ==> r is Ok,
    {
        bus.publish(event)
    }

    /// Hands `event`, stamped with the identifier of `ids`, to the bus, and
    /// keeps `ids`.
    fn hand_over(&mut self, bus: &mut EventBus, ids: EventIds, event: Event) -> (r: Result<()>)
        requires
            event.id == old(self).upcoming(),
            ids.upcoming() == id_after(old(self).upcoming()),
        ensures
            publisher_owes(
                old(bus)@,
                old(self).upcoming(),
                event,
                r,
                final(bus)@,
                final(self).upcoming(),
            ),
    {
        self.ids = ids;
        bus.publish(event)
    }

    /// Publishes an event of the given type for a resource.
    pub fn emit(
        &mut self,
        bus: &mut EventBus,
        now: u64,
        event_type: &str,
        resource_id: &str,
        data: serde_json::Value,
    ) -> (r: Result<()>)
        ensures
            exists|event: Event| #[trigger]
                is_resource_event(event, old(self).upcoming(), now, event_type@, resource_id@)
                    && event.data == data && publisher_owes(
                    old(bus)@,
                    old(self).upcoming(),
                    event,
                    r,
                    final(bus)@,
                    final(self).upcoming(),
                ),
    {
        let mut ids = self.ids;
        let event = Event::with_resource(&mut ids, now, event_type, resource_id, data);
        let ghost made = event;
        let r = self.hand_over(bus, ids, event);
        assert(is_resource_event(made, old(self).upcoming(), now, event_type@, resource_id@));
        r
    }

    /// Publish a progress event.
    pub fn progress(
        &mut self,
        bus: &mut EventBus,
        now: u64,
        resource_id: &str,
        current: u64,
        total: u64,
        message: &str,
    ) -> (r: Result<()>)
        ensures
            exists|event: Event| #[trigger]
                is_resource_event(
                    event,
                    old(self).upcoming(),
                    now,
                    event_types::TASK_PROGRESS@,
                    resource_id@,
                ) && is_progress_data(event.data, current, total, message@) && publisher_owes(
                    old(bus)@,
                    old(self).upcoming(),
                    event,
                    r,
                    final(bus)@,
                    final(self).upcoming(),
                ),
    {
        let mut ids = self.ids;
        let event = Event::progress(&mut ids, now, resource_id, current, total, message);
        let ghost made = event;
        let r = self.hand_over(bus, ids, event);
        assert(is_resource_event(
            made,
            old(self).upcoming(),
            now,
            event_types::TASK_PROGRESS@,
            resource_id@,
        ));
        r
    }

    /// Publish a log event.
    pub fn log(
        &mut self,
        bus: &mut EventBus,
        now: u64,
        resource_id: &str,
        level: &str,
        message: &str,
    ) -> (r: Result<()>)
        ensures
            exists|event: Event| #[trigger]
                is_resource_event(
                    event,
                    old(self).upcoming(),
                    now,
                    log_event_type(level@),
                    resource_id@,
                ) && is_log_data(event.data, level@, message@) && publisher_owes(
                    old(bus)@,
                    old(self).upcoming(),
                    event,
                    r,
                    final(bus)@,
                    final(self).upcoming(),
                ),
    {
        let mut ids = self.ids;
        let event = Event::log(&mut ids, now, resource_id, level, message);
        let ghost made = event;
        let r = self.hand_over(bus, ids, event);
        assert(is_resource_event(
            made,
            old(self).upcoming(),
            now,
            log_event_type(level@),
            resource_id@,
        ));
        r
    }

    /// Publish a stdout log event.
    pub fn stdout(&mut self, bus: &mut EventBus, now: u64, resource_id: &str, line: &str) -> (r:
        Result<()>)
        ensures
            exists|event: Event| #[trigger]
                is_resource_event(
                    event,
                    old(self).upcoming(),
                    now,
                    event_types::LOG_STDOUT@,
                    resource_id@,
                ) && is_log_data(event.data, "stdout"@, line@) && publisher_owes(
                    old(bus)@,
                    old(self).upcoming(),
                    event,
                    r,
                    final(bus)@,
                    final(self).upcoming(),
                ),
    {
        let mut ids = self.ids;
        let event = Event::stdout(&mut ids, now, resource_id, line);
        let ghost made = event;
        let r = self.hand_over(bus, ids, event);
        assert(is_resource_event(
            made,
            old(self).upcoming(),
            now,
            event_types::LOG_STDOUT@,
            resource_id@,
        ));
        r
    }

    /// Publish a stderr log event.
    pub fn stderr(&mut self, bus: &mut EventBus, now: u64, resource_id: &str, line: &str) -> (r:
        Result<()>)
        ensures
            exists|event: Event| #[trigger]
                is_resource_event(
                    event,
                    old(self).upcoming(),
                    now,
                    event_types::LOG_STDERR@,
                    resource_id@,
                ) && is_log_data(event.data, "stderr"@, line@) && publisher_owes(
                    old(bus)@,
                    old(self).upcoming(),
                    event,
                    r,
                    final(bus)@,
                    final(self).upcoming(),
                ),
    {
        let mut ids = self.ids;
        let event = Event::stderr(&mut ids, now, resource_id, line);
        let ghost made = event;
        let r = self.hand_over(bus, ids, event);
        assert(is_resource_event(
            made,
            old(self).upcoming(),
            now,
            event_types::LOG_STDERR@,
            resource_id@,
        ));
        r
    }

    /// Publish a task started event.
    pub fn task_started(&mut self, bus: &mut EventBus, now: u64, task_id: &str,
        data: serde_json::Value) -> (r: Result<()>)
        ensures
            exists|event: Event| #[trigger]
                is_resource_event(
                    event,
                    old(self).upcoming(),
                    now,
                    event_types::TASK_STARTED@,
                    task_id@,
                ) && event.data == data && publisher_owes(
                    old(bus)@,
                    old(self).upcoming(),
                    event,
                    r,
                    final(bus)@,
                    final(self).upcoming(),
                ),
    {
        self.emit(bus, now, event_types::TASK_STARTED, task_id, data)
    }

    /// Publish a task completed event, which carries the result.
    pub fn task_completed(&mut self, bus: &mut EventBus, now: u64, task_id: &str,
        result: serde_json::Value) -> (r: Result<()>)
        ensures
            exists|event: Event| #[trigger]
                is_resource_event(
                    event,
                    old(self).upcoming(),
                    now,
                    event_types::TASK_COMPLETED@,
                    task_id@,
                ) && json_members(event.data) =~= Map::empty().insert("result"@, result)
                    && publisher_owes(
                    old(bus)@,
                    old(self).upcoming(),
                    event,
                    r,
                    final(bus)@,
                    final(self).upcoming(),
                ),
    {
        self.emit(bus, now, event_types::TASK_COMPLETED, task_id, object_with("result", result))
    }

    /// Publish a task failed event, which carries the error.
    pub fn task_failed(&mut self, bus: &mut EventBus, now: u64, task_id: &str, error: &str) -> (r:
        Result<()>)
        ensures
            exists|event: Event| #[trigger]
                is_resource_event(
                    event,
                    old(self).upcoming(),
                    now,
                    event_types::TASK_FAILED@,
                    task_id@,
                ) && member_text(event.data, "error"@) == Some(error@) && json_members(
                    event.data,
                ).dom() =~= set!["error"@] && publisher_owes(
                    old(bus)@,
                    old(self).upcoming(),
                    event,
                    r,
                    final(bus)@,
                    final(self).upcoming(),
                ),
    {
        self.emit(
            bus,
            now,
            event_types::TASK_FAILED,
            task_id,
            object_with("error", json_string(error)),
        )
    }

    /// Publish a task cancelled event.
    pub fn task_cancelled(&mut self, bus: &mut EventBus, now: u64, task_id: &str) -> (r: Result<
        (),
    >)
        ensures
            exists|event: Event| #[trigger]
                is_resource_event(
                    event,
                    old(self).upcoming(),
                    now,
                    event_types::TASK_CANCELLED@,
                    task_id@,
                ) && json_members(event.data) =~= Map::empty() && publisher_owes(
                    old(bus)@,
                    old(self).upcoming(),
                    event,
                    r,
                    final(bus)@,
                    final(self).upcoming(),
                ),
    {
        self.emit(bus, now, event_types::TASK_CANCELLED, task_id, empty_object())
    }
}

impl Default for EventPublisher {
    fn default() -> (publisher: Self)
        ensures
            publisher.upcoming() == 1,
    {
        EventPublisher::new()
    }
}

} // verus!
