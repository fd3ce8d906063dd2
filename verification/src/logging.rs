//! Structured event log: levels, subsystems, events, and the in-memory
//! rolling buffers (newest first, capped) behind the dashboard's log views.
//!
//! Broadcasting an accepted event to live subscribers and emitting it to the
//! UI is done by the application.

use vstd::prelude::*;

verus! {

/// Severity of a log event.
#[derive(Debug, Clone, Copy, PartialEq, Eq, Structural)]
pub enum LogLevel {
    Trace,
    Debug,
    Info,
    Warn,
    Error,
}

/// The part of the gateway an event comes from.
#[derive(Debug, Clone, Copy, PartialEq, Eq, Structural)]
pub enum LogSubsystem {
    WS,
    Sync,
    DB,
    Network,
    Config,
    General,
    Auth,
}

/// One structured log event.
#[derive(Debug, Clone)]
pub struct LogEvent {
    pub timestamp: i64,
    pub level: LogLevel,
    pub subsystem: LogSubsystem,
    pub message: String,
}

/// Calls `SystemTime::elapsed` on the UNIX epoch and keeps the whole seconds
/// (0 for a clock set before the epoch): the time, of which nothing is stated.
#[verifier::external_body]
fn unix_now_secs() -> i64 {
    std::time::UNIX_EPOCH.elapsed().unwrap_or_default().as_secs() as i64
}

impl LogEvent {
    /// An event stamped with the current time.
    pub fn new(level: LogLevel, subsystem: LogSubsystem, message: String) -> (e: Self)
        ensures
            e.level == level,
            e.subsystem == subsystem,
            e.message == message,
    {
        let timestamp = unix_now_secs();
        LogEvent { timestamp, level, subsystem, message }
    }
}

/// Legacy sync-log record kept for the older dashboard view.
#[derive(Debug, Clone)]
pub struct SyncEvent {
    pub message: String,
    pub timestamp: i64,
}

/// How many legacy sync records are kept.
pub const LEGACY_SYNC_LOG_CAP: usize = 100;

/// A rolling log after recording `item`: the item comes first, and the oldest
/// entry falls off when the log would exceed `cap`.
pub open spec fn push_newest<T>(log: Seq<T>, item: T, cap: nat) -> Seq<T> {
    let grown = seq![item] + log;
    if grown.len() > cap {
        grown.drop_last()
    } else {
        grown
    }
}

/// The rolling log that recording `events` in order into an empty log gives.
pub open spec fn log_after<T>(events: Seq<T>, cap: nat) -> Seq<T>
    decreases events.len(),
{
    if events.len() == 0 {
        Seq::empty()
    } else {
        push_newest(log_after(events.drop_last(), cap), events.last(), cap)
    }
}

/// A rolling log holds exactly the latest `cap` events (all of them when
/// fewer were recorded), newest first.
pub proof fn lemma_log_holds_latest<T>(events: Seq<T>, cap: nat)
    requires
        cap > 0,
    ensures
        log_after(events, cap).len() == (if events.len() < cap { events.len() } else { cap }),
        forall|i: int|
            0 <= i < log_after(events, cap).len() ==> #[trigger] log_after(events, cap)[i]
                == events[events.len() - 1 - i],
    decreases events.len(),
{
    if events.len() > 0 {
        let prev = events.drop_last();
        lemma_log_holds_latest(prev, cap);
        let cur = log_after(events, cap);
        assert forall|i: int| 0 <= i < cur.len() implies #[trigger] cur[i] == events[events.len() - 1 - i] by {
            if i > 0 {
                assert(cur[i] == log_after(prev, cap)[i - 1]);
            }
        }
    }
}

/// The event log state: an on/off switch, the general buffer (capped at
/// `max_entries`) and the legacy sync log (capped at 100), both newest first.
pub struct LogManager {
    enabled: bool,
    buffer: Vec<LogEvent>,
    legacy_sync_log: Vec<SyncEvent>,
    max_entries: usize,
}

impl LogManager {
    pub closed spec fn spec_enabled(&self) -> bool {
        self.enabled
    }

    pub closed spec fn events(&self) -> Seq<LogEvent> {
        self.buffer@
    }

    pub closed spec fn sync_events(&self) -> Seq<SyncEvent> {
        self.legacy_sync_log@
    }

    pub closed spec fn capacity(&self) -> nat {
        self.max_entries as nat
    }

    /// Both buffers stay within their caps.
    pub closed spec fn wf(&self) -> bool {
        &&& self.buffer@.len() <= self.max_entries
        &&& self.legacy_sync_log@.len() <= LEGACY_SYNC_LOG_CAP
    }

    /// An enabled, empty log keeping at most `max_entries` events.
    pub fn new(max_entries: usize) -> (m: Self)
        ensures
            m.wf(),
            m.spec_enabled(),
            m.events() == Seq::<LogEvent>::empty(),
            m.sync_events() == Seq::<SyncEvent>::empty(),
            m.capacity() == max_entries,
            m.events().len() <= m.capacity(),
            m.sync_events().len() <= LEGACY_SYNC_LOG_CAP,
    {
        LogManager { enabled: true, buffer: Vec::new(), legacy_sync_log: Vec::new(), max_entries }
    }

    pub fn is_enabled(&self) -> (b: bool)
        ensures
            b == self.spec_enabled(),
    {
        self.enabled
    }

    /// Switches logging on or off; the buffers are kept as they are.
    pub fn set_enabled(&mut self, enabled: bool)
        requires
            old(self).wf(),
        ensures
            final(self).wf(),
            final(self).spec_enabled() == enabled,
            final(self).events() == old(self).events(),
            final(self).sync_events() == old(self).sync_events(),
            final(self).capacity() == old(self).capacity(),
            final(self).events().len() <= final(self).capacity(),
            final(self).sync_events().len() <= LEGACY_SYNC_LOG_CAP,
    {
        self.enabled = enabled;
    }

    /// The general buffer, newest first.
    pub fn buffer(&self) -> (b: &Vec<LogEvent>)
        ensures
            b@ == self.events(),
    {
        &self.buffer
    }

    /// The legacy sync log, newest first.
    pub fn legacy_sync_log(&self) -> (l: &Vec<SyncEvent>)
        ensures
            l@ == self.sync_events(),
    {
        &self.legacy_sync_log
    }

    /// The cap of the general buffer.
    pub fn max_entries(&self) -> (n: usize)
        ensures
            n == self.capacity(),
    {
        self.max_entries
    }

    /// Records an event. When logging is disabled nothing changes and `false`
    /// is returned. Otherwise the event goes to the front of the buffer (the
    /// oldest entry falls off beyond `max_entries`); a `Sync` event also goes
    /// to the front of the legacy sync log (capped at 100); `true` is
    /// returned, and the caller broadcasts the event.
    pub fn log(&mut self, event: LogEvent) -> (recorded: bool)
        requires
            old(self).wf(),
        ensures
            final(self).wf(),
            recorded == old(self).spec_enabled(),
            final(self).spec_enabled() == old(self).spec_enabled(),
            final(self).capacity() == old(self).capacity(),
            final(self).events().len() <= final(self).capacity(),
            final(self).sync_events().len() <= LEGACY_SYNC_LOG_CAP,
            final(self).events() == (if recorded {
                push_newest(old(self).events(), event, old(self).capacity())
            } else {
                old(self).events()
            }),
            final(self).sync_events() == (if recorded && event.subsystem == LogSubsystem::Sync {
                push_newest(
                    old(self).sync_events(),
                    SyncEvent { message: event.message, timestamp: event.timestamp },
                    LEGACY_SYNC_LOG_CAP as nat,
                )
            } else {
                old(self).sync_events()
            }),
    {
        if !self.enabled {
            return false;
        }
        if event.subsystem == LogSubsystem::Sync {
            let record = SyncEvent { message: event.message.clone(), timestamp: event.timestamp };
            self.legacy_sync_log.insert(0, record);
            if self.legacy_sync_log.len() > LEGACY_SYNC_LOG_CAP {
                self.legacy_sync_log.pop();
            }
        }
        self.buffer.insert(0, event);
        if self.buffer.len() > self.max_entries {
            self.buffer.pop();
        }
        true
    }
}

} // verus!
