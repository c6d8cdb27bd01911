//! Decisions of the batching writer: when to flush pending events to the
//! graph and when to stop. The caller owns the channel, the clock and the
//! store; it reports what happened and performs the action returned.

use vstd::prelude::*;
use crate::config::StoreConfig;
use crate::ingest::IngestStats;

verus! {

/// Batching limits the writer works with.
#[derive(Debug, Clone, Copy, PartialEq, Eq, Structural)]
pub struct WriterSettings {
    /// Pending events that force a flush (at least 1).
    pub batch_size: usize,
    /// Milliseconds after which a partial batch is flushed (at least 1).
    pub flush_interval_ms: u64,
}

/// Writer settings from the store configuration; zero limits count as 1.
pub fn writer_settings(config: &StoreConfig) -> (r: WriterSettings)
    ensures
        r.batch_size == if config.batch_size == 0 {
            1
        } else {
            config.batch_size
        },
        r.flush_interval_ms == if config.flush_interval_ms == 0 {
            1
        } else {
            config.flush_interval_ms
        },
{
    WriterSettings {
        batch_size: if config.batch_size == 0 {
            1
        } else {
            config.batch_size
        },
        flush_interval_ms: if config.flush_interval_ms == 0 {
            1
        } else {
            config.flush_interval_ms
        },
    }
}

/// Capacity of the bounded channel between collector and writer: the batch
/// size, but at least 64.
pub fn channel_capacity(config: &StoreConfig) -> (r: usize)
    ensures
        r == if config.batch_size < 64 {
            64
        } else {
            config.batch_size
        },
{
    if config.batch_size < 64 {
        64
    } else {
        config.batch_size
    }
}

/// How long to wait for the next event: what is left of the flush interval.
pub fn wait_timeout_ms(settings: &WriterSettings, since_flush_ms: u64) -> (r: u64)
    ensures
        r == if since_flush_ms >= settings.flush_interval_ms {
            0
        } else {
            settings.flush_interval_ms - since_flush_ms
        },
{
    settings.flush_interval_ms.saturating_sub(since_flush_ms)
}

/// What happened while the writer waited.
#[derive(Debug, Clone, Copy, PartialEq, Eq, Structural)]
pub enum WriterEvent {
    /// Shutdown was requested and every queued event has been drained into
    /// the pending batch.
    ShutdownDrained,
    /// One event arrived and was added to the pending batch.
    Received,
    /// The wait timed out; this many milliseconds have passed since the last
    /// flush.
    TimedOut {
        /// Milliseconds since the last flush.
        since_flush_ms: u64,
    },
    /// Every sender is gone.
    Disconnected,
}

/// What the writer does next.
#[derive(Debug, Clone, Copy, PartialEq, Eq, Structural)]
pub enum WriterAction {
    /// Keep the pending batch and wait again.
    Wait,
    /// Ingest the pending batch, restart the flush clock, and wait again.
    Flush,
    /// Ingest the pending batch, then stop.
    FlushAndStop,
    /// Stop; nothing is pending.
    Stop,
}

/// The writer's decision after `event`, with `pending` events now in the
/// batch.
pub open spec fn writer_decision(settings: WriterSettings, pending: nat, event: WriterEvent) -> WriterAction {
    match event {
        WriterEvent::ShutdownDrained | WriterEvent::Disconnected => if pending == 0 {
            WriterAction::Stop
        } else {
            WriterAction::FlushAndStop
        },
        WriterEvent::Received => if pending >= settings.batch_size {
            WriterAction::Flush
        } else {
            WriterAction::Wait
        },
        WriterEvent::TimedOut { since_flush_ms } => if (pending > 0 && since_flush_ms
            >= settings.flush_interval_ms) || pending >= settings.batch_size {
            WriterAction::Flush
        } else {
            WriterAction::Wait
        },
    }
}

/// Decide what the writer does after `event`, with `pending` events in the
/// batch: flush a full batch, flush a partial batch once the interval has
/// passed, and on shutdown or disconnection flush whatever is left and stop.
pub fn writer_step(settings: &WriterSettings, pending: usize, event: WriterEvent) -> (r: WriterAction)
    ensures
        r == writer_decision(*settings, pending as nat, event),
{
    match event {
        WriterEvent::ShutdownDrained | WriterEvent::Disconnected => {
            if pending == 0 {
                WriterAction::Stop
            } else {
                WriterAction::FlushAndStop
            }
        },
        WriterEvent::Received => {
            if pending >= settings.batch_size {
                WriterAction::Flush
            } else {
                WriterAction::Wait
            }
        },
        WriterEvent::TimedOut { since_flush_ms } => {
            if (pending > 0 && since_flush_ms >= settings.flush_interval_ms) || pending
                >= settings.batch_size {
                WriterAction::Flush
            } else {
                WriterAction::Wait
            }
        },
    }
}

/// Pending events after carrying out an action.
pub open spec fn pending_after(pending: nat, action: WriterAction) -> nat {
    match action {
        WriterAction::Wait => pending,
        _ => 0,
    }
}

/// The writer never holds a full batch: from fewer than `batch_size`
/// pending events, one more arrival or a timeout leaves fewer than
/// `batch_size` pending.
pub proof fn lemma_pending_stays_below_batch_size(
    settings: WriterSettings,
    pending: nat,
    event: WriterEvent,
)
    requires
        settings.batch_size >= 1,
        pending < settings.batch_size,
        event is Received || event is TimedOut,
    ensures
        pending_after(
            if event is Received {
                pending + 1
            } else {
                pending
            },
            writer_decision(
                settings,
                if event is Received {
                    pending + 1
                } else {
                    pending
                },
                event,
            ),
        ) < settings.batch_size,
{
}

/// Stopping never drops events: the writer stops only with nothing
/// pending or after flushing what is pending, and it stops exactly on
/// shutdown or disconnection.
pub proof fn lemma_stop_flushes_everything(settings: WriterSettings, pending: nat, event: WriterEvent)
    ensures
        writer_decision(settings, pending, event) is Stop ==> pending == 0,
        (writer_decision(settings, pending, event) is Stop || writer_decision(
            settings,
            pending,
            event,
        ) is FlushAndStop) <==> (event is ShutdownDrained || event is Disconnected),
        pending_after(pending, writer_decision(settings, pending, event)) == 0 || writer_decision(
            settings,
            pending,
            event,
        ) is Wait,
{
}

/// A partial batch waits no longer than the flush interval: once the
/// interval has passed, a timeout with pending events flushes them.
pub proof fn lemma_partial_batch_flushed_after_interval(
    settings: WriterSettings,
    pending: nat,
    since_flush_ms: u64,
)
    requires
        pending > 0,
        since_flush_ms >= settings.flush_interval_ms,
    ensures
        writer_decision(settings, pending, WriterEvent::TimedOut { since_flush_ms }) is Flush,
{
}

/// Running totals after one more flushed batch.
pub fn add_stats(total: IngestStats, stats: IngestStats) -> (r: IngestStats)
    requires
        total.events + stats.events <= usize::MAX,
        total.node_upserts + stats.node_upserts <= usize::MAX,
        total.edges_inserted + stats.edges_inserted <= usize::MAX,
    ensures
        r.events == total.events + stats.events,
        r.node_upserts == total.node_upserts + stats.node_upserts,
        r.edges_inserted == total.edges_inserted + stats.edges_inserted,
{
    IngestStats {
        events: total.events + stats.events,
        node_upserts: total.node_upserts + stats.node_upserts,
        edges_inserted: total.edges_inserted + stats.edges_inserted,
    }
}

} // verus!
