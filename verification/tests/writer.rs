use esgraph::config::StoreConfig;
use esgraph::ingest::IngestStats;
use esgraph::writer::{
    add_stats, channel_capacity, wait_timeout_ms, writer_settings, writer_step, WriterAction,
    WriterEvent, WriterSettings,
};

fn store(batch_size: usize, flush_interval_ms: u64) -> StoreConfig {
    StoreConfig { path: "data/events.lbug".into(), batch_size, flush_interval_ms }
}

#[test]
fn settings_clamp_zero_limits() {
    assert_eq!(writer_settings(&store(0, 0)), WriterSettings { batch_size: 1, flush_interval_ms: 1 });
    assert_eq!(writer_settings(&store(500, 1000)), WriterSettings { batch_size: 500, flush_interval_ms: 1000 });
    assert_eq!(channel_capacity(&store(10, 1)), 64);
    assert_eq!(channel_capacity(&store(500, 1)), 500);
}

#[test]
fn wait_uses_what_is_left_of_the_interval() {
    let s = WriterSettings { batch_size: 3, flush_interval_ms: 1000 };
    assert_eq!(wait_timeout_ms(&s, 0), 1000);
    assert_eq!(wait_timeout_ms(&s, 400), 600);
    assert_eq!(wait_timeout_ms(&s, 5000), 0);
}

#[test]
fn full_batches_flush() {
    let s = WriterSettings { batch_size: 3, flush_interval_ms: 1000 };
    assert_eq!(writer_step(&s, 1, WriterEvent::Received), WriterAction::Wait);
    assert_eq!(writer_step(&s, 2, WriterEvent::Received), WriterAction::Wait);
    assert_eq!(writer_step(&s, 3, WriterEvent::Received), WriterAction::Flush);
}

#[test]
fn partial_batches_flush_after_the_interval() {
    let s = WriterSettings { batch_size: 3, flush_interval_ms: 1000 };
    assert_eq!(writer_step(&s, 2, WriterEvent::TimedOut { since_flush_ms: 999 }), WriterAction::Wait);
    assert_eq!(writer_step(&s, 2, WriterEvent::TimedOut { since_flush_ms: 1000 }), WriterAction::Flush);
    assert_eq!(writer_step(&s, 0, WriterEvent::TimedOut { since_flush_ms: 5000 }), WriterAction::Wait);
}

#[test]
fn shutdown_and_disconnect_flush_then_stop() {
    let s = WriterSettings { batch_size: 3, flush_interval_ms: 1000 };
    assert_eq!(writer_step(&s, 0, WriterEvent::ShutdownDrained), WriterAction::Stop);
    assert_eq!(writer_step(&s, 2, WriterEvent::ShutdownDrained), WriterAction::FlushAndStop);
    assert_eq!(writer_step(&s, 0, WriterEvent::Disconnected), WriterAction::Stop);
    assert_eq!(writer_step(&s, 7, WriterEvent::Disconnected), WriterAction::FlushAndStop);
}

#[test]
fn stats_accumulate() {
    let a = IngestStats { events: 1, node_upserts: 2, edges_inserted: 1 };
    let b = IngestStats { events: 3, node_upserts: 5, edges_inserted: 4 };
    assert_eq!(add_stats(a, b), IngestStats { events: 4, node_upserts: 7, edges_inserted: 5 });
}
