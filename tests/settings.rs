use rust_publisher::config::{AppConfig, ConcurrencyConfig, ConfigError, DispatchConfig, ProducerConfig};
use rust_publisher::generator::{after_send, available_cores, worker_count, WorkerAction};
use rust_publisher::shutdown::ShutdownLatch;
use rust_publisher::QUEUE_CAPACITY;

fn producer(brokers: &str, topic: &str) -> ProducerConfig {
    ProducerConfig {
        brokers: brokers.to_string(),
        topic: topic.to_string(),
        compression: "lz4".to_string(),
        acks: "all".to_string(),
        timeout_ms: 5000,
        buffering_max_ms: 0,
    }
}

fn dispatch(batch_size: usize) -> DispatchConfig {
    DispatchConfig { batch_size, flush_interval_ms: 250 }
}

fn concurrency(enabled: bool) -> ConcurrencyConfig {
    ConcurrencyConfig { throttling_enabled: enabled, throttling_ms: 40 }
}

#[test]
fn valid_config_is_kept() {
    let c = AppConfig::new(producer("localhost:9092", "nonsense"), dispatch(100), concurrency(true)).unwrap();
    assert_eq!(c.producer.topic, "nonsense");
    assert_eq!(c.dispatch.batch_size, 100);
    assert_eq!(c.dispatch.flush_interval_ms, 250);
    assert_eq!(c.concurrency.throttle(), Some(40));
}

#[test]
fn config_errors() {
    let e = AppConfig::new(producer("b:1", "t"), dispatch(0), concurrency(false)).unwrap_err();
    assert_eq!(e, ConfigError::ZeroBatchSize);
    let e = AppConfig::new(producer("", ""), dispatch(0), concurrency(false)).unwrap_err();
    assert_eq!(e, ConfigError::ZeroBatchSize);
}

#[test]
fn empty_strings_are_accepted() {
    let c = AppConfig::new(producer("", ""), dispatch(1), concurrency(false)).unwrap();
    assert_eq!(c.producer.brokers, "");
    assert_eq!(c.producer.topic, "");
    assert_eq!(c.dispatch.batch_size, 1);
}

#[test]
fn throttle_off() {
    assert_eq!(concurrency(false).throttle(), None);
}

#[test]
fn client_settings_text() {
    let mut p = producer("k1:9092,k2:9092", "t");
    p.buffering_max_ms = 1234567;
    let s = p.client_settings();
    let expected: Vec<(String, String)> = vec![
        ("bootstrap.servers".to_string(), "k1:9092,k2:9092".to_string()),
        ("compression.type".to_string(), "lz4".to_string()),
        ("acks".to_string(), "all".to_string()),
        ("message.timeout.ms".to_string(), "5000".to_string()),
        ("queue.buffering.max.ms".to_string(), "1234567".to_string()),
    ];
    assert_eq!(s, expected);
}

#[test]
fn client_settings_zero_and_max() {
    let mut p = producer("b", "t");
    p.timeout_ms = 0;
    p.buffering_max_ms = u64::MAX;
    let s = p.client_settings();
    assert_eq!(s[3].1, "0");
    assert_eq!(s[4].1, "18446744073709551615");
}

#[test]
fn worker_counts() {
    assert_eq!(worker_count(8), 7);
    assert_eq!(worker_count(2), 1);
    assert_eq!(worker_count(1), 1);
    assert_eq!(worker_count(0), 1);
    assert!(available_cores() >= 1);
}

#[test]
fn worker_decisions() {
    assert_eq!(after_send(true, false, None), WorkerAction::Produce);
    assert_eq!(after_send(true, false, Some(25)), WorkerAction::Pause(25));
    assert_eq!(after_send(false, false, Some(25)), WorkerAction::Stop);
    assert_eq!(after_send(false, false, None), WorkerAction::Stop);
    assert_eq!(after_send(true, true, None), WorkerAction::Stop);
}

#[test]
fn shutdown_notifies_once() {
    let mut latch = ShutdownLatch::new();
    assert!(!latch.notified());
    assert!(latch.signal());
    assert!(latch.notified());
    assert!(!latch.signal());
    assert!(latch.notified());
}

#[test]
fn queue_capacity() {
    assert_eq!(QUEUE_CAPACITY, 10_000);
}
