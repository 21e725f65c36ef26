//! The publisher's configuration: producer, dispatch and concurrency settings,
//! read once at startup and never changed afterwards.
use vstd::prelude::*;
use vstd::string::StringExecFns;
use crate::text::{decimal, decimal_text};

verus! {

/// Settings handed to the broker client.
#[derive(Debug, Clone)]
pub struct ProducerConfig {
    pub brokers: String,
    pub topic: String,
    pub compression: String,
    pub acks: String,
    pub timeout_ms: u64,
    pub buffering_max_ms: u64,
}

/// When the dispatcher flushes: at `batch_size` records, or `flush_interval_ms`
/// after the oldest buffered record arrived.
#[derive(Debug, Clone)]
pub struct DispatchConfig {
    pub batch_size: usize,
    pub flush_interval_ms: u64,
}

/// The optional fixed delay of each generator worker after every enqueue.
#[derive(Debug, Clone)]
pub struct ConcurrencyConfig {
    pub throttling_enabled: bool,
    pub throttling_ms: u64,
}

#[derive(Debug, Clone)]
pub struct AppConfig {
    pub producer: ProducerConfig,
    pub dispatch: DispatchConfig,
    pub concurrency: ConcurrencyConfig,
}

/// Why a configuration was refused.
#[derive(Debug, Clone, Copy, PartialEq, Eq, Structural)]
pub enum ConfigError {
    /// `dispatch.batch_size` is zero: no batch could ever fill.
    ZeroBatchSize,
}

impl ProducerConfig {
    /// The client settings, in the order they are applied, as (key, value) text.
    pub open spec fn settings_spec(&self) -> Seq<(Seq<char>, Seq<char>)> {
        seq![
            ("bootstrap.servers"@, self.brokers@),
            ("compression.type"@, self.compression@),
            ("acks"@, self.acks@),
            ("message.timeout.ms"@, decimal(self.timeout_ms as nat)),
            ("queue.buffering.max.ms"@, decimal(self.buffering_max_ms as nat)),
        ]
    }

    /// The key/value settings for the broker client built from this configuration.
    pub fn client_settings(&self) -> (r: Vec<(String, String)>)
        ensures
            r@.len() == self.settings_spec().len(),
            forall|i: int|
                0 <= i < r@.len() ==> (#[trigger] r@[i]).0@ == self.settings_spec()[i].0
                    && r@[i].1@ == self.settings_spec()[i].1,
    {
        let mut r: Vec<(String, String)> = Vec::new();
        r.push((String::from_str("bootstrap.servers"), self.brokers.clone()));
        r.push((String::from_str("compression.type"), self.compression.clone()));
        r.push((String::from_str("acks"), self.acks.clone()));
        r.push((String::from_str("message.timeout.ms"), decimal_text(self.timeout_ms)));
        r.push(
            (String::from_str("queue.buffering.max.ms"), decimal_text(self.buffering_max_ms)),
        );
        r
    }
}

impl ConcurrencyConfig {
    /// The delay after each enqueue, if throttling is on.
    pub open spec fn throttle_spec(&self) -> Option<u64> {
        if self.throttling_enabled {
            Some(self.throttling_ms)
        } else {
            None
        }
    }

    pub fn throttle(&self) -> (r: Option<u64>)
        ensures
            r == self.throttle_spec(),
    {
        if self.throttling_enabled {
            Some(self.throttling_ms)
        } else {
            None
        }
    }
}

impl AppConfig {
    /// A configuration every component can run with: batches hold at least
    /// one record.
    pub open spec fn wf(&self) -> bool {
        self.dispatch.batch_size >= 1
    }

    /// Assembles a configuration from its three parts; it is refused only for
    /// a batch size of zero.
    pub fn new(
        producer: ProducerConfig,
        dispatch: DispatchConfig,
        concurrency: ConcurrencyConfig,
    ) -> (r: Result<AppConfig, ConfigError>)
        ensures
            dispatch.batch_size == 0 ==> r == Err::<AppConfig, ConfigError>(ConfigError::ZeroBatchSize),
            dispatch.batch_size >= 1 ==> (r matches Ok(c) && c.wf() && c.producer == producer
                && c.dispatch == dispatch && c.concurrency == concurrency),
    {
        if dispatch.batch_size == 0 {
            return Err(ConfigError::ZeroBatchSize);
        }
        Ok(AppConfig { producer, dispatch, concurrency })
    }
}

} // verus!
