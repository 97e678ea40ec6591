//! Log collection and live tailing for a node-local runtime.
//!
//! Log events from several producers go through one bounded collector.
//! A diagnostic sink turns leveled records into events. A per-subscription
//! bridge relays what the collector hands out to one remote observer.
pub mod event;
pub mod channel;
pub mod sink;
pub mod bridge;
pub mod observe;

pub use event::{LogItem, Closed};
pub use channel::{LogChannel, DEFAULT_CAPACITY, MAX_CAPACITY, UNKNOWN_CHANNEL};
pub use sink::{format_record, LogLevel, StreamLogger, DIAGNOSTICS_CHANNEL};
pub use bridge::{Bridge, BridgeAction, BridgeEvent, BridgePhase};
pub use observe::{ObserveService, Subscription};
