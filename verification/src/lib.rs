//! Host telemetry acquisition pipeline: snapshot records, the metrics
//! service that fills them, the cancellation latch, the ordered snapshot
//! channel and the acquisition loop's decisions, each with a proved contract.

pub mod acquisition;
pub mod cancel;
pub mod channel;
pub mod pipeline;
pub mod process;
pub mod services;
pub mod ui;
