//! A leveled logging facility: messages are rendered into a fixed envelope
//! and routed to one of several platform sinks; fatal messages end the
//! calling unit after they are written.

pub mod text;
pub mod severity;
pub mod envelope;
pub mod sink;
pub mod dispatch;

pub use dispatch::{
    log, log_e, log_f, log_i, not_implemented, result_or_fatal, todo_marker,
    unexpected, unwrap_or_fatal,
};
pub use envelope::{elapsed_since_epoch, render, Origin, EPOCH_OFFSET_NS};
pub use severity::Severity;
pub use sink::{get_now, Channel, Delivery, Sink, SYSTEM_LOG_TAG};
