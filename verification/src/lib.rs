//! POCSAG paging transmitter core: codeword generation, time slots,
//! priority queueing and the scheduling decisions around them.

pub mod bootstrap;
pub mod clock;
pub mod config;
pub mod connection;
pub mod event;
pub mod frontend;
pub mod message;
pub mod pocsag;
pub mod queue;
pub mod raspi;
pub mod scheduler;
pub mod status;
pub mod telemetry;
pub mod text;
pub mod transmitter;
