//! A live DNS traffic monitor library: a fail-soft decoder chain that turns a
//! raw Ethernet frame into a structured DNS packet record, a message-kind
//! filter, a producer/consumer pipeline model with cooperative cancellation,
//! and renderers that format records as text, CSV, or table rows.

pub mod config;
pub mod decode;
pub mod pipeline;
pub mod strbuild;
pub mod view;
