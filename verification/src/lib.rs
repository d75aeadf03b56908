//! Control-protocol logic of a network throughput tester: the messages the
//! client and server exchange, how they are framed on the wire, and the
//! decisions the test controller and the data-stream workers take.

pub mod client;
pub mod constant;
pub mod controller;
pub mod error;
pub mod message;
pub mod net_util;
pub mod opts;
pub mod perf;
pub mod server;
pub mod stream_workers;
pub mod ui;
