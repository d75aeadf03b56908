use vstd::prelude::*;

verus! {

/// One kibibyte.
pub const KB: u64 = 1024;
/// One mebibyte.
pub const MB: u64 = 1024 * KB;
/// One gibibyte.
pub const GB: u64 = 1024 * MB;
/// One tebibyte.
pub const TB: u64 = 1024 * GB;

/// One kilobit per second.
pub const K_BITS_PER_SEC: u64 = 1000;
/// One megabit per second.
pub const M_BITS_PER_SEC: u64 = 1000 * K_BITS_PER_SEC;
/// One gigabit per second.
pub const G_BITS_PER_SEC: u64 = 1000 * M_BITS_PER_SEC;
/// One terabit per second.
pub const T_BITS_PER_SEC: u64 = 1000 * G_BITS_PER_SEC;

/// Capacity of the internal channels between the controller and its workers.
pub const INTERNAL_PORT_BUFFER: usize = 5;
/// Size of the length prefix in front of every control message.
pub const MESSAGE_LENGTH_SIZE_BYTES: usize = 4;
/// Largest control message payload that a peer accepts.
pub const MAX_CONTROL_MESSAGE_SIZE: u32 = 20 * 1024 * 1024;
/// Default size of the buffer a data stream reads or writes at once.
pub const DEFAULT_BLOCK_SIZE: usize = 2 * 1024 * 1024;
/// Default number of seconds between periodic reports.
pub const DEFAULT_INTERVAL_SEC: u64 = 1;
/// Seconds the server waits for the test parameters.
pub const PROTOCOL_TIMEOUT_SECS: u64 = 10;

} // verus!
