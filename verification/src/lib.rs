//! Bidirectional satellite-to-ground communication stack.
//!
//! Three cores bound by a shared data model: a priority-based command
//! scheduler that orders and dispatches mission commands under hard
//! real-time deadlines, a CCSDS Space Packet codec with bit-exact framing,
//! and a multi-band link selector that routes outbound packets across five
//! RF transceivers based on priority, link health and operating mode.

pub mod types;
pub mod error;
pub mod time;
pub mod messaging;
pub mod queue;
pub mod ccsds;
pub mod commands;
pub mod telemetry;
pub mod comm;
pub mod fault;
pub mod sched;
pub mod ground;
