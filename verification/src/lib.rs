//! A field telemetry gateway core: Modbus register polling, typed register
//! decoding, JSON envelope construction, message fan-out, and a single-writer
//! local store with fixed-window retention and compressed backups.

pub mod aggregator;
pub mod clock;
pub mod codec;
pub mod definitions;
pub mod frame;
pub mod json;
pub mod modbus;
pub mod queue;
pub mod scheduler;
pub mod state;
pub mod storage;
pub mod text;
pub mod transport;

