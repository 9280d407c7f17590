//! Protocol core of a three-node LoRa sensor network for a utility tunnel.
//!
//! A sensor reports temperature and humidity to a relay, which forwards them to
//! a gateway. The network shares one half-duplex radio channel, so every node
//! follows a TDMA schedule that the gateway broadcasts together with its clock.

pub mod alarm;
pub mod buffers;
pub mod bytes;
pub mod core_log;
pub mod core_state;
pub mod crc;
pub mod demo;
pub mod demo_laws;
pub mod demo_log;
pub mod error;
pub mod frame_laws;
pub mod hardware;
pub mod liveness;
pub mod log_laws;
pub mod node_core;
pub mod node_core_laws;
pub mod node_laws;
pub mod payload;
pub mod pending;
pub mod protocol;
pub mod relay;
pub mod role;
pub mod sensors;
pub mod stream;
pub mod stream_laws;
pub mod tdma;
pub mod tdma_laws;
pub mod text;
pub mod timer_laws;
pub mod transport;
pub mod wire_laws;

pub use error::{AppError, AppResult};
