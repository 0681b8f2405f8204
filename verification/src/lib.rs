//! Application-level logic of an HDMI-CEC audio-system device: payload
//! encoding for audio-status replies, key-press translation, the
//! command dispatcher, the power-status transition handler, and the
//! FIFO queue that serializes outgoing transmissions.
pub mod codec;
pub mod config;
pub mod dispatch;
pub mod keypress;
pub mod packet;
pub mod power;
pub mod queue;
pub mod types;
