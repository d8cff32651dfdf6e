//! Verified core of a low-latency interactive media streamer.
//!
//! The crate holds the logic of the real-time send pipeline: a sliding-window
//! bitrate meter, a damped bandwidth-estimate smoother, BGRA to I420 colour
//! conversion, the session connection state machine with its one-shot start
//! notification, the decision core of the WebRTC session driver, the encoder
//! stage bookkeeping, the frame pump cadence, and a bounded FIFO queue model.
//! All I/O (sockets, HTTP signaling, the peer-state library, the raw codec)
//! lives outside this crate and is driven by the decisions made here.

pub mod addr;
pub mod bitrate;
pub mod driver;
pub mod encoder_stage;
pub mod pump;
pub mod queue;
pub mod smoother;
pub mod state;
pub mod yuv;
