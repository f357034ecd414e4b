//! Screen capture and reliable-UDP transport for a remote-desktop Mac host.
//!
//! The crate holds the decisions of three parts of the host:
//!
//! * [`screencapturekit`]: bringing a ScreenCaptureKit stream up and down and
//!   turning its per-frame callbacks into frames;
//! * [`mac`]: the display and capturer types that sit on top of it, with the
//!   legacy display-stream backend to fall back on;
//! * [`kcp_stream`]: the handshakes and the datagram loop that carry a session
//!   over KCP.
//!
//! Talking to the operating system and to the network is left to the caller.
//! Each part says which outside step comes next, and is told how it went.
pub mod error;
pub mod kcp_stream;
pub mod mac;
pub mod screencapturekit;
pub mod slot;
