//! Bounce: an HTTP reverse proxy with a window that shows what goes through it.
//!
//! The library decides and computes: what a request becomes on its way upstream and what comes
//! back ([`exchange`]), when the proxy listens, serves and ends ([`server`]), what the window holds
//! ([`app`]), shows ([`screen`]) and is told ([`relay`]). It reads no socket and draws no widget.

pub mod app;
pub mod exchange;
pub mod relay;
pub mod screen;
pub mod server;
pub mod text;
pub mod types;
pub mod wire;
