//! Telemetry pipeline for an encrypted racing-simulator UDP stream: packet
//! codec, session tracking, sample history and fan-out windows.
pub mod bytes;
pub mod codec;
pub mod frame;
pub mod state;
pub mod ring;
pub mod session;
pub mod net;
pub mod store;
pub mod window;
pub mod capture;
pub mod demo;
pub mod detect;
pub mod record;
pub mod hex;
pub mod ingest;
pub mod messages;
