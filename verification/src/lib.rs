//! Protocol engine for a serial-attached tipping-bucket rain gauge.
//!
//! The crate covers the device-facing wire protocol and the ingestion
//! pipeline: a bidirectional command codec, a bounded byte hand-off from an
//! interrupt-style producer to a worker, line reassembly with bounded memory,
//! tolerant key/value telemetry decoding, and a lock-guarded telemetry
//! snapshot that readers only ever observe as a whole number of applied
//! lines.

pub mod channel;
pub mod cmd;
pub mod line;
pub mod model;
pub mod session;
pub mod telemetry;
pub mod text;
