//! Live audio distribution engine: per-client stream buffers and their
//! registry, request routing, renderer discovery and description parsing,
//! renderer control sequencing and request envelopes, the orchestration
//! loop's decisions and the loudness meter.

pub mod client_stream;
pub mod control;
pub mod description;
pub mod discovery;
pub mod feedback;
pub mod media;
pub mod messages;
pub mod meter;
pub mod registry;
pub mod server;
pub mod soap;
pub mod wav;
