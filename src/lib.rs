//! A console client library for a length-prefixed binary log protocol:
//! frame splitting, message decoding, colour rendering, endpoint derivation
//! and the reconnecting link's decisions.

pub mod wire;
pub mod message;
pub mod laws;
pub mod render;
pub mod endpoint;
pub mod link;
