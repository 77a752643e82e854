//! Network core of a multi-version block-game client: varint and frame
//! codecs, a data-driven packet schema engine with per-version tables, the
//! connection state machine, the chunk payload decoder and the layer that
//! turns versioned packets into version-independent events.

pub mod chunk;
pub mod codec;
pub mod connection;
pub mod decoders;
pub mod error;
pub mod schema;
pub mod state;
pub mod types;
pub mod varint;
pub mod versions;
pub mod wire;
pub mod wrapper;
