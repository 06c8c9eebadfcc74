//! An in-memory transactional key-value layer: snapshot-isolated readers and
//! serialized writers over an ordered key space.

pub mod err;
pub mod laws;
pub mod model;
pub mod publisher;
pub mod store;
pub mod tx;

pub use err::Error;
pub use publisher::Publisher;
pub use tx::Tx;
