//! Reader for region files: a 32 by 32 grid of independently compressed
//! NBT chunks behind two fixed-size header tables.

pub mod chunk;
pub mod codec;
pub mod error;
pub mod layout;
pub mod source;
pub mod region;

pub use codec::CompressionMode;
pub use error::McaError;
pub use region::{Chunk, McaFile};
