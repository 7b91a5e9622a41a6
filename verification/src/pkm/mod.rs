//! Records that own their bytes in a vector, of stored or of party length,
//! with the reordering of the cipher done by a table of block positions.

pub mod pk6;
pub mod pk7;
pub mod pkx;
pub mod poke_crypto;
pub mod reader;
