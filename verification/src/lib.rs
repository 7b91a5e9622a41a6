//! Decoding and encoding of the fixed-size records that the games of the
//! sixth and seventh generation keep for one creature.
//!
//! A record is protected by a cipher: a keystream that is XORed onto it and a
//! reordering of four of its blocks, both selected by a seed in its header.
//! It carries a checksum, and its fields lie at fixed offsets. What a record
//! says (whether it is valid, whether it is shiny, its individual values, the
//! type of its Hidden Power) follows from its raw fields in one way for
//! every layout.
//!
//! There are two families of records. [`pk7`] keeps a record in an array of
//! its stored length, reads it through [`reader`] and works the cipher of
//! [`poke_crypto`] in place, where the blocks are reordered by exchanges.
//! [`pkm`] keeps a record in a vector of its stored or its party length and
//! makes one buffer from another, where the blocks are reordered by a table
//! of positions. Both ciphers give the same bytes:
//! [`poke_crypto::lemma_schemes_agree`].

pub mod pk7;
pub mod pkm;
pub mod pkx;
pub mod poke_crypto;
pub mod reader;
pub mod strings;
pub mod types;
