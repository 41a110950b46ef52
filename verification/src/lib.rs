//! Decoder for an XpressNet-style model railway control bus.
//!
//! A master station polls peer devices with single-byte call frames; peers
//! answer with framed messages (header, optional identifier, data payload,
//! XOR checksum). The crate classifies call bytes, narrows the set of known
//! message shapes that are still consistent with the bytes seen so far, and
//! assembles validated messages one byte at a time.

pub mod catalog;
pub mod checksum;
pub mod classifier;
pub mod errors;
pub mod filter;
pub mod parser;
pub mod railway_state;
