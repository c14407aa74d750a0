//! Decoding of binary account payloads and instruction descriptions into
//! tagged envelopes.

pub mod hex;
pub mod discriminator;
pub mod crafting;
pub mod registry;
pub mod envelope;
pub mod instruction;
pub mod dispatch;
