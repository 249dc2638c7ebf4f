//! A minimal on-chain module: one instruction handler that accepts an empty
//! account context, emits a log line carrying the module's own fixed 32-byte
//! identifier, and returns success. It defines no account state and alters
//! nothing.

pub mod handler;
pub mod id;
