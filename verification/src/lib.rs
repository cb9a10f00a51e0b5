//! A 1-out-of-2 oblivious transfer protocol over the curve25519 group.
//!
//! A sender holds two secret messages; a receiver picks one of the two
//! indices and learns exactly the corresponding message, while the sender
//! learns nothing about which index was chosen.  Payloads are encrypted
//! with a stream cipher under keys derived from Diffie-Hellman-style
//! shared points.

pub mod cipher;
pub mod group;
pub mod kdf;
pub mod protocol;
