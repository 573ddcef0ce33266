//! Hierarchical-deterministic public-key derivation for a Bitcoin-style
//! wallet stack: typed derivation-path indexes (normal and hardened),
//! BIP-43 derivation-scheme identifiers, extended public keys with their
//! 78-byte binary and Base58Check textual codecs, public-to-public child
//! key derivation, and the raw BIP-174 key-value pair layer built on top
//! of these types.

pub mod crypto;
pub mod ext;
pub mod indexes;
pub mod psbt;
pub mod raw;
pub mod roles;
pub mod standard;
pub mod xkey;
pub mod xpub;
