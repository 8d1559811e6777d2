//! A deterministic cryptographic identity for a mesh-network node.
//!
//! The library offers byte-semantic value types for keys and payloads, a
//! reversible (intentionally non-secure) encode/decode scheme keyed by a
//! public/private pair, signing and signature verification built on SHA-1
//! content hashes, a chain-bound identity digest, and an unpadded-base64
//! codec for exchanging public keys inside node descriptors.

pub mod byte_text;
pub mod cryptde_null;
pub mod descriptor;
pub mod digests;
pub mod types;
pub mod ui_routing;
