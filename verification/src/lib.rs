//! An encryption-at-rest vault: envelope encryption of document payloads with
//! a master key that is itself wrapped under a locally persisted sealing key,
//! while the wrapped master key lives in a pluggable custody backend.

pub mod codec;
pub mod error;
pub mod key;
pub mod permissions;
pub mod storage;
pub mod vault;
