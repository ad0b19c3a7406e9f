//! The vault's closed error taxonomy. Backend-specific failures are wrapped
//! into `Error::MasterKeyStorage` at the boundary so the rest of the vault
//! stays backend-agnostic; cryptographic failures are reported opaquely.

use vstd::prelude::*;

use crate::permissions::{EncryptionKeyAction, KeyId};

verus! {

/// One failure of the vault surface.
#[derive(Debug)]
pub enum Error {
    /// An envelope failed to decode, or its authentication tag failed to
    /// verify. Deliberately opaque: a wrong key, tampered ciphertext and a
    /// garbled nonce are indistinguishable here.
    Encryption(String),
    /// The custody backend failed, or returned a record other than the one
    /// just written during verify-before-commit.
    MasterKeyStorage(String),
    /// The local sealing-key material is present but unusable.
    Initializing(String),
    /// A sealing key exists locally, but the custody backend has no record
    /// for this server identity.
    MasterKeyNotFound,
    /// The supplied permission capability denied the action before any
    /// cryptography ran.
    PermissionDenied { key: KeyId, action: EncryptionKeyAction },
}

} // verus!
