//! The vault orchestrator: owns the live (unwrapped) master key and a
//! handle to the custody backend, runs the bootstrap and recovery protocol
//! once, and offers the permission-checked encrypt/decrypt surface.

use vstd::prelude::*;
use vstd::string::*;

use crate::codec::{spec_decode, VaultPayload};
use crate::codec::lemma_encode_decode;
use crate::error::Error;
use crate::key::{decrypts_to, unwraps_to, EncryptedKey, EncryptionKey, MAX_PLAINTEXT_BYTES};
use crate::permissions::{EncryptionKeyAction, KeyId, Permissions};
use crate::storage::MasterKeyStorage;

verus! {

/// Whether a capability was supplied and denies `action` on `key`. Absent
/// capability means the check is bypassed, not denied.
pub open spec fn permission_denied(
    permissions: Option<&Permissions>,
    key: KeyId,
    action: EncryptionKeyAction,
) -> bool {
    match permissions {
        Some(p) => !p.allows(key, action),
        None => false,
    }
}

/// The wrapped-key bytes a fetch returned, if it found a record.
pub open spec fn record_of(fetched: Option<EncryptedKey>) -> Option<Seq<u8>> {
    match fetched {
        Some(ek) => Some(ek@),
        None => None,
    }
}

/// Whether `record` holds a wrapped key that unwraps under `sealing_key` to
/// exactly the raw master key bytes `master_key`.
pub open spec fn recoverable(record: Option<Seq<u8>>, sealing_key: Seq<u8>, master_key: Seq<u8>) -> bool {
    match record {
        Some(rec) => unwraps_to(rec, sealing_key, master_key),
        None => false,
    }
}

/// The runtime vault: one live unwrapped master key and the exclusively
/// owned custody handle. Immutable once constructed; the master key never
/// changes and no call after `initialize` touches the backend.
pub struct Vault<S> {
    master_key: EncryptionKey,
    master_key_storage: S,
}

impl<S: MasterKeyStorage> Vault<S> {
    /// The raw bytes of the live master key.
    pub closed spec fn master_key_view(&self) -> Seq<u8> {
        self.master_key@
    }

    /// The custody handle this vault owns.
    pub closed spec fn storage(&self) -> S {
        self.master_key_storage
    }

    /// Assembles a vault around an already unwrapped master key.
    pub fn new(master_key: EncryptionKey, master_key_storage: S) -> (r: Self)
        ensures
            r.master_key_view() == master_key@,
            r.storage() == master_key_storage,
    {
        Vault { master_key, master_key_storage }
    }

    /// The custody handle, for callers that persist records elsewhere.
    pub fn master_key_storage(&self) -> (r: &S)
        ensures
            r == self.storage(),
    {
        &self.master_key_storage
    }

    /// The bootstrap and recovery protocol, run once per process start.
    ///
    /// `sealing_key_file` is the content of `<server_directory>/vault-key`,
    /// or `None` when that file does not exist. With no file, the fresh
    /// branch runs: generate a master key, wrap it, store the wrapped form
    /// with the custody backend, read it back, and only if the readback
    /// matches byte for byte return the sealing key bytes for the caller to
    /// persist — on a mismatch nothing is returned to write, so a silently
    /// failing backend can never strand an unrecoverable sealing key on
    /// disk. With a file, the existing branch runs: deserialize the sealing
    /// key and unwrap the custody record with it, regenerating nothing.
    pub fn initialize(server_id: u64, sealing_key_file: Option<Vec<u8>>, master_key_storage: S)
        -> (r: Result<(Vault<S>, Option<Vec<u8>>), Error>)
        ensures
            (r matches Ok(out) ==> (sealing_key_file is None ==> (out.1 matches Some(sk)
                && sk@.len() == 32
                && recoverable(out.0.storage().record_for(server_id), sk@, out.0.master_key_view())))),
            (r matches Ok(out) ==> (sealing_key_file matches Some(f) ==> (out.1 is None
                && f@.len() == 32
                && recoverable(out.0.storage().record_for(server_id), f@, out.0.master_key_view())))),
            ((sealing_key_file matches Some(f) && f@.len() != 32) <==> r matches Err(Error::Initializing(_))),
            (r matches Err(Error::MasterKeyNotFound) ==> sealing_key_file is Some),
            (r matches Err(Error::Encryption(_)) ==> sealing_key_file is Some),
            (r is Err ==> (r matches Err(Error::Initializing(_)) || r matches Err(Error::MasterKeyStorage(_))
                || r matches Err(Error::MasterKeyNotFound) || r matches Err(Error::Encryption(_)))),
    {
        match sealing_key_file {
            Some(file_bytes) => {
                // The file is present: it must be usable before anything
                // else is consulted; treat a malformed one as corruption,
                // never as a fresh start.
                if file_bytes.len() != 32 {
                    return Err(Error::Initializing(String::from_str(
                        "error deserializing sealing key",
                    )));
                }
                let storage = master_key_storage;
                let fetched = match storage.master_key_for(server_id) {
                    Ok(found) => found,
                    Err(e) => {
                        return Err(Error::MasterKeyStorage(e.into_message()));
                    },
                };
                match Self::recover(file_bytes.as_slice(), fetched, storage) {
                    Ok(vault) => Ok((vault, None)),
                    Err(e) => Err(e),
                }
            },
            None => {
                let mut storage = master_key_storage;
                let master_key = EncryptionKey::random();
                let (sealing_key, wrapped) = master_key.encrypt_key();
                match storage.set_master_key_for(server_id, &wrapped) {
                    Ok(()) => (),
                    Err(e) => {
                        return Err(Error::MasterKeyStorage(e.into_message()));
                    },
                }
                // The custody record is this master key's only durable
                // form: verify the backend can hand it back before the
                // sealing key is allowed to reach disk.
                let retrieved = match storage.master_key_for(server_id) {
                    Ok(found) => found,
                    Err(e) => {
                        return Err(Error::MasterKeyStorage(e.into_message()));
                    },
                };
                Self::commit_fresh(master_key, sealing_key, &wrapped, retrieved, storage)
            },
        }
    }

    /// The fresh-branch commit step of `initialize`, split out so its
    /// outcome is pinned for every value the custody readback can have
    /// returned: the sealing key is released for persistence exactly when
    /// the readback is byte for byte the record just written; anything else
    /// is the custody error, and nothing is handed out to write.
    pub fn commit_fresh(
        master_key: EncryptionKey,
        sealing_key: EncryptionKey,
        wrapped: &EncryptedKey,
        retrieved: Option<EncryptedKey>,
        master_key_storage: S,
    ) -> (r: Result<(Vault<S>, Option<Vec<u8>>), Error>)
        ensures
            (record_of(retrieved) == Some(wrapped@) <==> r is Ok),
            (r matches Ok(out) ==> (out.0.master_key_view() == master_key@
                && out.0.storage() == master_key_storage
                && (out.1 matches Some(sk) && sk@ == sealing_key@))),
            (r is Err ==> r matches Err(Error::MasterKeyStorage(_))),
    {
        let matches_written = match &retrieved {
            Some(readback) => *readback == *wrapped,
            None => false,
        };
        if matches_written {
            let sealing_key_bytes = sealing_key.to_bytes();
            Ok((Vault { master_key, master_key_storage }, Some(sealing_key_bytes)))
        } else {
            Err(Error::MasterKeyStorage(String::from_str(
                "master key storage failed to return the same stored key during initialization",
            )))
        }
    }

    /// The existing-branch tail of `initialize`, split out so its outcome
    /// is pinned for every value the custody backend can have returned:
    /// a malformed sealing key fails as corruption, a missing record is the
    /// distinct master-key-not-found condition, and a record that does not
    /// unwrap under this sealing key is a cryptographic mismatch.
    pub fn recover(sealing_key_file: &[u8], fetched: Option<EncryptedKey>, master_key_storage: S)
        -> (r: Result<Vault<S>, Error>)
        ensures
            (r matches Ok(v) ==> (sealing_key_file@.len() == 32
                && v.storage() == master_key_storage
                && recoverable(record_of(fetched), sealing_key_file@, v.master_key_view()))),
            (sealing_key_file@.len() != 32 <==> r matches Err(Error::Initializing(_))),
            ((sealing_key_file@.len() == 32 && fetched is None) <==> r matches Err(Error::MasterKeyNotFound)),
            (r matches Err(Error::Encryption(_)) ==> (sealing_key_file@.len() == 32 && fetched is Some)),
            (r is Err ==> (r matches Err(Error::Initializing(_)) || r matches Err(Error::MasterKeyNotFound)
                || r matches Err(Error::Encryption(_)))),
            forall|m: Seq<u8>| (sealing_key_file@.len() == 32 && #[trigger] recoverable(record_of(fetched), sealing_key_file@, m)) ==> (r matches Ok(v) && v.master_key_view() == m),
    {
        let sealing_key = match EncryptionKey::from_bytes(sealing_key_file) {
            Some(k) => k,
            None => {
                return Err(Error::Initializing(String::from_str(
                    "error deserializing sealing key",
                )));
            },
        };
        match fetched {
            Some(encrypted_key) => match encrypted_key.decrypt(&sealing_key) {
                Ok(master_key) => Ok(Vault { master_key, master_key_storage }),
                Err(e) => Err(e),
            },
            None => Err(Error::MasterKeyNotFound),
        }
    }

    /// Seals `payload` under the key `key` names, after asking a supplied
    /// capability for the encrypt action; denial short-circuits with a
    /// permission-denied error naming the key and action, and no
    /// cryptography runs. Only the master identity is implemented.
    pub fn encrypt_payload(&self, key: &KeyId, payload: &[u8], permissions: Option<&Permissions>)
        -> (r: Result<Vec<u8>, Error>)
        requires
            *key is Master,
            payload@.len() < MAX_PLAINTEXT_BYTES,
        ensures
            (permission_denied(permissions, *key, EncryptionKeyAction::Encrypt) <==> r matches Err(Error::PermissionDenied { .. })),
            (r matches Err(Error::PermissionDenied { key: k, action: a }) ==> k == *key && a == EncryptionKeyAction::Encrypt),
            (r matches Err(e) ==> e is PermissionDenied),
            (r matches Ok(bytes) ==> decrypts_to(bytes@, self.master_key_view(), payload@)),
            (r matches Ok(bytes) ==> (spec_decode(bytes@) matches Some(env) && env.key_version == 0)),
    {
        if let Some(perms) = permissions {
            if !perms.allowed_to(key, EncryptionKeyAction::Encrypt) {
                return Err(Error::PermissionDenied {
                    key: *key,
                    action: EncryptionKeyAction::Encrypt,
                });
            }
        }
        let master = match key {
            KeyId::Master => &self.master_key,
            KeyId::Id(_) => unreached(),
        };
        let envelope = master.encrypt_payload(payload);
        proof {
            lemma_encode_decode(envelope@);
        }
        Ok(envelope.to_vec())
    }

    /// Opens the envelope bytes `payload` with the key `key` names, after
    /// asking a supplied capability for the decrypt action. Succeeds
    /// exactly when the capability does not deny and the bytes are an
    /// envelope whose ciphertext is the sealed form of some message under
    /// the named key, and then returns that message; a malformed envelope
    /// and a failed authentication are one opaque encryption error.
    pub fn decrypt_payload(&self, key: &KeyId, payload: &[u8], permissions: Option<&Permissions>)
        -> (r: Result<Vec<u8>, Error>)
        requires
            *key is Master,
        ensures
            (permission_denied(permissions, *key, EncryptionKeyAction::Decrypt) <==> r matches Err(Error::PermissionDenied { .. })),
            (r matches Err(Error::PermissionDenied { key: k, action: a }) ==> k == *key && a == EncryptionKeyAction::Decrypt),
            (r matches Ok(msg) ==> decrypts_to(payload@, self.master_key_view(), msg@)),
            forall|m: Seq<u8>| (!permission_denied(permissions, *key, EncryptionKeyAction::Decrypt)
                && decrypts_to(payload@, self.master_key_view(), m)) ==> (r matches Ok(msg) && msg@ == m),
            (r matches Err(e) ==> e is PermissionDenied || e is Encryption),
    {
        if let Some(perms) = permissions {
            if !perms.allowed_to(key, EncryptionKeyAction::Decrypt) {
                return Err(Error::PermissionDenied {
                    key: *key,
                    action: EncryptionKeyAction::Decrypt,
                });
            }
        }
        let envelope = match VaultPayload::from_slice(payload) {
            Ok(envelope) => envelope,
            Err(e) => {
                return Err(e);
            },
        };
        let master = match key {
            KeyId::Master => &self.master_key,
            KeyId::Id(_) => unreached(),
        };
        master.decrypt_payload(&envelope)
    }
}

} // verus!
