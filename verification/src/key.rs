//! The symmetric key primitive: the only component that touches raw key
//! bytes and the cipher. Holds 32 raw key bytes; offers random generation,
//! AEAD sealing and opening of arbitrary payloads, and wrapping of itself
//! under a freshly generated wrapping key.

use vstd::prelude::*;

use chacha20poly1305::aead::generic_array::GenericArray;
use chacha20poly1305::aead::{Aead, NewAead, Payload};
use chacha20poly1305::XChaCha20Poly1305;
use rand::{thread_rng, Rng};

use crate::codec::{spec_decode, Encryption, VaultPayload, VaultPayloadView};
use crate::codec::lemma_encode_decode;
use crate::error::Error;

verus! {

/// Payloads at least this long are refused by the cipher: its 32-bit block
/// counter covers (2^32 - 1) blocks of 64 bytes.
pub const MAX_PLAINTEXT_BYTES: u64 = 274877906880;

/// The ciphertext-with-tag that the XChaCha20-Poly1305 construction produces
/// from a 32-byte key, a 24-byte nonce and a message, with empty associated
/// data. A function of those three arguments alone; its value is not
/// axiomatized beyond what the trusted wrappers below state.
pub uninterp spec fn xchacha_seal(key: Seq<u8>, nonce: Seq<u8>, msg: Seq<u8>) -> Seq<u8>;

/// Whether opening envelope `env` under `key` yields exactly `msg`.
pub open spec fn opens_to(key: Seq<u8>, env: VaultPayloadView, msg: Seq<u8>) -> bool {
    &&& env.nonce.len() == 24
    &&& msg.len() < MAX_PLAINTEXT_BYTES
    &&& env.payload == xchacha_seal(key, env.nonce, msg)
}

/// Whether `bytes` is the serialization of an envelope that opens under
/// `key` to exactly `msg`.
pub open spec fn decrypts_to(bytes: Seq<u8>, key: Seq<u8>, msg: Seq<u8>) -> bool {
    match spec_decode(bytes) {
        Some(env) => opens_to(key, env, msg),
        None => false,
    }
}

/// Whether the wrapped-key blob `wrapped` unwraps under `sealing_key` to the
/// raw master key bytes `master_key`.
pub open spec fn unwraps_to(wrapped: Seq<u8>, sealing_key: Seq<u8>, master_key: Seq<u8>) -> bool {
    master_key.len() == 32 && decrypts_to(wrapped, sealing_key, master_key)
}

/// Relies on `rand::thread_rng` and `Rng::gen`: 32 bytes from a
/// cryptographically secure source. Nothing is promised of their value.
#[verifier::external_body]
fn random_key_bytes() -> (r: Vec<u8>)
    ensures
        r@.len() == 32,
{
    thread_rng().gen::<[u8; 32]>().to_vec()
}

/// Relies on `rand::thread_rng` and `Rng::gen`: 24 bytes from a
/// cryptographically secure source. Nothing is promised of their value.
#[verifier::external_body]
fn random_nonce_bytes() -> (r: Vec<u8>)
    ensures
        r@.len() == 24,
{
    thread_rng().gen::<[u8; 24]>().to_vec()
}

/// Relies on `chacha20poly1305::XChaCha20Poly1305` (`Aead::encrypt`): the
/// ciphertext is a function of key, nonce and message alone, and is the
/// message's length plus a 16-byte tag. Encryption cannot fail below the
/// cipher's length limit, and the 32- and 24-byte demands keep the
/// `GenericArray` conversions from panicking.
#[verifier::external_body]
fn aead_seal(key: &[u8], nonce: &[u8], msg: &[u8]) -> (r: Vec<u8>)
    requires
        key@.len() == 32,
        nonce@.len() == 24,
        msg@.len() < MAX_PLAINTEXT_BYTES,
    ensures
        r@ == xchacha_seal(key@, nonce@, msg@),
        r@.len() == msg@.len() + 16,
{
    XChaCha20Poly1305::new(GenericArray::from_slice(key))
        .encrypt(GenericArray::from_slice(nonce), Payload { msg, aad: b"" })
        .unwrap()
}

/// Relies on `chacha20poly1305::XChaCha20Poly1305` (`Aead::decrypt`):
/// succeeds exactly on the sealed form of some message under this key and
/// nonce, and then returns that message — the cipher applies the keystream
/// after verifying the Poly1305 tag over the ciphertext, so a success
/// re-seals to the very input. On anything else it reports an error.
#[verifier::external_body]
fn aead_open(key: &[u8], nonce: &[u8], ciphertext: &[u8]) -> (r: Option<Vec<u8>>)
    requires
        key@.len() == 32,
        nonce@.len() == 24,
    ensures
        (r matches Some(msg) ==> msg@.len() < MAX_PLAINTEXT_BYTES && ciphertext@ == xchacha_seal(key@, nonce@, msg@)),
        forall|m: Seq<u8>| m.len() < MAX_PLAINTEXT_BYTES && ciphertext@ == xchacha_seal(key@, nonce@, m) ==> r is Some && (r matches Some(msg) ==> msg@ == m),
{
    XChaCha20Poly1305::new(GenericArray::from_slice(key))
        .decrypt(GenericArray::from_slice(nonce), Payload { msg: ciphertext, aad: b"" })
        .ok()
}

/// Relies on `zeroize::Zeroize` for `[u8]`: overwrites every byte of the
/// slice with zeros through volatile writes, keeping the length, so key
/// material does not linger in freed memory. The impl's only assertion,
/// that the length fits `isize`, holds of every vector's slice.
#[verifier::external_body]
fn zeroize_bytes(bytes: &mut Vec<u8>)
    ensures
        final(bytes)@.len() == old(bytes)@.len(),
        forall|i: int| 0 <= i < final(bytes)@.len() ==> final(bytes)@[i] == 0,
    opens_invariants none
    no_unwind
{
    zeroize::Zeroize::zeroize(bytes.as_mut_slice())
}

/// Round trip: an envelope that opens under a key to a message still does
/// so after being serialized and decoded again — what sealing emits,
/// opening recovers, for every key, envelope and message.
pub proof fn lemma_seal_round_trip(key: Seq<u8>, env: VaultPayloadView, msg: Seq<u8>)
    requires
        crate::codec::encodable(env),
        opens_to(key, env, msg),
    ensures
        decrypts_to(crate::codec::spec_encode(env), key, msg),
{
    lemma_encode_decode(env);
}

/// A raw symmetric key: either the live master key or a transient wrapping
/// key. Never serialized in the clear; it exists only in memory or wrapped.
pub struct EncryptionKey {
    bytes: Vec<u8>,
}

impl View for EncryptionKey {
    type V = Seq<u8>;

    closed spec fn view(&self) -> Seq<u8> {
        self.bytes@
    }
}

impl EncryptionKey {
    /// Every key holds exactly 32 bytes.
    #[verifier::type_invariant]
    spec fn wf(self) -> bool {
        self.bytes@.len() == 32
    }

    /// A fresh key of 32 cryptographically secure random bytes.
    pub fn random() -> (r: Self)
        ensures
            r@.len() == 32,
    {
        EncryptionKey { bytes: random_key_bytes() }
    }

    /// Reconstructs a key from its serialized form: the 32 raw bytes.
    pub fn from_bytes(bytes: &[u8]) -> (r: Option<Self>)
        ensures
            (r matches Some(k) ==> k@ == bytes@),
            r is Some <==> bytes@.len() == 32,
    {
        if bytes.len() == 32 {
            Some(EncryptionKey { bytes: crate::codec::copy_range(bytes, 0, 32) })
        } else {
            None
        }
    }

    /// The key's serialized form: its 32 raw bytes. Written only to the
    /// local sealing-key file, never stored beside the data it protects.
    pub fn to_bytes(&self) -> (r: Vec<u8>)
        ensures
            r@ == self@,
    {
        proof {
            use_type_invariant(self);
        }
        crate::codec::copy_range(self.bytes.as_slice(), 0, self.bytes.len())
    }

    /// Seals `payload` under this key with a fresh random 24-byte nonce —
    /// per call, never per key: reusing a nonce under one key is the
    /// catastrophic failure mode this must avoid.
    pub fn encrypt_payload(&self, payload: &[u8]) -> (r: VaultPayload)
        requires
            payload@.len() < MAX_PLAINTEXT_BYTES,
        ensures
            r@.key_version == 0,
            r@.payload.len() == payload@.len() + 16,
            opens_to(self@, r@, payload@),
    {
        proof {
            use_type_invariant(self);
        }
        let nonce = random_nonce_bytes();
        let encrypted = aead_seal(self.bytes.as_slice(), nonce.as_slice(), payload);
        VaultPayload {
            key_version: 0,
            encryption: Encryption::XChaCha20Poly1305,
            payload: encrypted,
            nonce,
        }
    }

    /// Opens envelope `payload` under this key. Succeeds exactly when the
    /// envelope's ciphertext is the sealed form of some message under this
    /// key and the envelope's nonce, and then returns that message; any
    /// other outcome is one opaque encryption error.
    pub fn decrypt_payload(&self, payload: &VaultPayload) -> (r: Result<Vec<u8>, Error>)
        ensures
            (r matches Ok(msg) ==> opens_to(self@, payload@, msg@)),
            forall|m: Seq<u8>| opens_to(self@, payload@, m) ==> (r matches Ok(msg) && msg@ == m),
            (r matches Err(e) ==> e is Encryption),
    {
        proof {
            use_type_invariant(self);
        }
        if payload.nonce.len() != 24 {
            return Err(crypto_error());
        }
        match aead_open(self.bytes.as_slice(), payload.nonce.as_slice(), payload.payload.as_slice()) {
            Some(msg) => Ok(msg),
            None => Err(crypto_error()),
        }
    }

    /// Wraps this key: generates a fresh random wrapping key, seals this
    /// key's raw bytes under it, and returns the wrapping key (destined for
    /// the sealing-key file) together with the wrapped form (destined for
    /// custody storage).
    pub fn encrypt_key(&self) -> (r: (EncryptionKey, EncryptedKey))
        ensures
            unwraps_to(r.1@, r.0@, self@),
            r.0@.len() == 32,
    {
        proof {
            use_type_invariant(self);
        }
        let wrapping_key = Self::random();
        let envelope = wrapping_key.encrypt_payload(self.bytes.as_slice());
        proof {
            lemma_encode_decode(envelope@);
        }
        let wrapped = EncryptedKey { bytes: envelope.to_vec() };
        (wrapping_key, wrapped)
    }
}

impl Drop for EncryptionKey {
    /// Destroying a key actively overwrites its backing memory:
    /// deallocation alone does not erase contents, and no raw key bytes may
    /// outlive the vault beyond the two persisted wrapped forms.
    fn drop(&mut self)
        opens_invariants none
        no_unwind
    {
        proof {
            use_type_invariant(&*self);
        }
        zeroize_bytes(&mut self.bytes);
    }
}

fn crypto_error() -> (r: Error)
    ensures
        r is Encryption,
{
    Error::Encryption(String::from_str("payload could not be decrypted"))
}

/// A master key wrapped (sealed) under a wrapping key: an opaque blob, the
/// serialization of one envelope. Equality-comparable so a custody
/// backend's readback can be verified against what was written.
pub struct EncryptedKey {
    bytes: Vec<u8>,
}

impl View for EncryptedKey {
    type V = Seq<u8>;

    closed spec fn view(&self) -> Seq<u8> {
        self.bytes@
    }
}

impl EncryptedKey {
    /// Reconstructs a wrapped key from its stored bytes.
    pub fn from_bytes(bytes: Vec<u8>) -> (r: Self)
        ensures
            r@ == bytes@,
    {
        EncryptedKey { bytes }
    }

    /// A copy of the wrapped key's bytes, as a custody backend stores them.
    pub fn to_vec(&self) -> (r: Vec<u8>)
        ensures
            r@ == self@,
    {
        crate::codec::copy_range(self.bytes.as_slice(), 0, self.bytes.len())
    }

    /// Unwraps the master key with the sealing key. Succeeds exactly when
    /// this blob decodes to an envelope that opens under `key` to 32 raw
    /// bytes, and then returns the key those bytes make up; a mismatched
    /// sealing key, a tampered record and a malformed blob all yield the
    /// same opaque encryption error.
    pub fn decrypt(&self, key: &EncryptionKey) -> (r: Result<EncryptionKey, Error>)
        ensures
            (r matches Ok(k) ==> unwraps_to(self@, key@, k@)),
            forall|m: Seq<u8>| unwraps_to(self@, key@, m) ==> (r matches Ok(k) && k@ == m),
            (r matches Err(e) ==> e is Encryption),
    {
        let envelope = match VaultPayload::from_slice(self.bytes.as_slice()) {
            Ok(envelope) => envelope,
            Err(_) => {
                return Err(crypto_error());
            },
        };
        let decrypted = match key.decrypt_payload(&envelope) {
            Ok(decrypted) => decrypted,
            Err(_) => {
                return Err(crypto_error());
            },
        };
        if decrypted.len() != 32 {
            return Err(crypto_error());
        }
        Ok(EncryptionKey { bytes: decrypted })
    }
}

impl PartialEq for EncryptedKey {
    /// Byte-for-byte comparison of the wrapped forms.
    fn eq(&self, other: &Self) -> (r: bool) {
        if self.bytes.len() != other.bytes.len() {
            return false;
        }
        let mut i: usize = 0;
        while i < self.bytes.len()
            invariant
                i <= self.bytes@.len(),
                self.bytes@.len() == other.bytes@.len(),
                forall|j: int| 0 <= j < i ==> self.bytes@[j] == other.bytes@[j],
            decreases self.bytes@.len() - i,
        {
            if self.bytes[i] != other.bytes[i] {
                return false;
            }
            i = i + 1;
        }
        proof {
            assert(self.bytes@ =~= other.bytes@);
        }
        true
    }
}

impl vstd::std_specs::cmp::PartialEqSpecImpl for EncryptedKey {
    open spec fn obeys_eq_spec() -> bool {
        true
    }

    open spec fn eq_spec(&self, other: &EncryptedKey) -> bool {
        self@ == other@
    }
}

impl Eq for EncryptedKey {

}

} // verus!
