//! The pluggable key-custody interface: a store for one wrapped master key
//! per logical server identity, decoupling "where the wrapped key lives"
//! from the vault logic. Includes a verified in-memory backend, a
//! deliberately lossy backend for exercising the readback guard, and the
//! pure naming and framing rules of the local-filesystem backend.

use vstd::prelude::*;
use vstd::string::*;

use crate::codec::{copy_range, spec_u64_le, spec_u64_of};
use crate::codec::lemma_u64_le_of;
use crate::key::EncryptedKey;

verus! {

/// A failure inside a custody backend, normalized to one message so the
/// vault's error taxonomy stays backend-agnostic.
#[derive(Debug)]
pub struct StorageError {
    message: String,
}

impl StorageError {
    pub closed spec fn message_view(&self) -> Seq<char> {
        self.message@
    }

    pub fn new(message: String) -> (r: Self)
        ensures
            r.message_view() == message@,
    {
        StorageError { message }
    }

    pub fn into_message(self) -> (r: String)
        ensures
            r@ == self.message_view(),
    {
        self.message
    }
}

/// A custody backend: fetch-optional and upsert of the wrapped master key,
/// keyed by server identity. `record_for` is the backend's current record
/// for an identity; an honest answer reflects it, but nothing obliges a
/// write to be durable — the vault verifies its own writes by reading them
/// back rather than trusting the backend.
pub trait MasterKeyStorage: Sized {
    /// The stored wrapped-key bytes for `server_id`, if any. The default
    /// stands for a backend whose contents are unknown; honest backends
    /// refine it.
    open spec fn record_for(&self, server_id: u64) -> Option<Seq<u8>> {
        None
    }

    /// Fetches the wrapped master key for `server_id`; `None` means no
    /// record exists yet, which is distinguishable from a backend error.
    fn master_key_for(&self, server_id: u64) -> (r: Result<Option<EncryptedKey>, StorageError>)
        ensures
            (r matches Ok(Some(k)) ==> self.record_for(server_id) == Some(k@)),
            (r matches Ok(None) ==> self.record_for(server_id) is None),
    ;

    /// Stores the wrapped master key for `server_id` (an idempotent
    /// upsert). No durability is promised here: callers who need certainty
    /// must read the record back.
    fn set_master_key_for(&mut self, server_id: u64, key: &EncryptedKey) -> (r: Result<
        (),
        StorageError,
    >);
}

/// The record a sequence of writes leaves for `server_id`: the payload of
/// the latest write with that identity.
pub open spec fn spec_lookup(records: Seq<(u64, Vec<u8>)>, server_id: u64) -> Option<Seq<u8>>
    decreases records.len(),
{
    if records.len() == 0 {
        None
    } else if records.last().0 == server_id {
        Some(records.last().1@)
    } else {
        spec_lookup(records.drop_last(), server_id)
    }
}

/// A custody backend held entirely in memory: the append-only log of writes,
/// answered newest-first. Honest and never failing.
#[derive(Clone)]
pub struct MemoryMasterKeyStorage {
    records: Vec<(u64, Vec<u8>)>,
}

impl MemoryMasterKeyStorage {
    /// How many writes this backend has accepted.
    pub closed spec fn write_count(&self) -> nat {
        self.records@.len()
    }

    pub fn new() -> (r: Self)
        ensures
            r.write_count() == 0,
            forall|id: u64| r.record_for(id) is None,
    {
        MemoryMasterKeyStorage { records: Vec::new() }
    }

    /// How many records this backend holds.
    pub fn record_count(&self) -> (r: usize)
        ensures
            r == self.write_count(),
    {
        self.records.len()
    }
}

impl MasterKeyStorage for MemoryMasterKeyStorage {
    closed spec fn record_for(&self, server_id: u64) -> Option<Seq<u8>> {
        spec_lookup(self.records@, server_id)
    }

    fn master_key_for(&self, server_id: u64) -> (r: Result<Option<EncryptedKey>, StorageError>)
        ensures
            r is Ok,
    {
        let mut i: usize = self.records.len();
        proof {
            assert(self.records@.take(i as int) =~= self.records@);
        }
        while i > 0
            invariant
                i <= self.records@.len(),
                spec_lookup(self.records@.take(i as int), server_id) == spec_lookup(
                    self.records@,
                    server_id,
                ),
            decreases i,
        {
            i = i - 1;
            proof {
                assert(self.records@.take(i + 1).last() == self.records@[i as int]);
            }
            if self.records[i].0 == server_id {
                let bytes = copy_range(self.records[i].1.as_slice(), 0, self.records[i].1.len());
                return Ok(Some(EncryptedKey::from_bytes(bytes)));
            }
            proof {
                assert(self.records@.take(i + 1).drop_last() =~= self.records@.take(i as int));
            }
        }
        proof {
            assert(self.records@.take(0) =~= Seq::<(u64, Vec<u8>)>::empty());
        }
        Ok(None)
    }

    fn set_master_key_for(&mut self, server_id: u64, key: &EncryptedKey) -> (r: Result<
        (),
        StorageError,
    >)
        ensures
            r is Ok,
            final(self).record_for(server_id) == Some(key@),
            final(self).write_count() == old(self).write_count() + 1,
    {
        let bytes = key.to_vec();
        self.records.push((server_id, bytes));
        proof {
            assert(self.records@.last() == (server_id, bytes));
        }
        Ok(())
    }
}

/// A custody backend that acknowledges every write and stores nothing: the
/// shape of a misconfigured or silently failing remote store, against which
/// the vault's verify-before-commit step guards.
pub struct LossyMasterKeyStorage {}

impl LossyMasterKeyStorage {
    pub fn new() -> (r: Self)
        ensures
            forall|id: u64| r.record_for(id) is None,
    {
        LossyMasterKeyStorage {  }
    }
}

impl MasterKeyStorage for LossyMasterKeyStorage {
    closed spec fn record_for(&self, server_id: u64) -> Option<Seq<u8>> {
        None
    }

    fn master_key_for(&self, server_id: u64) -> (r: Result<Option<EncryptedKey>, StorageError>) {
        Ok(None)
    }

    fn set_master_key_for(&mut self, server_id: u64, key: &EncryptedKey) -> (r: Result<
        (),
        StorageError,
    >) {
        Ok(())
    }
}

pub open spec fn spec_digit(d: u64) -> char {
    if d == 0 {
        '0'
    } else if d == 1 {
        '1'
    } else if d == 2 {
        '2'
    } else if d == 3 {
        '3'
    } else if d == 4 {
        '4'
    } else if d == 5 {
        '5'
    } else if d == 6 {
        '6'
    } else if d == 7 {
        '7'
    } else if d == 8 {
        '8'
    } else {
        '9'
    }
}

/// The decimal digits of `n`, most significant first.
pub open spec fn spec_u64_decimal(n: u64) -> Seq<char>
    decreases n,
{
    if n < 10 {
        seq![spec_digit(n)]
    } else {
        spec_u64_decimal((n / 10) as u64) + seq![spec_digit(n % 10)]
    }
}

fn digit_str(d: u64) -> (r: &'static str)
    requires
        d < 10,
    ensures
        r@ == seq![spec_digit(d)],
{
    let r: &'static str = if d == 0 {
        "0"
    } else if d == 1 {
        "1"
    } else if d == 2 {
        "2"
    } else if d == 3 {
        "3"
    } else if d == 4 {
        "4"
    } else if d == 5 {
        "5"
    } else if d == 6 {
        "6"
    } else if d == 7 {
        "7"
    } else if d == 8 {
        "8"
    } else {
        "9"
    };
    proof {
        reveal_strlit("0");
        reveal_strlit("1");
        reveal_strlit("2");
        reveal_strlit("3");
        reveal_strlit("4");
        reveal_strlit("5");
        reveal_strlit("6");
        reveal_strlit("7");
        reveal_strlit("8");
        reveal_strlit("9");
        assert(r@ =~= seq![spec_digit(d)]);
    }
    r
}

/// Renders `n` in decimal, as the filesystem backend names a server
/// identity's folder.
pub fn u64_to_decimal(n: u64) -> (r: String)
    ensures
        r@ == spec_u64_decimal(n),
    decreases n,
{
    if n < 10 {
        digit_str(n).to_owned()
    } else {
        proof {
            assert(n / 10 < n) by (nonlinear_arith)
                requires
                    10 <= n,
            ;
        }
        let mut s = u64_to_decimal(n / 10);
        s.append(digit_str(n % 10));
        s
    }
}

/// Stores wrapped master keys on the local filesystem, one file per server
/// identity under a configured root directory. Explicitly low-security: the
/// wrapped key sits beside the data it protects, so anyone with the disk has
/// both. Only the pure rules live here — which path holds which identity's
/// record, and how the record is framed on disk; a caller performs the
/// reads and writes.
pub struct LocalMasterKeyStorage {
    directory: String,
}

impl LocalMasterKeyStorage {
    /// The configured root directory.
    pub closed spec fn directory_view(&self) -> Seq<char> {
        self.directory@
    }

    pub fn new(path: String) -> (r: Self)
        ensures
            r.directory_view() == path@,
    {
        LocalMasterKeyStorage { directory: path }
    }

    /// The folder holding every record of one server identity:
    /// `<directory>/<server_id>`.
    pub fn server_folder(&self, server_id: u64) -> (r: String)
        ensures
            r@ == self.directory_view() + "/"@ + spec_u64_decimal(server_id),
    {
        let id = u64_to_decimal(server_id);
        self.directory.clone().concat("/").concat(id.as_str())
    }

    /// The file holding the wrapped master key of one server identity:
    /// `<directory>/<server_id>/master_key`.
    pub fn master_key_file(&self, server_id: u64) -> (r: String)
        ensures
            r@ == self.directory_view() + "/"@ + spec_u64_decimal(server_id) + "/master_key"@,
    {
        self.server_folder(server_id).concat("/master_key")
    }

    /// The on-disk framing of one record, if the bytes carry one: an 8-byte
    /// little-endian length, then exactly that many bytes of wrapped key.
    pub open spec fn spec_record(bytes: Seq<u8>) -> Option<Seq<u8>> {
        if bytes.len() < 8 {
            None
        } else if bytes.len() == 8 + spec_u64_of(bytes.subrange(0, 8)) {
            Some(bytes.skip(8))
        } else {
            None
        }
    }

    /// Frames a wrapped key for its on-disk file.
    pub fn encode_record(key: &EncryptedKey) -> (r: Vec<u8>)
        ensures
            r@ == spec_u64_le(key@.len() as u64) + key@,
            Self::spec_record(r@) == Some(key@),
    {
        let data = key.to_vec();
        let mut out: Vec<u8> = Vec::new();
        crate::codec::push_u64_le(&mut out, data.len() as u64);
        crate::codec::push_bytes(&mut out, data.as_slice());
        proof {
            assert(out@.subrange(0, 8) =~= spec_u64_le(key@.len() as u64));
            lemma_u64_le_of(key@.len() as u64);
            assert(out@.skip(8) =~= key@);
        }
        out
    }

    /// Reads a wrapped key back out of its on-disk framing, rejecting
    /// anything whose length word does not match what follows it.
    pub fn decode_record(bytes: &[u8]) -> (r: Option<EncryptedKey>)
        ensures
            (r matches Some(k) ==> Self::spec_record(bytes@) == Some(k@)),
            (Self::spec_record(bytes@) matches Some(d) ==> (r matches Some(k) && k@ == d)),
    {
        let n: usize = bytes.len();
        if n < 8 {
            return None;
        }
        let len = crate::codec::read_u64_le(bytes, 0);
        if len != (n - 8) as u64 {
            return None;
        }
        let data = copy_range(bytes, 8, n);
        proof {
            assert(bytes@.skip(8) =~= bytes@.subrange(8, n as int));
        }
        Some(EncryptedKey::from_bytes(data))
    }
}

} // verus!
