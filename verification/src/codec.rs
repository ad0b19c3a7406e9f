//! Binary envelope format for one authenticated ciphertext: a key-version
//! word, an algorithm tag, the ciphertext and the nonce, each byte string
//! preceded by a fixed-width little-endian length.

use vstd::prelude::*;
use vstd::string::*;

use crate::error::Error;

verus! {

/// The algorithm that produced the ciphertext of an envelope. A closed
/// enumeration with a single variant today; new algorithms must be appended,
/// never renumbered, so old envelopes keep decoding.
#[derive(Clone, Copy, PartialEq, Eq, Structural)]
pub enum Encryption {
    XChaCha20Poly1305,
}

/// One authenticated ciphertext unit: what the vault persists and hands out.
pub struct VaultPayload {
    pub key_version: u32,
    pub encryption: Encryption,
    pub payload: Vec<u8>,
    pub nonce: Vec<u8>,
}

/// The mathematical content of an envelope. The algorithm tag is omitted:
/// only one algorithm exists, and the codec accepts no other tag.
pub struct VaultPayloadView {
    pub key_version: u32,
    pub payload: Seq<u8>,
    pub nonce: Seq<u8>,
}

impl View for VaultPayload {
    type V = VaultPayloadView;

    open spec fn view(&self) -> VaultPayloadView {
        VaultPayloadView { key_version: self.key_version, payload: self.payload@, nonce: self.nonce@ }
    }
}

/// The four little-endian bytes of a 32-bit word.
pub open spec fn spec_u32_le(n: u32) -> Seq<u8> {
    seq![
        (n & 0xff) as u8,
        ((n >> 8) & 0xff) as u8,
        ((n >> 16) & 0xff) as u8,
        ((n >> 24) & 0xff) as u8,
    ]
}

/// The eight little-endian bytes of a 64-bit word.
pub open spec fn spec_u64_le(n: u64) -> Seq<u8> {
    seq![
        (n & 0xff) as u8,
        ((n >> 8) & 0xff) as u8,
        ((n >> 16) & 0xff) as u8,
        ((n >> 24) & 0xff) as u8,
        ((n >> 32) & 0xff) as u8,
        ((n >> 40) & 0xff) as u8,
        ((n >> 48) & 0xff) as u8,
        ((n >> 56) & 0xff) as u8,
    ]
}

/// The 32-bit word whose little-endian bytes are `b`.
pub open spec fn spec_u32_of(b: Seq<u8>) -> u32
    recommends
        b.len() == 4,
{
    (b[0] as u32) | ((b[1] as u32) << 8) | ((b[2] as u32) << 16) | ((b[3] as u32) << 24)
}

/// The 64-bit word whose little-endian bytes are `b`.
pub open spec fn spec_u64_of(b: Seq<u8>) -> u64
    recommends
        b.len() == 8,
{
    (b[0] as u64) | ((b[1] as u64) << 8) | ((b[2] as u64) << 16) | ((b[3] as u64) << 24)
        | ((b[4] as u64) << 32) | ((b[5] as u64) << 40) | ((b[6] as u64) << 48)
        | ((b[7] as u64) << 56)
}

pub proof fn lemma_u32_le_of(n: u32)
    ensures
        spec_u32_of(spec_u32_le(n)) == n,
{
    assert(((n & 0xff) as u8 as u32) | ((((n >> 8) & 0xff) as u8 as u32) << 8)
        | ((((n >> 16) & 0xff) as u8 as u32) << 16) | ((((n >> 24) & 0xff) as u8 as u32) << 24)
        == n) by (bit_vector);
}

pub proof fn lemma_u64_le_of(n: u64)
    ensures
        spec_u64_of(spec_u64_le(n)) == n,
{
    assert(((n & 0xff) as u8 as u64) | ((((n >> 8) & 0xff) as u8 as u64) << 8)
        | ((((n >> 16) & 0xff) as u8 as u64) << 16) | ((((n >> 24) & 0xff) as u8 as u64) << 24)
        | ((((n >> 32) & 0xff) as u8 as u64) << 32) | ((((n >> 40) & 0xff) as u8 as u64) << 40)
        | ((((n >> 48) & 0xff) as u8 as u64) << 48) | ((((n >> 56) & 0xff) as u8 as u64) << 56)
        == n) by (bit_vector);
}

/// Whether an envelope's byte strings are short enough for their lengths to
/// be written as 64-bit words. Every envelope built from in-memory values is.
pub open spec fn encodable(v: VaultPayloadView) -> bool {
    v.payload.len() <= u64::MAX && v.nonce.len() <= u64::MAX
}

/// The deterministic serialization of an envelope: key version, algorithm
/// tag, length-prefixed ciphertext, length-prefixed nonce.
pub open spec fn spec_encode(v: VaultPayloadView) -> Seq<u8> {
    spec_u32_le(v.key_version) + spec_u32_le(0) + spec_u64_le(v.payload.len() as u64) + v.payload
        + spec_u64_le(v.nonce.len() as u64) + v.nonce
}

/// The envelope a byte string is the serialization of, if any: the codec
/// accepts exactly the well-formed encodings, with no trailing bytes.
pub open spec fn spec_decode(bytes: Seq<u8>) -> Option<VaultPayloadView> {
    if bytes.len() < 24 {
        None
    } else {
        let key_version = spec_u32_of(bytes.subrange(0, 4));
        let tag = spec_u32_of(bytes.subrange(4, 8));
        let payload_len = spec_u64_of(bytes.subrange(8, 16)) as int;
        if tag != 0 || bytes.len() < 24 + payload_len {
            None
        } else {
            let nonce_len = spec_u64_of(bytes.subrange(16 + payload_len, 24 + payload_len)) as int;
            if bytes.len() != 24 + payload_len + nonce_len {
                None
            } else {
                Some(VaultPayloadView {
                    key_version,
                    payload: bytes.subrange(16, 16 + payload_len),
                    nonce: bytes.subrange(24 + payload_len, 24 + payload_len + nonce_len),
                })
            }
        }
    }
}

/// Decoding inverts encoding: every encodable envelope round-trips through
/// its serialization unchanged.
pub proof fn lemma_encode_decode(v: VaultPayloadView)
    requires
        encodable(v),
    ensures
        spec_decode(spec_encode(v)) == Some(v),
{
    let bytes = spec_encode(v);
    let p = v.payload.len() as int;
    let n = v.nonce.len() as int;
    assert(bytes.len() == 24 + p + n);
    assert(bytes.subrange(0, 4) =~= spec_u32_le(v.key_version));
    assert(bytes.subrange(4, 8) =~= spec_u32_le(0));
    assert(bytes.subrange(8, 16) =~= spec_u64_le(v.payload.len() as u64));
    lemma_u32_le_of(v.key_version);
    lemma_u32_le_of(0);
    lemma_u64_le_of(v.payload.len() as u64);
    assert(bytes.subrange(16, 16 + p) =~= v.payload);
    assert(bytes.subrange(16 + p, 24 + p) =~= spec_u64_le(v.nonce.len() as u64));
    lemma_u64_le_of(v.nonce.len() as u64);
    assert(bytes.subrange(24 + p, 24 + p + n) =~= v.nonce);
}

/// Appends every byte of `data` to `out`.
pub fn push_bytes(out: &mut Vec<u8>, data: &[u8])
    ensures
        final(out)@ == old(out)@ + data@,
{
    let mut i: usize = 0;
    while i < data.len()
        invariant
            i <= data@.len(),
            out@ == old(out)@ + data@.subrange(0, i as int),
        decreases data@.len() - i,
    {
        out.push(data[i]);
        proof {
            assert(out@ =~= old(out)@ + data@.subrange(0, i + 1));
        }
        i = i + 1;
    }
    proof {
        assert(out@ =~= old(out)@ + data@);
    }
}

/// Copies `bytes[start..end]` into a fresh vector.
pub fn copy_range(bytes: &[u8], start: usize, end: usize) -> (r: Vec<u8>)
    requires
        start <= end <= bytes@.len(),
    ensures
        r@ == bytes@.subrange(start as int, end as int),
{
    let mut out: Vec<u8> = Vec::new();
    let mut i: usize = start;
    while i < end
        invariant
            start <= i <= end <= bytes@.len(),
            out@ == bytes@.subrange(start as int, i as int),
        decreases end - i,
    {
        out.push(bytes[i]);
        proof {
            assert(out@ =~= bytes@.subrange(start as int, i + 1));
        }
        i = i + 1;
    }
    out
}

fn push_u32_le(out: &mut Vec<u8>, n: u32)
    ensures
        final(out)@ == old(out)@ + spec_u32_le(n),
{
    proof {
        assert(n & 0xff <= 0xff && (n >> 8) & 0xff <= 0xff && (n >> 16) & 0xff <= 0xff
            && (n >> 24) & 0xff <= 0xff) by (bit_vector);
    }
    out.push((n & 0xff) as u8);
    out.push(((n >> 8) & 0xff) as u8);
    out.push(((n >> 16) & 0xff) as u8);
    out.push(((n >> 24) & 0xff) as u8);
    proof {
        assert(out@ =~= old(out)@ + spec_u32_le(n));
    }
}

pub fn push_u64_le(out: &mut Vec<u8>, n: u64)
    ensures
        final(out)@ == old(out)@ + spec_u64_le(n),
{
    proof {
        assert(n & 0xff <= 0xff && (n >> 8) & 0xff <= 0xff && (n >> 16) & 0xff <= 0xff
            && (n >> 24) & 0xff <= 0xff && (n >> 32) & 0xff <= 0xff && (n >> 40) & 0xff <= 0xff
            && (n >> 48) & 0xff <= 0xff && (n >> 56) & 0xff <= 0xff) by (bit_vector);
    }
    out.push((n & 0xff) as u8);
    out.push(((n >> 8) & 0xff) as u8);
    out.push(((n >> 16) & 0xff) as u8);
    out.push(((n >> 24) & 0xff) as u8);
    out.push(((n >> 32) & 0xff) as u8);
    out.push(((n >> 40) & 0xff) as u8);
    out.push(((n >> 48) & 0xff) as u8);
    out.push(((n >> 56) & 0xff) as u8);
    proof {
        assert(out@ =~= old(out)@ + spec_u64_le(n));
    }
}

fn read_u32_le(bytes: &[u8], offset: usize) -> (r: u32)
    requires
        offset + 4 <= bytes@.len(),
    ensures
        r == spec_u32_of(bytes@.subrange(offset as int, offset as int + 4)),
{
    (bytes[offset] as u32) | ((bytes[offset + 1] as u32) << 8)
        | ((bytes[offset + 2] as u32) << 16) | ((bytes[offset + 3] as u32) << 24)
}

pub fn read_u64_le(bytes: &[u8], offset: usize) -> (r: u64)
    requires
        offset + 8 <= bytes@.len(),
    ensures
        r == spec_u64_of(bytes@.subrange(offset as int, offset as int + 8)),
{
    (bytes[offset] as u64) | ((bytes[offset + 1] as u64) << 8)
        | ((bytes[offset + 2] as u64) << 16) | ((bytes[offset + 3] as u64) << 24)
        | ((bytes[offset + 4] as u64) << 32) | ((bytes[offset + 5] as u64) << 40)
        | ((bytes[offset + 6] as u64) << 48) | ((bytes[offset + 7] as u64) << 56)
}

impl VaultPayload {
    /// Serializes this envelope.
    pub fn to_vec(&self) -> (r: Vec<u8>)
        ensures
            r@ == spec_encode(self@),
    {
        let mut out: Vec<u8> = Vec::new();
        push_u32_le(&mut out, self.key_version);
        push_u32_le(&mut out, 0);
        push_u64_le(&mut out, self.payload.len() as u64);
        push_bytes(&mut out, self.payload.as_slice());
        push_u64_le(&mut out, self.nonce.len() as u64);
        push_bytes(&mut out, self.nonce.as_slice());
        out
    }

    /// Parses an envelope back out of its serialization, rejecting anything
    /// that is not the exact encoding of one.
    pub fn from_slice(bytes: &[u8]) -> (r: Result<VaultPayload, Error>)
        ensures
            (r matches Ok(v) ==> spec_decode(bytes@) == Some(v@)),
            (r is Err ==> spec_decode(bytes@) is None),
            (r matches Err(e) ==> e is Encryption),
            (spec_decode(bytes@) matches Some(m) ==> r matches Ok(v) && v@ == m),
    {
        let n: usize = bytes.len();
        if n < 24 {
            return Err(decode_error());
        }
        let key_version = read_u32_le(bytes, 0);
        let tag = read_u32_le(bytes, 4);
        if tag != 0 {
            return Err(decode_error());
        }
        let payload_len = read_u64_le(bytes, 8);
        if payload_len > (n - 24) as u64 {
            return Err(decode_error());
        }
        let plen = payload_len as usize;
        let nonce_len = read_u64_le(bytes, 16 + plen);
        if nonce_len != (n - 24 - plen) as u64 {
            return Err(decode_error());
        }
        let payload = copy_range(bytes, 16, 16 + plen);
        let nonce = copy_range(bytes, 24 + plen, n);
        Ok(VaultPayload {
            key_version,
            encryption: Encryption::XChaCha20Poly1305,
            payload,
            nonce,
        })
    }
}

fn decode_error() -> (r: Error)
    ensures
        r is Encryption,
{
    Error::Encryption(String::from_str("not a well-formed encrypted envelope"))
}

} // verus!
