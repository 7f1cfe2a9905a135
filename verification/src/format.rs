//! The binary layout of a `.cista` file.
//!
//! ```text
//! MAGIC (8) | header (56) | ciphertext length u32 LE (4) | ciphertext
//! header = format_version u16 LE | kdf_id u8 | m_cost u32 LE | t_cost u32 LE
//!        | p_cost u32 LE | salt (16) | aead_id u8 | nonce (24)
//! ```
use crate::{CoreError, CoreResult};
use vstd::bytes::*;
use vstd::prelude::*;

verus! {

broadcast use vstd::array::group_array_axioms;

/// The eight bytes every vault file starts with: `CISTA\0\0\0`.
pub const MAGIC: [u8; 8] = [67, 73, 83, 84, 65, 0, 0, 0];

pub const CURRENT_FORMAT_VERSION: u16 = 1;

pub const SALT_LEN: usize = 16;

pub const NONCE_LEN: usize = 24;

/// Number of bytes of a serialized [`VaultHeader`].
pub const HEADER_LEN: usize = 56;

/// Offset of the KDF identifier byte inside a serialized header.
pub const KDF_ID_OFFSET: usize = 2;

/// Offset of the AEAD identifier byte inside a serialized header.
pub const AEAD_ID_OFFSET: usize = 31;

/// Number of bytes before the ciphertext in a `.cista` file.
pub const FILE_PREFIX_LEN: usize = 68;

/// The magic bytes as a sequence.
pub open spec fn spec_magic() -> Seq<u8> {
    seq![67u8, 73u8, 83u8, 84u8, 65u8, 0u8, 0u8, 0u8]
}

/// Key-derivation functions a vault header can name.
#[derive(Debug, Clone, Copy, PartialEq, Eq)]
pub enum KdfId {
    Argon2id,
}

impl KdfId {
    /// The byte that identifies this KDF on disk.
    pub open spec fn spec_code(self) -> u8 {
        match self {
            KdfId::Argon2id => 1,
        }
    }

    /// The byte that identifies this KDF on disk.
    pub fn code(self) -> (b: u8)
        ensures
            b == self.spec_code(),
    {
        match self {
            KdfId::Argon2id => 1,
        }
    }

    /// Decodes a KDF identifier byte; only `1` (Argon2id) is known.
    pub fn try_from(value: u8) -> (r: CoreResult<KdfId>)
        ensures
            value == 1 ==> r == Ok::<KdfId, CoreError>(KdfId::Argon2id),
            value != 1 ==> r matches Err(CoreError::InvalidFormat),
    {
        match value {
            1 => Ok(KdfId::Argon2id),
            _ => Err(CoreError::InvalidFormat),
        }
    }
}

/// AEAD ciphers a vault header can name.
#[derive(Debug, Clone, Copy, PartialEq, Eq)]
pub enum AeadId {
    XChaCha20Poly1305,
}

impl AeadId {
    /// The byte that identifies this cipher on disk.
    pub open spec fn spec_code(self) -> u8 {
        match self {
            AeadId::XChaCha20Poly1305 => 1,
        }
    }

    /// The byte that identifies this cipher on disk.
    pub fn code(self) -> (b: u8)
        ensures
            b == self.spec_code(),
    {
        match self {
            AeadId::XChaCha20Poly1305 => 1,
        }
    }

    /// Decodes an AEAD identifier byte; only `1` (XChaCha20-Poly1305) is known.
    pub fn try_from(value: u8) -> (r: CoreResult<AeadId>)
        ensures
            value == 1 ==> r == Ok::<AeadId, CoreError>(AeadId::XChaCha20Poly1305),
            value != 1 ==> r matches Err(CoreError::InvalidFormat),
    {
        match value {
            1 => Ok(AeadId::XChaCha20Poly1305),
            _ => Err(CoreError::InvalidFormat),
        }
    }
}

/// The authenticated, unencrypted part of a vault file.
#[derive(Debug, PartialEq, Eq)]
pub struct VaultHeader {
    pub format_version: u16,
    pub kdf_id: KdfId,
    pub kdf_memory_kib: u32,
    pub kdf_iterations: u32,
    pub kdf_parallelism: u32,
    pub salt: [u8; SALT_LEN],
    pub aead_id: AeadId,
    pub nonce: [u8; NONCE_LEN],
}

/// The serialized form of a header.
pub open spec fn spec_header_bytes(h: VaultHeader) -> Seq<u8> {
    spec_u16_to_le_bytes(h.format_version) + seq![h.kdf_id.spec_code()] + spec_u32_to_le_bytes(
        h.kdf_memory_kib,
    ) + spec_u32_to_le_bytes(h.kdf_iterations) + spec_u32_to_le_bytes(h.kdf_parallelism)
        + h.salt@ + seq![h.aead_id.spec_code()] + h.nonce@
}

/// `b` starts with a well-formed header: long enough, and both identifier
/// bytes are known.
pub open spec fn spec_header_parses(b: Seq<u8>) -> bool {
    &&& b.len() >= HEADER_LEN
    &&& b[KDF_ID_OFFSET as int] == 1
    &&& b[AEAD_ID_OFFSET as int] == 1
}

/// Every field of `h` is the one stored at its place in `b`.
pub open spec fn spec_header_read_from(h: VaultHeader, b: Seq<u8>) -> bool {
    &&& h.format_version == spec_u16_from_le_bytes(b.subrange(0, 2))
    &&& h.kdf_id == KdfId::Argon2id
    &&& h.kdf_memory_kib == spec_u32_from_le_bytes(b.subrange(3, 7))
    &&& h.kdf_iterations == spec_u32_from_le_bytes(b.subrange(7, 11))
    &&& h.kdf_parallelism == spec_u32_from_le_bytes(b.subrange(11, 15))
    &&& h.salt@ == b.subrange(15, 31)
    &&& h.aead_id == AeadId::XChaCha20Poly1305
    &&& h.nonce@ == b.subrange(32, 56)
}

/// A `.cista` file in memory: its header and its encrypted payload.
pub struct CistaFile {
    pub header: VaultHeader,
    pub ciphertext: Vec<u8>,
}

/// The serialized form of a file whose ciphertext is `ct`.
pub open spec fn spec_file_bytes(h: VaultHeader, ct: Seq<u8>) -> Seq<u8> {
    spec_magic() + spec_header_bytes(h) + spec_u32_to_le_bytes(ct.len() as u32) + ct
}

/// The ciphertext length stored in a file that starts with a valid header.
pub open spec fn spec_stored_ct_len(b: Seq<u8>) -> nat {
    spec_u32_from_le_bytes(b.subrange(64, 68)) as nat
}

/// `b` is a complete `.cista` file: magic, a valid header, a length field
/// and at least that many ciphertext bytes.
pub open spec fn spec_file_parses(b: Seq<u8>) -> bool {
    &&& b.len() >= FILE_PREFIX_LEN
    &&& b.subrange(0, 8) == spec_magic()
    &&& spec_header_parses(b.subrange(8, b.len() as int))
    &&& FILE_PREFIX_LEN + spec_stored_ct_len(b) <= b.len()
}

impl VaultHeader {
    /// Serializes the header (56 bytes, little-endian integers).
    pub fn to_bytes(&self) -> (bytes: Vec<u8>)
        ensures
            bytes@ == spec_header_bytes(*self),
            bytes@.len() == HEADER_LEN,
    {
        proof {
            lemma_auto_spec_u16_to_from_le_bytes();
            lemma_auto_spec_u32_to_from_le_bytes();
        }
        let mut bytes: Vec<u8> = Vec::new();
        let mut part = u16_to_le_bytes(self.format_version);
        bytes.append(&mut part);
        bytes.push(self.kdf_id.code());
        let mut part = u32_to_le_bytes(self.kdf_memory_kib);
        bytes.append(&mut part);
        let mut part = u32_to_le_bytes(self.kdf_iterations);
        bytes.append(&mut part);
        let mut part = u32_to_le_bytes(self.kdf_parallelism);
        bytes.append(&mut part);
        bytes.extend_from_slice(self.salt.as_slice());
        bytes.push(self.aead_id.code());
        bytes.extend_from_slice(self.nonce.as_slice());
        assert(bytes@ =~= spec_header_bytes(*self));
        bytes
    }

    /// Parses a header from the start of `bytes`, returning it with the
    /// number of bytes consumed.
    pub fn from_bytes(bytes: &[u8]) -> (r: CoreResult<(VaultHeader, usize)>)
        ensures
            spec_header_parses(bytes@) <==> r is Ok,
            r matches Ok((h, n)) ==> n == HEADER_LEN && spec_header_read_from(h, bytes@),
            r matches Err(e) ==> e is InvalidFormat,
    {
        let mut offset: usize = 0;
        let format_version = read_u16(bytes, &mut offset)?;
        let kdf_id = KdfId::try_from(read_u8(bytes, &mut offset)?)?;
        let kdf_memory_kib = read_u32(bytes, &mut offset)?;
        let kdf_iterations = read_u32(bytes, &mut offset)?;
        let kdf_parallelism = read_u32(bytes, &mut offset)?;
        let salt = read_array::<SALT_LEN>(bytes, &mut offset)?;
        let aead_id = AeadId::try_from(read_u8(bytes, &mut offset)?)?;
        let nonce = read_array::<NONCE_LEN>(bytes, &mut offset)?;
        let header = VaultHeader {
            format_version,
            kdf_id,
            kdf_memory_kib,
            kdf_iterations,
            kdf_parallelism,
            salt,
            aead_id,
            nonce,
        };
        Ok((header, offset))
    }
}

impl CistaFile {
    /// Serializes the whole file: magic, header, ciphertext length, ciphertext.
    /// The length field holds the ciphertext length truncated to 32 bits.
    pub fn to_bytes(&self) -> (bytes: Vec<u8>)
        ensures
            bytes@ == spec_magic() + spec_header_bytes(self.header) + spec_u32_to_le_bytes(
                self.ciphertext@.len() as u32,
            ) + self.ciphertext@,
    {
        let mut bytes: Vec<u8> = Vec::new();
        bytes.extend_from_slice(MAGIC.as_slice());
        let mut header = self.header.to_bytes();
        bytes.append(&mut header);
        let len = self.ciphertext.len();
        let mut part = u32_to_le_bytes(truncate_len(len));
        bytes.append(&mut part);
        bytes.extend_from_slice(self.ciphertext.as_slice());
        assert(MAGIC@ =~= spec_magic());
        bytes
    }

    /// Parses a complete file.
    pub fn from_bytes(bytes: &[u8]) -> (r: CoreResult<CistaFile>)
        ensures
            spec_file_parses(bytes@) <==> r is Ok,
            r matches Ok(f) ==> {
                &&& spec_header_read_from(f.header, bytes@.subrange(8, bytes@.len() as int))
                &&& f.ciphertext@ == bytes@.subrange(
                    FILE_PREFIX_LEN as int,
                    FILE_PREFIX_LEN + spec_stored_ct_len(bytes@),
                )
            },
            r matches Err(e) ==> e is InvalidFormat,
    {
        if bytes.len() < 8 {
            return Err(CoreError::InvalidFormat);
        }
        let mut i: usize = 0;
        while i < 8
            invariant
                i <= 8,
                bytes@.len() >= 8,
                forall|j: int| 0 <= j < i ==> bytes@[j] == spec_magic()[j],
            decreases 8 - i,
        {
            if bytes[i] != MAGIC[i] {
                assert(bytes@.subrange(0, 8)[i as int] != spec_magic()[i as int]);
                return Err(CoreError::InvalidFormat);
            }
            i = i + 1;
        }
        assert(bytes@.subrange(0, 8) =~= spec_magic());
        let rest = slice_range_to_vec(bytes, 8, bytes.len());
        let (header, consumed) = VaultHeader::from_bytes(rest.as_slice())?;
        let mut offset: usize = 8 + consumed;
        let ct_len = read_u32(bytes, &mut offset)?;
        proof {
            assert(bytes@.subrange(64, 68) =~= bytes@.subrange(64, 68));
        }
        let len = widen_len(ct_len);
        if bytes.len() - offset < len {
            return Err(CoreError::InvalidFormat);
        }
        let ciphertext = slice_range_to_vec(bytes, offset, offset + len);
        Ok(CistaFile { header, ciphertext })
    }
}

/// Reading back a serialized header gives the header again, and consumes
/// exactly the bytes that were written.
pub proof fn lemma_header_round_trip(h: VaultHeader)
    ensures
        spec_header_bytes(h).len() == HEADER_LEN,
        spec_header_parses(spec_header_bytes(h)),
        spec_header_read_from(h, spec_header_bytes(h)),
{
    lemma_auto_spec_u16_to_from_le_bytes();
    lemma_auto_spec_u32_to_from_le_bytes();
    let b = spec_header_bytes(h);
    assert(b.subrange(0, 2) =~= spec_u16_to_le_bytes(h.format_version));
    assert(b.subrange(3, 7) =~= spec_u32_to_le_bytes(h.kdf_memory_kib));
    assert(b.subrange(7, 11) =~= spec_u32_to_le_bytes(h.kdf_iterations));
    assert(b.subrange(11, 15) =~= spec_u32_to_le_bytes(h.kdf_parallelism));
    assert(b.subrange(15, 31) =~= h.salt@);
    assert(b.subrange(32, 56) =~= h.nonce@);
    match h.kdf_id {
        KdfId::Argon2id => {},
    }
    match h.aead_id {
        AeadId::XChaCha20Poly1305 => {},
    }
}

/// Reading back a serialized file gives its header and ciphertext again,
/// as long as the ciphertext length fits the 32-bit length field.
pub proof fn lemma_file_round_trip(h: VaultHeader, ct: Seq<u8>)
    requires
        ct.len() <= u32::MAX,
    ensures
        spec_file_parses(spec_file_bytes(h, ct)),
        spec_header_read_from(
            h,
            spec_file_bytes(h, ct).subrange(8, spec_file_bytes(h, ct).len() as int),
        ),
        spec_stored_ct_len(spec_file_bytes(h, ct)) == ct.len(),
        spec_file_bytes(h, ct).subrange(
            FILE_PREFIX_LEN as int,
            FILE_PREFIX_LEN + spec_stored_ct_len(spec_file_bytes(h, ct)),
        ) == ct,
{
    lemma_header_round_trip(h);
    lemma_auto_spec_u32_to_from_le_bytes();
    let b = spec_file_bytes(h, ct);
    let hb = spec_header_bytes(h);
    let rest = b.subrange(8, b.len() as int);
    assert(b.subrange(0, 8) =~= spec_magic());
    assert(rest.subrange(0, 56) =~= hb);
    assert(rest[KDF_ID_OFFSET as int] == hb[KDF_ID_OFFSET as int]);
    assert(rest[AEAD_ID_OFFSET as int] == hb[AEAD_ID_OFFSET as int]);
    assert(rest.subrange(0, 2) =~= hb.subrange(0, 2));
    assert(rest.subrange(3, 7) =~= hb.subrange(3, 7));
    assert(rest.subrange(7, 11) =~= hb.subrange(7, 11));
    assert(rest.subrange(11, 15) =~= hb.subrange(11, 15));
    assert(rest.subrange(15, 31) =~= hb.subrange(15, 31));
    assert(rest.subrange(32, 56) =~= hb.subrange(32, 56));
    assert(b.subrange(64, 68) =~= spec_u32_to_le_bytes(ct.len() as u32));
    assert(b.subrange(FILE_PREFIX_LEN as int, FILE_PREFIX_LEN + ct.len()) =~= ct);
}

/// Serializing a header read from `b` gives back the first 56 bytes of `b`.
pub proof fn lemma_header_bytes_of_read(h: VaultHeader, b: Seq<u8>)
    requires
        spec_header_parses(b),
        spec_header_read_from(h, b),
    ensures
        spec_header_bytes(h) == b.subrange(0, HEADER_LEN as int),
{
    lemma_auto_spec_u16_to_from_le_bytes();
    lemma_auto_spec_u32_to_from_le_bytes();
    assert(spec_u16_to_le_bytes(h.format_version) == b.subrange(0, 2));
    assert(spec_u32_to_le_bytes(h.kdf_memory_kib) == b.subrange(3, 7));
    assert(spec_u32_to_le_bytes(h.kdf_iterations) == b.subrange(7, 11));
    assert(spec_u32_to_le_bytes(h.kdf_parallelism) == b.subrange(11, 15));
    assert(spec_header_bytes(h) =~= b.subrange(0, HEADER_LEN as int));
}

/// A header is determined by the bytes it was read from.
pub proof fn lemma_header_read_unique(h1: VaultHeader, h2: VaultHeader, b: Seq<u8>)
    requires
        spec_header_read_from(h1, b),
        spec_header_read_from(h2, b),
    ensures
        h1 == h2,
{
    assert(h1.salt =~= h2.salt);
    assert(h1.nonce =~= h2.nonce);
}

/// Converts a length to the 32-bit field written on disk (truncating).
fn truncate_len(len: usize) -> (r: u32)
    ensures
        r == len as u32,
{
    len as u32
}

/// Widens a 32-bit length field to `usize`.
fn widen_len(len: u32) -> (r: usize)
    ensures
        r == len,
{
    len as usize
}

/// Copies `bytes[start..end]` into a new vector.
fn slice_range_to_vec(bytes: &[u8], start: usize, end: usize) -> (r: Vec<u8>)
    requires
        start <= end <= bytes@.len(),
    ensures
        r@ == bytes@.subrange(start as int, end as int),
{
    let mut v: Vec<u8> = Vec::new();
    let mut i = start;
    while i < end
        invariant
            start <= i <= end <= bytes@.len(),
            v@ == bytes@.subrange(start as int, i as int),
        decreases end - i,
    {
        v.push(bytes[i]);
        i = i + 1;
        assert(v@ =~= bytes@.subrange(start as int, i as int));
    }
    v
}

/// Reads one byte at `*offset` and advances past it.
fn read_u8(bytes: &[u8], offset: &mut usize) -> (r: CoreResult<u8>)
    requires
        *old(offset) <= bytes@.len(),
    ensures
        old(offset) < bytes@.len() <==> r is Ok,
        r matches Ok(b) ==> b == bytes@[*old(offset) as int] && *final(offset) == *old(offset) + 1,
        r matches Err(e) ==> e is InvalidFormat,
{
    if *offset >= bytes.len() {
        return Err(CoreError::InvalidFormat);
    }
    let b = bytes[*offset];
    *offset = *offset + 1;
    Ok(b)
}

/// Reads a little-endian `u16` at `*offset` and advances past it.
fn read_u16(bytes: &[u8], offset: &mut usize) -> (r: CoreResult<u16>)
    requires
        *old(offset) <= bytes@.len(),
    ensures
        *old(offset) + 2 <= bytes@.len() <==> r is Ok,
        r matches Ok(v) ==> v == spec_u16_from_le_bytes(
            bytes@.subrange(*old(offset) as int, *old(offset) + 2),
        ) && *final(offset) == *old(offset) + 2,
        r matches Err(e) ==> e is InvalidFormat,
{
    if bytes.len() - *offset < 2 {
        return Err(CoreError::InvalidFormat);
    }
    let part = slice_range_to_vec(bytes, *offset, *offset + 2);
    *offset = *offset + 2;
    Ok(u16_from_le_bytes(part.as_slice()))
}

/// Reads a little-endian `u32` at `*offset` and advances past it.
fn read_u32(bytes: &[u8], offset: &mut usize) -> (r: CoreResult<u32>)
    requires
        *old(offset) <= bytes@.len(),
    ensures
        *old(offset) + 4 <= bytes@.len() <==> r is Ok,
        r matches Ok(v) ==> v == spec_u32_from_le_bytes(
            bytes@.subrange(*old(offset) as int, *old(offset) + 4),
        ) && *final(offset) == *old(offset) + 4,
        r matches Err(e) ==> e is InvalidFormat,
{
    if bytes.len() - *offset < 4 {
        return Err(CoreError::InvalidFormat);
    }
    let part = slice_range_to_vec(bytes, *offset, *offset + 4);
    *offset = *offset + 4;
    Ok(u32_from_le_bytes(part.as_slice()))
}

/// Reads `N` raw bytes at `*offset` and advances past them.
fn read_array<const N: usize>(bytes: &[u8], offset: &mut usize) -> (r: CoreResult<[u8; N]>)
    requires
        *old(offset) <= bytes@.len(),
    ensures
        *old(offset) + N <= bytes@.len() <==> r is Ok,
        r matches Ok(a) ==> a@ == bytes@.subrange(*old(offset) as int, *old(offset) + N)
            && *final(offset) == *old(offset) + N,
        r matches Err(e) ==> e is InvalidFormat,
{
    if bytes.len() - *offset < N {
        return Err(CoreError::InvalidFormat);
    }
    let mut a = [0u8; N];
    let start = *offset;
    let end = start + N;
    let mut i: usize = 0;
    while i < N
        invariant
            i <= N,
            start + N <= bytes@.len(),
            start + N <= usize::MAX,
            forall|j: int| 0 <= j < i ==> a@[j] == bytes@[start + j],
        decreases N - i,
    {
        a[i] = bytes[start + i];
        i = i + 1;
    }
    assert(a@ =~= bytes@.subrange(start as int, start + N));
    *offset = start + N;
    Ok(a)
}

} // verus!
