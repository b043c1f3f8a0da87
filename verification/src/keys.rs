//! The host's ed25519 identity key as the C interface hands it around: as a
//! key object (held as the key's 64 bytes), or as tor's key blob text.
use vstd::prelude::*;

use tor_interface::tor_crypto::Ed25519PrivateKey;

verus! {

/// The number of bytes of a key: the 32-byte secret scalar and the 32-byte
/// PRF secret.
pub const ED25519_PRIVATE_KEY_SIZE: usize = 64usize;
/// The length of a key blob: the 11 character `ED25519-V3:` header and the
/// 88 character base64 text of the 64 key bytes.
pub const ED25519_KEYBLOB_LENGTH: usize = 99usize;
/// The bytes a key blob takes with its NUL terminator.
pub const ED25519_KEYBLOB_SIZE: usize = 100usize;

/// The bytes of the key `tor_interface` reads from a key blob, if it reads one.
pub uninterp spec fn key_blob_bytes(blob: Seq<char>) -> Option<Seq<u8>>;

/// The bytes of the key `tor_interface` reads from a key blob under the
/// legacy c-tor validation of the secret scalar, if it reads one.
pub uninterp spec fn legacy_key_blob_bytes(blob: Seq<char>) -> Option<Seq<u8>>;

/// The key blob `tor_interface` writes for the key with these bytes.
pub uninterp spec fn key_blob_text(bytes: Seq<u8>) -> Seq<char>;

/// Whether `tor_interface` makes a key of these bytes.
pub uninterp spec fn raw_key_valid(bytes: Seq<u8>) -> bool;

/// Trusted: calls `tor_interface::tor_crypto::Ed25519PrivateKey::from_key_blob`
/// and, on success, the key's `to_bytes`; the result is named `key_blob_bytes`,
/// a function of the text alone. Per its documentation, bytes from `to_bytes`
/// make a key again.
#[verifier::external_body]
fn parse_key_blob(blob: &str) -> (r: Option<[u8; 64]>)
    ensures
        match r {
            Some(b) => key_blob_bytes(blob@) == Some(b@) && raw_key_valid(b@),
            None => key_blob_bytes(blob@) is None,
        },
{
    match Ed25519PrivateKey::from_key_blob(blob) {
        Ok(key) => Some(key.to_bytes()),
        Err(_) => None,
    }
}

/// Trusted: calls `tor_interface::tor_crypto::Ed25519PrivateKey::from_key_blob_legacy`
/// and, on success, the key's `to_bytes`; the result is named
/// `legacy_key_blob_bytes`, a function of the text alone. Per its
/// documentation, bytes from `to_bytes` make a key again.
#[verifier::external_body]
fn parse_legacy_key_blob(blob: &str) -> (r: Option<[u8; 64]>)
    ensures
        match r {
            Some(b) => legacy_key_blob_bytes(blob@) == Some(b@) && raw_key_valid(b@),
            None => legacy_key_blob_bytes(blob@) is None,
        },
{
    match Ed25519PrivateKey::from_key_blob_legacy(blob) {
        Ok(key) => Some(key.to_bytes()),
        Err(_) => None,
    }
}

/// Trusted: calls `tor_interface::tor_crypto::Ed25519PrivateKey::generate` and
/// the new key's `to_bytes`. The key is random, so only what holds of every
/// outcome is stated: per the documentation, bytes from `to_bytes` make a key again.
#[verifier::external_body]
fn generate_key_bytes() -> (r: [u8; 64])
    ensures
        raw_key_valid(r@),
{
    Ed25519PrivateKey::generate().to_bytes()
}

/// Trusted: makes the key of the bytes with
/// `tor_interface::tor_crypto::Ed25519PrivateKey::from_raw` and calls its
/// `to_key_blob`, which per its source writes the `ED25519-V3:` header and the
/// padded base64 text of the 64 key bytes: 99 ASCII characters. The text is
/// named `key_blob_text`. Per the documentation of `from_key_blob`, a blob
/// that `to_key_blob` wrote reads back as the same key.
#[verifier::external_body]
fn write_key_blob(bytes: &[u8; 64]) -> (r: String)
    requires
        raw_key_valid(bytes@),
    ensures
        r@ == key_blob_text(bytes@),
        r@.len() == ED25519_KEYBLOB_LENGTH,
        r.is_ascii(),
        key_blob_bytes(r@) == Some(bytes@),
{
    Ed25519PrivateKey::from_raw(bytes).expect("bytes of a key make a key").to_key_blob()
}

/// Why a key or key blob was refused.
#[derive(Debug, Clone, Copy, PartialEq, Eq, Structural)]
pub enum KeyError {
    /// the text is no key blob, under either validation
    InvalidKeyBlob,
    /// the destination buffer cannot hold the key blob and its terminator
    BufferTooSmall,
}

/// An ed25519 private key, held as its 64 bytes.
pub struct HostKey {
    bytes: [u8; 64],
}

impl View for HostKey {
    type V = Seq<u8>;

    closed spec fn view(&self) -> Seq<u8> {
        self.bytes@
    }
}

impl HostKey {
    /// The bytes make a key.
    #[verifier::type_invariant]
    spec fn inv(self) -> bool {
        raw_key_valid(self.bytes@)
    }

    pub closed spec fn valid(&self) -> bool {
        raw_key_valid(self.bytes@)
    }

    /// A new random key.
    pub fn generate() -> (k: HostKey)
        ensures
            k.valid(),
    {
        HostKey { bytes: generate_key_bytes() }
    }

    /// The key's 64 bytes.
    pub fn to_bytes(&self) -> (b: [u8; 64])
        ensures
            b@ == self@,
            self.valid(),
    {
        proof {
            use_type_invariant(self);
        }
        self.bytes
    }
}

/// The key a blob holds: the one `tor_interface` reads from it, or, when it
/// refuses the blob, the one it reads under the legacy c-tor validation; the
/// blob is refused when neither reads it.
pub open spec fn keyblob_key(blob: Seq<char>) -> Option<Seq<u8>> {
    if key_blob_bytes(blob) is Some {
        key_blob_bytes(blob)
    } else {
        legacy_key_blob_bytes(blob)
    }
}

/// Reads a key blob, falling back to the legacy c-tor validation when the
/// current one refuses it; refused when neither accepts it.
pub fn private_key_from_keyblob(blob: &str) -> (r: Result<HostKey, KeyError>)
    ensures
        keyblob_key(blob@) is None ==> r == Err::<HostKey, KeyError>(KeyError::InvalidKeyBlob),
        keyblob_key(blob@) matches Some(b) ==> (r matches Ok(k) && k@ == b),
        key_blob_bytes(blob@) is None ==> match legacy_key_blob_bytes(blob@) {
            Some(b) => r matches Ok(k) && k@ == b,
            None => r == Err::<HostKey, KeyError>(KeyError::InvalidKeyBlob),
        },
{
    match parse_key_blob(blob) {
        Some(bytes) => Ok(HostKey { bytes }),
        None => match parse_legacy_key_blob(blob) {
            Some(bytes) => Ok(HostKey { bytes }),
            None => Err(KeyError::InvalidKeyBlob),
        },
    }
}

/// Law: which key a blob holds. A blob that the current validation reads
/// holds the key it reads; a blob that it refuses but the legacy c-tor
/// validation reads (as of keys that tor itself generated) holds the key the
/// legacy validation reads; a blob that both refuse holds none.
pub proof fn law_keyblob_key_falls_back_to_legacy(blob: Seq<char>)
    ensures
        key_blob_bytes(blob) is Some ==> keyblob_key(blob) == key_blob_bytes(blob),
        key_blob_bytes(blob) is None && legacy_key_blob_bytes(blob) is Some
            ==> keyblob_key(blob) == legacy_key_blob_bytes(blob),
        key_blob_bytes(blob) is None && legacy_key_blob_bytes(blob) is None ==> keyblob_key(blob) is None,
        keyblob_key(blob) is Some <==> (key_blob_bytes(blob) is Some || legacy_key_blob_bytes(blob) is Some),
{
}

/// The key blob of a key, for a buffer of `buffer_size` bytes (the caller
/// adds the NUL terminator); refused when blob and terminator do not fit. The
/// blob reads back as the same key.
pub fn keyblob_for_buffer(key: &HostKey, buffer_size: usize) -> (r: Result<String, KeyError>)
    ensures
        buffer_size < ED25519_KEYBLOB_SIZE ==> r == Err::<String, KeyError>(KeyError::BufferTooSmall),
        buffer_size >= ED25519_KEYBLOB_SIZE ==> (r matches Ok(s) && s@ == key_blob_text(key@)
            && s@.len() == ED25519_KEYBLOB_LENGTH && s.is_ascii()
            && keyblob_key(s@) == Some(key@)),
{
    if buffer_size < ED25519_KEYBLOB_SIZE {
        return Err(KeyError::BufferTooSmall);
    }
    proof {
        use_type_invariant(key);
    }
    Ok(write_key_blob(&key.bytes))
}

} // verus!
