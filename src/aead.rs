//! Authenticated encryption of capability payloads with AES-256-GCM.
//!
//! A sealed payload is laid out as `nonce || ciphertext || tag`.

use vstd::prelude::*;

use crate::bytes::append_bytes;
use crate::error::CryptoError;

verus! {

/// Bytes of nonce at the head of a sealed payload.
pub const NONCE_LEN: usize = 12;

/// Bytes of authentication tag at the end of a sealed payload.
pub const TAG_LEN: usize = 16;

/// The longest plaintext that AES-GCM accepts.
pub const AES_GCM_MAX_INPUT_LEN: u64 = 68719476704;

/// The AES-256-GCM ciphertext of `plaintext` followed by its tag, under `key`
/// and `nonce`, with empty associated data.
pub uninterp spec fn aes_gcm_seal(key: Seq<u8>, nonce: Seq<u8>, plaintext: Seq<u8>) -> Seq<u8>;

#[verifier::external_type_specification]
#[verifier::external_body]
pub struct ExUnspecified(ring::error::Unspecified);

/// Relies on `ring::aead::LessSafeKey::seal_in_place_append_tag` with
/// `AES_256_GCM` and empty associated data (the key and nonce built by
/// `UnboundKey::new` and `Nonce::try_assume_unique_for_key`, which fail only
/// on wrong lengths): it appends the tag to the ciphertext, and fails only on
/// input longer than the algorithm accepts.
#[verifier::external_body]
fn aes_gcm_seal_bytes(key: &[u8; 32], nonce: &[u8], plaintext: &[u8]) -> (r: Result<
    Vec<u8>,
    ring::error::Unspecified,
>)
    requires
        nonce@.len() == NONCE_LEN,
    ensures
        plaintext@.len() <= AES_GCM_MAX_INPUT_LEN ==> r.is_ok(),
        r matches Ok(c) ==> c@ == aes_gcm_seal(key@, nonce@, plaintext@),
        r matches Ok(c) ==> c@.len() == plaintext@.len() + TAG_LEN,
{
    let unbound = ring::aead::UnboundKey::new(&ring::aead::AES_256_GCM, key)?;
    let sealing_key = ring::aead::LessSafeKey::new(unbound);
    let nonce = ring::aead::Nonce::try_assume_unique_for_key(nonce)?;
    let mut in_out = plaintext.to_vec();
    sealing_key.seal_in_place_append_tag(nonce, ring::aead::Aad::empty(), &mut in_out)?;
    Ok(in_out)
}

/// Relies on `ring::aead::LessSafeKey::open_in_place` with `AES_256_GCM` and
/// empty associated data (key and nonce built as for sealing): it returns a
/// plaintext exactly when `sealed` is that plaintext's sealing under the key
/// and nonce, and refuses input shorter than the tag.
#[verifier::external_body]
fn aes_gcm_open_bytes(key: &[u8; 32], nonce: &[u8], sealed: &[u8]) -> (r: Result<
    Vec<u8>,
    ring::error::Unspecified,
>)
    requires
        nonce@.len() == NONCE_LEN,
    ensures
        r matches Ok(p) ==> sealed@ == aes_gcm_seal(key@, nonce@, p@),
        forall|p: Seq<u8>| aes_gcm_seal(key@, nonce@, p) == sealed@ ==> r.is_ok() && r->Ok_0@ == p,
        sealed@.len() < TAG_LEN ==> r.is_err(),
{
    let unbound = ring::aead::UnboundKey::new(&ring::aead::AES_256_GCM, key)?;
    let opening_key = ring::aead::LessSafeKey::new(unbound);
    let nonce = ring::aead::Nonce::try_assume_unique_for_key(nonce)?;
    let mut in_out = sealed.to_vec();
    let plaintext = opening_key.open_in_place(nonce, ring::aead::Aad::empty(), &mut in_out)?;
    Ok(plaintext.to_vec())
}

/// The sealed payload of `plaintext` under `key` with `nonce`.
pub open spec fn sealed_with(key: Seq<u8>, nonce: Seq<u8>, plaintext: Seq<u8>) -> Seq<u8> {
    nonce + aes_gcm_seal(key, nonce, plaintext)
}

/// `payload` is the sealed payload of `plaintext` under `key`, with the nonce
/// that it carries.
pub open spec fn is_sealing_of(key: Seq<u8>, payload: Seq<u8>, plaintext: Seq<u8>) -> bool {
    &&& payload.len() >= NONCE_LEN
    &&& payload == sealed_with(key, payload.take(NONCE_LEN as int), plaintext)
}

/// What opening `payload` under `key` may return: a plaintext only if the
/// payload is its sealing, the plaintext whenever the payload is the sealing
/// of one, and otherwise `DecryptionFailed`.
pub open spec fn is_open_outcome(key: Seq<u8>, payload: Seq<u8>, r: Result<Seq<u8>, CryptoError>) -> bool {
    &&& forall|p: Seq<u8>| #[trigger] is_sealing_of(key, payload, p) ==> r == Ok::<Seq<u8>, CryptoError>(p)
    &&& match r {
        Ok(p) => is_sealing_of(key, payload, p),
        Err(e) => e == CryptoError::DecryptionFailed,
    }
}

/// The bytes of a result, or its error.
pub open spec fn bytes_of(r: Result<Vec<u8>, CryptoError>) -> Result<Seq<u8>, CryptoError> {
    match r {
        Ok(v) => Ok(v@),
        Err(e) => Err(e),
    }
}

/// Seals `plaintext` under `key` with the first `NONCE_LEN` bytes of
/// `nonce_source` as nonce, and prefixes the nonce.
pub fn seal_payload(key: &[u8; 32], nonce_source: &[u8; 32], plaintext: &[u8]) -> (r: Result<
    Vec<u8>,
    CryptoError,
>)
    ensures
        plaintext@.len() <= AES_GCM_MAX_INPUT_LEN ==> r.is_ok(),
        r matches Ok(c) ==> c@ == sealed_with(key@, nonce_source@.take(NONCE_LEN as int), plaintext@),
        r matches Err(e) ==> e == CryptoError::InvalidState,
{
    let (nonce, _) = nonce_source.as_slice().split_at(NONCE_LEN);
    match aes_gcm_seal_bytes(key, nonce, plaintext) {
        Ok(sealed) => {
            let mut payload: Vec<u8> = Vec::new();
            append_bytes(&mut payload, nonce);
            append_bytes(&mut payload, sealed.as_slice());
            Ok(payload)
        },
        Err(_) => Err(CryptoError::InvalidState),
    }
}

/// Opens a sealed payload under `key`: reads the nonce from its head and
/// authenticates and decrypts the rest.
pub fn open_payload(key: &[u8; 32], payload: &[u8]) -> (r: Result<Vec<u8>, CryptoError>)
    ensures
        is_open_outcome(key@, payload@, bytes_of(r)),
        payload@.len() < NONCE_LEN + TAG_LEN ==> r == Err::<Vec<u8>, CryptoError>(
            CryptoError::DecryptionFailed,
        ),
{
    if payload.len() < NONCE_LEN {
        return Err(CryptoError::DecryptionFailed);
    }
    let (nonce, sealed) = payload.split_at(NONCE_LEN);
    proof {
        assert(payload@ =~= nonce@ + sealed@);
        assert(nonce@ =~= payload@.take(NONCE_LEN as int));
    }
    let r = aes_gcm_open_bytes(key, nonce, sealed);
    proof {
        assert forall|p: Seq<u8>| #[trigger] is_sealing_of(key@, payload@, p) implies aes_gcm_seal(
            key@,
            nonce@,
            p,
        ) == sealed@ by {
            assert(sealed@ =~= payload@.subrange(NONCE_LEN as int, payload@.len() as int));
        }
    }
    match r {
        Ok(plaintext) => {
            assert(is_sealing_of(key@, payload@, plaintext@));
            Ok(plaintext)
        },
        Err(_) => Err(CryptoError::DecryptionFailed),
    }
}

} // verus!
