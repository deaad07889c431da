use std::cell::Cell;
use std::rc::Rc;

use ciem::ciem::CIEM;
use ciem::clock::ClockSource;
use ciem::entropy::{EntropyAggregator, RngSource};
use ciem::error::CryptoError;
use ciem::fsm::{FsmError, KeyState};
use ciem::profile::{Domain, SecurityProfile};

/// Byte `i` of every read is `37 * i + seed`; after `good_reads` reads the
/// source sticks at one value.
struct TestSource {
    seed: u8,
    good_reads: usize,
    reads: Rc<Cell<usize>>,
}

impl RngSource for TestSource {
    fn read(&self, dest: &mut [u8]) {
        let n = self.reads.get();
        self.reads.set(n + 1);
        for (i, b) in dest.iter_mut().enumerate() {
            *b = if n < self.good_reads {
                (i as u8).wrapping_mul(37).wrapping_add(self.seed)
            } else {
                0x5A
            };
        }
    }

    fn name(&self) -> &'static str {
        "TestSource"
    }
}

struct FixedClock;

impl ClockSource for FixedClock {
    fn now(&self) -> u64 {
        17
    }

    fn name(&self) -> &'static str {
        "FixedClock"
    }
}

type Anchor = CIEM<TestSource, TestSource, FixedClock>;

const SECRET: [u8; 32] = [42u8; 32];

fn source(seed: u8, good_reads: usize) -> TestSource {
    TestSource { seed, good_reads, reads: Rc::new(Cell::new(0)) }
}

fn anchor_from(primary: TestSource) -> Result<Anchor, CryptoError> {
    let agg = EntropyAggregator::new(primary, Vec::new(), SECRET.to_vec());
    CIEM::new(agg, FixedClock)
}

fn anchor(seed: u8) -> Anchor {
    anchor_from(source(seed, usize::MAX)).unwrap()
}

fn profile() -> SecurityProfile {
    SecurityProfile { domain: Domain::Defense, quantum_resistant: true, require_atomic_time: true }
}

fn sample(seed: u8) -> Vec<u8> {
    (0..1024u32).map(|i| (i as u8).wrapping_mul(37).wrapping_add(seed)).collect()
}

fn hmac_sha256(key: &[u8], message: &[u8]) -> Vec<u8> {
    let key = ring::hmac::Key::new(ring::hmac::HMAC_SHA256, key);
    ring::hmac::sign(&key, message).as_ref().to_vec()
}

#[test]
fn fresh_anchor_is_bound_with_key() {
    let a = anchor(1);
    assert_eq!(a.state(), KeyState::Bound);
    assert!(a.has_key());
}

#[test]
fn only_one_capability_is_granted() {
    let mut a = anchor(1);
    assert!(a.request_encrypt_capability(&profile()).is_ok());
    assert_eq!(a.state(), KeyState::Active);
    assert_eq!(a.request_decrypt_capability(&profile()).err(), Some(CryptoError::FsmInvalidTransition));
    assert_eq!(a.request_encrypt_capability(&profile()).err(), Some(CryptoError::FsmInvalidTransition));
    assert_eq!(a.state(), KeyState::Active);
}

#[test]
fn decrypt_capability_can_be_the_one() {
    let mut a = anchor(1);
    assert!(a.request_decrypt_capability(&profile()).is_ok());
    assert_eq!(a.request_encrypt_capability(&profile()).err(), Some(CryptoError::FsmInvalidTransition));
}

#[test]
fn construction_fails_on_stuck_source() {
    let r = anchor_from(source(1, 0));
    assert_eq!(r.err(), Some(CryptoError::EntropyHealthCheckFailed));
}

#[test]
fn round_trip_between_anchors_with_same_key() {
    let mut enc_anchor = anchor(3);
    let mut dec_anchor = anchor(3);
    let enc = enc_anchor.request_encrypt_capability(&profile()).unwrap();
    let dec = dec_anchor.request_decrypt_capability(&profile()).unwrap();
    for plaintext in [&b""[..], b"x", b"Top secret mission objectives.", &[0u8; 1000][..]] {
        let sealed = enc.execute(&mut enc_anchor, plaintext).unwrap();
        assert_eq!(sealed.len(), 12 + plaintext.len() + 16);
        assert_eq!(dec.execute(&mut dec_anchor, &sealed).unwrap(), plaintext.to_vec());
    }
}

#[test]
fn encryption_output_is_nonce_ciphertext_tag() {
    let mut a = anchor(5);
    let enc = a.request_encrypt_capability(&profile()).unwrap();
    let plaintext = b"attack at dawn";
    let sealed = enc.execute(&mut a, plaintext).unwrap();
    // With a deterministic source the key and every nonce draw are the same
    // keyed hash of the same sample.
    let key = hmac_sha256(&SECRET, &sample(5));
    let nonce = &key[..12];
    let unbound = ring::aead::UnboundKey::new(&ring::aead::AES_256_GCM, &key).unwrap();
    let sealing = ring::aead::LessSafeKey::new(unbound);
    let mut expected = plaintext.to_vec();
    sealing
        .seal_in_place_append_tag(
            ring::aead::Nonce::try_assume_unique_for_key(nonce).unwrap(),
            ring::aead::Aad::empty(),
            &mut expected,
        )
        .unwrap();
    assert_eq!(&sealed[..12], nonce);
    assert_eq!(&sealed[12..], &expected[..]);
    assert_ne!(&sealed[12..12 + plaintext.len()], &plaintext[..]);
}

#[test]
fn flipped_final_byte_fails_decryption() {
    let mut enc_anchor = anchor(3);
    let mut dec_anchor = anchor(3);
    let enc = enc_anchor.request_encrypt_capability(&profile()).unwrap();
    let dec = dec_anchor.request_decrypt_capability(&profile()).unwrap();
    let mut sealed = enc.execute(&mut enc_anchor, b"payload").unwrap();
    let last = sealed.len() - 1;
    sealed[last] ^= 0x01;
    assert_eq!(dec.execute(&mut dec_anchor, &sealed), Err(CryptoError::DecryptionFailed));
    sealed[last] ^= 0x01;
    sealed[12] ^= 0x80;
    assert_eq!(dec.execute(&mut dec_anchor, &sealed), Err(CryptoError::DecryptionFailed));
}

#[test]
fn different_key_fails_decryption() {
    let mut enc_anchor = anchor(3);
    let mut dec_anchor = anchor(4);
    let enc = enc_anchor.request_encrypt_capability(&profile()).unwrap();
    let dec = dec_anchor.request_decrypt_capability(&profile()).unwrap();
    let sealed = enc.execute(&mut enc_anchor, b"payload").unwrap();
    assert_eq!(dec.execute(&mut dec_anchor, &sealed), Err(CryptoError::DecryptionFailed));
}

#[test]
fn short_payload_fails_decryption() {
    let mut a = anchor(2);
    let dec = a.request_decrypt_capability(&profile()).unwrap();
    assert_eq!(dec.execute(&mut a, &[]), Err(CryptoError::DecryptionFailed));
    assert_eq!(dec.execute(&mut a, &[0u8; 11]), Err(CryptoError::DecryptionFailed));
    assert_eq!(dec.execute(&mut a, &[0u8; 27]), Err(CryptoError::DecryptionFailed));
    assert_eq!(dec.execute(&mut a, &[0u8; 28]), Err(CryptoError::DecryptionFailed));
}

#[test]
fn tamper_fails_closed_for_issued_capability() {
    let mut a = anchor(6);
    let enc = a.request_encrypt_capability(&profile()).unwrap();
    assert!(enc.execute(&mut a, b"before").is_ok());
    a.inject_tamper();
    assert_eq!(a.state(), KeyState::Zeroized);
    assert!(!a.has_key());
    assert_eq!(enc.execute(&mut a, b"after"), Err(CryptoError::InvalidState));
    assert_eq!(enc.execute(&mut a, b""), Err(CryptoError::InvalidState));
    assert_eq!(a.request_decrypt_capability(&profile()).err(), Some(CryptoError::FsmInvalidTransition));
    a.inject_tamper();
    assert_eq!(a.state(), KeyState::Zeroized);
    assert_eq!(enc.execute(&mut a, b"again"), Err(CryptoError::InvalidState));
}

#[test]
fn tamper_fails_closed_for_decryption() {
    let mut enc_anchor = anchor(3);
    let mut dec_anchor = anchor(3);
    let enc = enc_anchor.request_encrypt_capability(&profile()).unwrap();
    let dec = dec_anchor.request_decrypt_capability(&profile()).unwrap();
    let sealed = enc.execute(&mut enc_anchor, b"secret").unwrap();
    dec_anchor.inject_tamper();
    assert_eq!(dec.execute(&mut dec_anchor, &sealed), Err(CryptoError::InvalidState));
}

#[test]
fn tamper_before_any_request() {
    let mut a = anchor(6);
    a.inject_tamper();
    assert_eq!(a.state(), KeyState::Zeroized);
    assert_eq!(a.request_encrypt_capability(&profile()).err(), Some(CryptoError::FsmInvalidTransition));
}

#[test]
fn usage_budget_through_capability() {
    let mut a = anchor(8);
    let enc = a.request_encrypt_capability(&profile()).unwrap();
    for _ in 0..1000 {
        assert!(enc.execute(&mut a, b"m").is_ok());
    }
    assert_eq!(enc.execute(&mut a, b"m"), Err(CryptoError::FsmUsageExceeded));
    assert_eq!(a.state(), KeyState::Expired);
    assert_eq!(enc.execute(&mut a, b"m"), Err(CryptoError::FsmInvalidTransition));
    assert!(a.has_key());
}

#[test]
fn capability_of_other_anchor_is_refused() {
    let mut a = anchor(3);
    let mut b = anchor(3);
    let enc = a.request_encrypt_capability(&profile()).unwrap();
    let dec = b.request_decrypt_capability(&profile()).unwrap();
    assert_eq!(enc.execute(&mut b, b"m"), Err(CryptoError::InvalidState));
    assert_eq!(dec.execute(&mut a, &[0u8; 40]), Err(CryptoError::InvalidState));
    let mut c = anchor(3);
    assert_eq!(enc.execute(&mut c, b"m"), Err(CryptoError::InvalidState));
    assert_eq!(c.state(), KeyState::Bound);
}

#[test]
fn unhealthy_nonce_draw_fails_encryption() {
    let mut a = anchor_from(source(7, 1)).unwrap();
    let enc = a.request_encrypt_capability(&profile()).unwrap();
    assert_eq!(enc.execute(&mut a, b"m"), Err(CryptoError::EntropyHealthCheckFailed));
    assert_eq!(a.state(), KeyState::Active);
}

#[test]
fn fsm_errors_convert() {
    assert_eq!(CryptoError::from(FsmError::InvalidTransition), CryptoError::FsmInvalidTransition);
    assert_eq!(CryptoError::from(FsmError::UsageExceeded), CryptoError::FsmUsageExceeded);
}
