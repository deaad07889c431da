//! The trust anchor: one key bound to its lifecycle, an entropy aggregator and
//! a secure clock, and the capabilities it issues.
//!
//! A capability is a handle naming the anchor that issued it. Executing it
//! takes that anchor by `&mut`, so every mutation of the shared state is
//! serialized by the borrow checker, and re-checks the anchor's state first.

use vstd::prelude::*;

use crate::aead::{
    bytes_of, is_open_outcome, is_sealing_of, open_payload, seal_payload, sealed_with,
    AES_GCM_MAX_INPUT_LEN, NONCE_LEN,
};
use crate::clock::{clock_step, fresh_clock, ClockSource, ClockView, SecureClock};
use crate::entropy::{
    is_possible_draw, lemma_draw_errors, EntropyAggregator, EntropyError, RngSource,
};
use crate::error::{crypto_error_of_fsm, CryptoError};
use crate::fsm::{step, CiemFsm, FsmEvent, FsmView, KeyState};
use crate::profile::SecurityProfile;

verus! {

/// The identity of the key held by one anchor; every capability carries the
/// handle of the anchor that issued it.
#[derive(Clone, Copy, Debug, PartialEq, Eq, Hash, Structural)]
pub struct KeyHandle {
    id: u128,
}

/// Relies on `uuid::Uuid::new_v4`, read as a number by `Uuid::as_u128`: a
/// random identifier; nothing is assumed of its value.
#[verifier::external_body]
fn fresh_key_id() -> u128 {
    uuid::Uuid::new_v4().as_u128()
}

/// The abstract state of an anchor.
pub struct CiemView {
    pub fsm: FsmView,
    pub clock: ClockView,
    pub tampered: bool,
    pub key: Option<Seq<u8>>,
    pub handle: KeyHandle,
    pub conditioning_key: Seq<u8>,
    pub auxiliary_count: nat,
}

/// The lifecycle states in which a key exists.
pub open spec fn holds_key(s: KeyState) -> bool {
    ||| s == KeyState::Created
    ||| s == KeyState::Bound
    ||| s == KeyState::Active
    ||| s == KeyState::Expired
    ||| s == KeyState::Revoked
}

/// The anchor's invariant: the key is present exactly in a state that holds
/// one and while untampered; tampering zeroizes.
pub open spec fn ciem_wf(v: CiemView) -> bool {
    &&& v.fsm.wf()
    &&& v.key is Some <==> holds_key(v.fsm.state) && !v.tampered
    &&& v.tampered ==> v.fsm.state == KeyState::Zeroized
    &&& v.key matches Some(k) ==> k.len() == 32
}

/// The anchor after a tamper event: zeroized, keyless, for good.
pub open spec fn tampered(v: CiemView) -> CiemView {
    CiemView { fsm: step(v.fsm, FsmEvent::Zeroize).0, tampered: true, key: None, ..v }
}

/// A capability request: the authorize event, and on success the anchor's
/// handle.
pub open spec fn authorize_outcome(v: CiemView) -> (CiemView, Result<KeyHandle, CryptoError>) {
    let (fsm, r) = step(v.fsm, FsmEvent::Authorize);
    (
        CiemView { fsm, ..v },
        match r {
            Ok(_) => Ok(v.handle),
            Err(_) => Err(CryptoError::FsmInvalidTransition),
        },
    )
}

/// The checks before any cryptographic work: the capability must name this
/// anchor and the anchor must be untampered (else `InvalidState`, nothing
/// changed); then the use event, whose refusal is reported.
pub open spec fn gate_use(v: CiemView, h: KeyHandle) -> (CiemView, Result<(), CryptoError>) {
    if v.tampered || h != v.handle {
        (v, Err(CryptoError::InvalidState))
    } else {
        let (fsm, r) = step(v.fsm, FsmEvent::Use);
        (
            CiemView { fsm, ..v },
            match r {
                Ok(_) => Ok(()),
                Err(e) => Err(crypto_error_of_fsm(e)),
            },
        )
    }
}

/// What an admitted encryption under `key` may return, given the nonce draw
/// `draw`: a failed draw is reported as `EntropyHealthCheckFailed`; otherwise
/// the sealed payload with the draw's first `NONCE_LEN` bytes as nonce, owed
/// whenever the cipher accepts the plaintext's length.
pub open spec fn is_encrypt_outcome(
    key: Seq<u8>,
    draw: Result<Seq<u8>, EntropyError>,
    plaintext: Seq<u8>,
    r: Result<Seq<u8>, CryptoError>,
) -> bool {
    match draw {
        Err(_) => r == Err::<Seq<u8>, CryptoError>(CryptoError::EntropyHealthCheckFailed),
        Ok(n) => {
            &&& plaintext.len() <= AES_GCM_MAX_INPUT_LEN ==> r is Ok
            &&& match r {
                Ok(c) => c == sealed_with(key, n.take(NONCE_LEN as int), plaintext),
                Err(e) => e == CryptoError::InvalidState,
            }
        },
    }
}

/// The contract of an encryption through a capability with handle `h`, from
/// anchor state `old` to `new` with result `r`.
pub open spec fn encrypt_post(
    old: CiemView,
    h: KeyHandle,
    plaintext: Seq<u8>,
    new: CiemView,
    r: Result<Seq<u8>, CryptoError>,
) -> bool {
    let (gated, gate) = gate_use(old, h);
    match gate {
        Err(e) => new == gated && r == Err::<Seq<u8>, CryptoError>(e),
        Ok(_) => {
            &&& new == CiemView { clock: new.clock, ..gated }
            &&& exists|now: u64| new.clock == clock_step(old.clock, now)
            &&& exists|draw: Result<Seq<u8>, EntropyError>|
                {
                    &&& is_possible_draw(old.conditioning_key, old.auxiliary_count, draw)
                    &&& draw matches Ok(n) ==> n.len() == 32
                    &&& is_encrypt_outcome(old.key->Some_0, draw, plaintext, r)
                }
        },
    }
}

/// The contract of a decryption through a capability with handle `h`, from
/// anchor state `old` to `new` with result `r`.
pub open spec fn decrypt_post(
    old: CiemView,
    h: KeyHandle,
    payload: Seq<u8>,
    new: CiemView,
    r: Result<Seq<u8>, CryptoError>,
) -> bool {
    let (gated, gate) = gate_use(old, h);
    &&& new == gated
    &&& match gate {
        Err(e) => r == Err::<Seq<u8>, CryptoError>(e),
        Ok(_) => is_open_outcome(old.key->Some_0, payload, r),
    }
}

/// The trust anchor.
pub struct CIEM<P: RngSource, A: RngSource, C: ClockSource> {
    fsm: CiemFsm,
    entropy: EntropyAggregator<P, A>,
    clock: SecureClock<C>,
    tamper: bool,
    key: Option<[u8; 32]>,
    handle: KeyHandle,
}

impl<P: RngSource, A: RngSource, C: ClockSource> View for CIEM<P, A, C> {
    type V = CiemView;

    closed spec fn view(&self) -> CiemView {
        CiemView {
            fsm: self.fsm@,
            clock: self.clock@,
            tampered: self.tamper,
            key: match self.key {
                Some(k) => Some(k@),
                None => None,
            },
            handle: self.handle,
            conditioning_key: self.entropy.conditioning_key(),
            auxiliary_count: self.entropy.auxiliary_count(),
        }
    }
}

impl<P: RngSource, A: RngSource, C: ClockSource> CIEM<P, A, C> {
    /// The anchor's invariant holds.
    pub open spec fn wf(&self) -> bool {
        ciem_wf(self@)
    }

    /// Builds an anchor: generates its key from one draw of `entropy_aggregator`
    /// and binds it. Fails, reporting the draw's error, when the draw fails
    /// its health tests.
    pub fn new(entropy_aggregator: EntropyAggregator<P, A>, clock_source: C) -> (r: Result<
        Self,
        CryptoError,
    >)
        ensures
            r matches Ok(c) ==> c.wf(),
            r matches Ok(c) ==> c@.fsm == (FsmView { state: KeyState::Bound, usage: 0 }),
            r matches Ok(c) ==> !c@.tampered && c@.clock == fresh_clock(),
            r matches Ok(c) ==> c@.conditioning_key == entropy_aggregator.conditioning_key(),
            r matches Ok(c) ==> c@.auxiliary_count == entropy_aggregator.auxiliary_count(),
            r matches Ok(c) ==> c@.key is Some && is_possible_draw(
                entropy_aggregator.conditioning_key(),
                entropy_aggregator.auxiliary_count(),
                Ok(c@.key->Some_0),
            ),
            r matches Err(e) ==> e == CryptoError::EntropyHealthCheckFailed,
    {
        let mut fsm = CiemFsm::new();
        let _ = fsm.on_generate();
        let drawn_key = entropy_aggregator.get_entropy();
        let key = match drawn_key {
            Ok(k) => k,
            Err(e) => {
                proof {
                    lemma_draw_errors(
                        entropy_aggregator.conditioning_key(),
                        entropy_aggregator.auxiliary_count(),
                        e,
                    );
                }
                return Err(CryptoError::from(e));
            },
        };
        let _ = fsm.on_bind();
        let handle = KeyHandle { id: fresh_key_id() };
        Ok(CIEM {
            fsm,
            entropy: entropy_aggregator,
            clock: SecureClock::new(clock_source),
            tamper: false,
            key: Some(key),
            handle,
        })
    }

    /// Requests a capability to encrypt: the authorize event. On success the
    /// capability names this anchor; on a refused event
    /// `FsmInvalidTransition`. The profile is accepted and not consulted.
    pub fn request_encrypt_capability(&mut self, _profile: &SecurityProfile) -> (r: Result<
        EncryptCapability,
        CryptoError,
    >)
        requires
            old(self).wf(),
        ensures
            final(self).wf(),
            (final(self)@, capability_handle(r)) == authorize_outcome(old(self)@),
    {
        match self.authorize() {
            Ok(handle) => Ok(EncryptCapability { handle }),
            Err(e) => Err(e),
        }
    }

    /// Requests a capability to decrypt: the authorize event. On success the
    /// capability names this anchor; on a refused event
    /// `FsmInvalidTransition`. The profile is accepted and not consulted.
    pub fn request_decrypt_capability(&mut self, _profile: &SecurityProfile) -> (r: Result<
        DecryptCapability,
        CryptoError,
    >)
        requires
            old(self).wf(),
        ensures
            final(self).wf(),
            (final(self)@, decrypt_capability_handle(r)) == authorize_outcome(old(self)@),
    {
        match self.authorize() {
            Ok(handle) => Ok(DecryptCapability { handle }),
            Err(e) => Err(e),
        }
    }

    /// The authorize event, reported as a capability request's outcome.
    fn authorize(&mut self) -> (r: Result<KeyHandle, CryptoError>)
        requires
            old(self).wf(),
        ensures
            final(self).wf(),
            (final(self)@, r) == authorize_outcome(old(self)@),
    {
        match self.fsm.on_authorize() {
            Ok(()) => Ok(self.handle),
            Err(_) => Err(CryptoError::FsmInvalidTransition),
        }
    }

    /// A tamper signal: sets the tamper flag, zeroizes the lifecycle and
    /// discards the key, irreversibly.
    pub fn inject_tamper(&mut self)
        requires
            old(self).wf(),
        ensures
            final(self).wf(),
            final(self)@ == tampered(old(self)@),
    {
        self.tamper = true;
        self.fsm.on_zeroize();
        self.key = None;
    }

    /// The key's lifecycle state.
    pub fn state(&self) -> (r: KeyState)
        ensures
            r == self@.fsm.state,
    {
        self.fsm.state()
    }

    /// Whether the anchor holds a key.
    pub fn has_key(&self) -> (r: bool)
        ensures
            r == self@.key is Some,
    {
        self.key.is_some()
    }

    /// The checks and the use event that precede any cryptographic work.
    fn gate(&mut self, handle: KeyHandle) -> (r: Result<(), CryptoError>)
        requires
            old(self).wf(),
        ensures
            final(self).wf(),
            (final(self)@, r) == gate_use(old(self)@, handle),
    {
        if self.tamper || handle != self.handle {
            return Err(CryptoError::InvalidState);
        }
        match self.fsm.on_use() {
            Ok(()) => Ok(()),
            Err(e) => Err(CryptoError::from(e)),
        }
    }
}

/// The handle carried by a granted encryption capability, or the refusal.
pub open spec fn capability_handle(r: Result<EncryptCapability, CryptoError>) -> Result<KeyHandle, CryptoError> {
    match r {
        Ok(c) => Ok(c@),
        Err(e) => Err(e),
    }
}

/// The handle carried by a granted decryption capability, or the refusal.
pub open spec fn decrypt_capability_handle(r: Result<DecryptCapability, CryptoError>) -> Result<
    KeyHandle,
    CryptoError,
> {
    match r {
        Ok(c) => Ok(c@),
        Err(e) => Err(e),
    }
}

/// The right to encrypt with the key of the anchor that issued it.
pub struct EncryptCapability {
    handle: KeyHandle,
}

impl View for EncryptCapability {
    type V = KeyHandle;

    closed spec fn view(&self) -> KeyHandle {
        self.handle
    }
}

impl EncryptCapability {
    /// Encrypts `plaintext` with the issuing anchor's key. Fails with
    /// `InvalidState` when `ciem` is tampered or did not issue this
    /// capability, and with the use event's error when that is refused; no
    /// cryptographic work is done then. Otherwise advances the clock, draws a
    /// nonce, and returns `nonce || ciphertext || tag`.
    pub fn execute<P: RngSource, A: RngSource, C: ClockSource>(
        &self,
        ciem: &mut CIEM<P, A, C>,
        plaintext: &[u8],
    ) -> (r: Result<Vec<u8>, CryptoError>)
        requires
            old(ciem).wf(),
        ensures
            final(ciem).wf(),
            encrypt_post(old(ciem)@, self@, plaintext@, final(ciem)@, bytes_of(r)),
    {
        match ciem.gate(self.handle) {
            Ok(()) => {},
            Err(e) => return Err(e),
        }
        let key = match ciem.key {
            Some(k) => k,
            None => return Err(CryptoError::InvalidState),
        };
        let _epoch = ciem.clock.tick();
        let draw = ciem.entropy.get_entropy();
        let nonce = match draw {
            Ok(n) => n,
            Err(_) => return Err(CryptoError::EntropyHealthCheckFailed),
        };
        seal_payload(&key, &nonce, plaintext)
    }
}

/// The right to decrypt with the key of the anchor that issued it.
pub struct DecryptCapability {
    handle: KeyHandle,
}

impl View for DecryptCapability {
    type V = KeyHandle;

    closed spec fn view(&self) -> KeyHandle {
        self.handle
    }
}

impl DecryptCapability {
    /// Decrypts a payload `nonce || ciphertext || tag` with the issuing
    /// anchor's key. Fails with `InvalidState` when `ciem` is tampered or did
    /// not issue this capability, and with the use event's error when that is
    /// refused; no cryptographic work is done then. A payload that is too
    /// short or fails authentication gives `DecryptionFailed`.
    pub fn execute<P: RngSource, A: RngSource, C: ClockSource>(
        &self,
        ciem: &mut CIEM<P, A, C>,
        payload: &[u8],
    ) -> (r: Result<Vec<u8>, CryptoError>)
        requires
            old(ciem).wf(),
        ensures
            final(ciem).wf(),
            decrypt_post(old(ciem)@, self@, payload@, final(ciem)@, bytes_of(r)),
    {
        match ciem.gate(self.handle) {
            Ok(()) => {},
            Err(e) => return Err(e),
        }
        let key = match ciem.key {
            Some(k) => k,
            None => return Err(CryptoError::InvalidState),
        };
        open_payload(&key, payload)
    }
}

/// A bound anchor grants exactly one capability: the first request succeeds
/// and activates the key; a second request fails with `FsmInvalidTransition`
/// and changes nothing.
pub proof fn lemma_anchor_authorizes_once(v: CiemView)
    requires
        v.fsm.state == KeyState::Bound,
    ensures
        authorize_outcome(v).1 == Ok::<KeyHandle, CryptoError>(v.handle),
        authorize_outcome(v).0.fsm.state == KeyState::Active,
        authorize_outcome(authorize_outcome(v).0) == (
        authorize_outcome(v).0,
        Err::<KeyHandle, CryptoError>(CryptoError::FsmInvalidTransition),
        ),
{
}

/// After a tamper event every capability execution fails with `InvalidState`
/// and changes nothing, whichever capability it is and whenever it was
/// issued; no new capability is granted; a second tamper event changes
/// nothing.
pub proof fn lemma_tamper_fails_closed(
    v: CiemView,
    h: KeyHandle,
    input: Seq<u8>,
    new: CiemView,
    r: Result<Seq<u8>, CryptoError>,
)
    ensures
        tampered(tampered(v)) == tampered(v),
        authorize_outcome(tampered(v)) == (
        tampered(v),
        Err::<KeyHandle, CryptoError>(CryptoError::FsmInvalidTransition),
        ),
        encrypt_post(tampered(v), h, input, new, r) ==> new == tampered(v) && r == Err::<
            Seq<u8>,
            CryptoError,
        >(CryptoError::InvalidState),
        decrypt_post(tampered(v), h, input, new, r) ==> new == tampered(v) && r == Err::<
            Seq<u8>,
            CryptoError,
        >(CryptoError::InvalidState),
{
    assert(tampered(tampered(v)) =~= tampered(v));
}

/// Encrypting and then decrypting under the same key recovers the plaintext,
/// for any plaintext: whatever payload an encryption returned, a decryption
/// of it that passes its checks (capability of the anchor, untampered, use
/// granted) on an anchor holding the same key returns exactly the plaintext.
pub proof fn lemma_round_trip(
    enc_old: CiemView,
    enc_handle: KeyHandle,
    plaintext: Seq<u8>,
    enc_new: CiemView,
    payload: Seq<u8>,
    dec_old: CiemView,
    dec_handle: KeyHandle,
    dec_new: CiemView,
    r: Result<Seq<u8>, CryptoError>,
)
    requires
        ciem_wf(enc_old),
        encrypt_post(enc_old, enc_handle, plaintext, enc_new, Ok(payload)),
        dec_old.key == enc_old.key,
        gate_use(dec_old, dec_handle).1 == Ok::<(), CryptoError>(()),
        decrypt_post(dec_old, dec_handle, payload, dec_new, r),
    ensures
        r == Ok::<Seq<u8>, CryptoError>(plaintext),
{
    let key = enc_old.key->Some_0;
    let draw = choose|draw: Result<Seq<u8>, EntropyError>|
        {
            &&& is_possible_draw(enc_old.conditioning_key, enc_old.auxiliary_count, draw)
            &&& draw matches Ok(n) ==> n.len() == 32
            &&& is_encrypt_outcome(key, draw, plaintext, Ok(payload))
        };
    let nonce = draw->Ok_0.take(NONCE_LEN as int);
    assert(payload.take(NONCE_LEN as int) =~= nonce);
    assert(is_sealing_of(key, payload, plaintext));
}

} // verus!
