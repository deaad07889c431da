//! Entropy gathering: health tests on the primary source's sample, and keyed
//! conditioning of everything gathered.

use vstd::prelude::*;

use crate::bytes::append_bytes;

verus! {

/// A hardware source of random bytes, supplied by the integrator.
pub trait RngSource {
    /// Overwrites `dest` with bytes from the source.
    fn read(&self, dest: &mut [u8])
        ensures
            final(dest)@.len() == old(dest)@.len(),
    ;

    /// The name of the source.
    fn name(&self) -> &'static str;
}

/// Relies on `rand::thread_rng` and `rand::RngCore::fill_bytes`: the slice is
/// overwritten with random bytes and keeps its length.
#[verifier::external_body]
fn fill_random(dest: &mut [u8])
    ensures
        final(dest)@.len() == old(dest)@.len(),
{
    rand::RngCore::fill_bytes(&mut rand::thread_rng(), dest)
}

/// A thermal-noise generator, simulated by the operating system's generator.
pub struct MockTRNG;

impl RngSource for MockTRNG {
    fn read(&self, dest: &mut [u8]) {
        fill_random(dest)
    }

    fn name(&self) -> &'static str {
        "MockTRNG"
    }
}

/// A quantum generator, simulated by the operating system's generator.
pub struct MockQRNG;

impl RngSource for MockQRNG {
    fn read(&self, dest: &mut [u8]) {
        fill_random(dest)
    }

    fn name(&self) -> &'static str {
        "MockQRNG"
    }
}

/// A single source read without health tests or conditioning; superseded by
/// [`EntropyAggregator`].
pub struct EntropySource<R: RngSource> {
    source: R,
}

impl<R: RngSource> EntropySource<R> {
    /// Wraps one hardware source.
    pub fn new(source: R) -> Self {
        EntropySource { source }
    }

    /// Thirty-two bytes read directly from the source.
    pub fn mix(&self) -> [u8; 32] {
        let mut buffer = [0u8; 32];
        self.source.read(&mut buffer);
        buffer
    }

    /// The name of the underlying source.
    pub fn source_name(&self) -> &'static str {
        self.source.name()
    }
}

/// Errors of entropy gathering.
#[derive(Debug, PartialEq, Eq, Structural)]
pub enum EntropyError {
    /// The repetition count test found a stuck source.
    RepetitionCheckFailed,
    /// The adaptive proportion test found a biased source.
    ProportionCheckFailed,
    /// No source was configured.
    NoSources,
}

/// Bytes read from the primary source per draw.
pub const PRIMARY_SAMPLE_LEN: usize = 1024;

/// Bytes read from each auxiliary source per draw.
pub const AUXILIARY_SAMPLE_LEN: usize = 256;

/// Length of a run of one value that marks a source as stuck.
pub const REPETITION_COUNT_CUTOFF: usize = 5;

/// Number of leading bytes that the adaptive proportion test inspects.
pub const ADAPTIVE_PROPORTION_WINDOW_SIZE: usize = 512;

/// Most occurrences of one value allowed in the inspected window.
pub const ADAPTIVE_PROPORTION_CUTOFF: usize = 10;

/// `s` holds `REPETITION_COUNT_CUTOFF` equal values starting at `i`.
pub open spec fn run_at(s: Seq<u8>, i: int) -> bool {
    &&& 0 <= i
    &&& i + REPETITION_COUNT_CUTOFF <= s.len()
    &&& forall|j: int| i <= j < i + REPETITION_COUNT_CUTOFF ==> s[j] == s[i]
}

/// Some value repeats `REPETITION_COUNT_CUTOFF` or more times in a row in `s`.
pub open spec fn has_stuck_run(s: Seq<u8>) -> bool {
    exists|i: int| run_at(s, i)
}

/// The number of occurrences of `b` in `s`.
pub open spec fn count_of(s: Seq<u8>, b: u8) -> nat
    decreases s.len(),
{
    if s.len() == 0 {
        0
    } else {
        count_of(s.drop_last(), b) + if s.last() == b {
            1nat
        } else {
            0nat
        }
    }
}

/// `s` is long enough to be inspected, and some value occurs more than
/// `ADAPTIVE_PROPORTION_CUTOFF` times among its first
/// `ADAPTIVE_PROPORTION_WINDOW_SIZE` bytes.
pub open spec fn is_biased(s: Seq<u8>) -> bool {
    &&& s.len() >= ADAPTIVE_PROPORTION_WINDOW_SIZE
    &&& exists|b: u8| count_of(s.take(ADAPTIVE_PROPORTION_WINDOW_SIZE as int), b) > ADAPTIVE_PROPORTION_CUTOFF
}

/// The verdict of both health tests on a sample; the repetition test speaks
/// first.
pub open spec fn health_verdict(s: Seq<u8>) -> Result<(), EntropyError> {
    if has_stuck_run(s) {
        Err(EntropyError::RepetitionCheckFailed)
    } else if is_biased(s) {
        Err(EntropyError::ProportionCheckFailed)
    } else {
        Ok(())
    }
}

/// The HMAC-SHA256 tag of `message` under `key`.
pub uninterp spec fn hmac_sha256(key: Seq<u8>, message: Seq<u8>) -> Seq<u8>;

/// The outcome of a draw whose primary sample is `primary` and whose auxiliary
/// samples, concatenated, are `auxiliary`.
pub open spec fn entropy_outcome(key: Seq<u8>, primary: Seq<u8>, auxiliary: Seq<u8>) -> Result<
    Seq<u8>,
    EntropyError,
> {
    match health_verdict(primary) {
        Ok(_) => Ok(hmac_sha256(key, primary + auxiliary)),
        Err(e) => Err(e),
    }
}

/// `outcome` is what a draw may give with conditioning key `key` and
/// `auxiliary_count` auxiliary sources: the outcome for some primary sample of
/// `PRIMARY_SAMPLE_LEN` bytes and some auxiliary samples of
/// `AUXILIARY_SAMPLE_LEN` bytes each.
pub open spec fn is_possible_draw(
    key: Seq<u8>,
    auxiliary_count: nat,
    outcome: Result<Seq<u8>, EntropyError>,
) -> bool {
    exists|primary: Seq<u8>, auxiliary: Seq<u8>|
        {
            &&& primary.len() == PRIMARY_SAMPLE_LEN
            &&& auxiliary.len() == AUXILIARY_SAMPLE_LEN * auxiliary_count
            &&& outcome == entropy_outcome(key, primary, auxiliary)
        }
}

/// A failed draw fails a health test.
pub proof fn lemma_draw_errors(key: Seq<u8>, auxiliary_count: nat, e: EntropyError)
    requires
        is_possible_draw(key, auxiliary_count, Err(e)),
    ensures
        e == EntropyError::RepetitionCheckFailed || e == EntropyError::ProportionCheckFailed,
{
}

/// The bytes of a draw's result, or its error.
pub open spec fn drawn(r: Result<[u8; 32], EntropyError>) -> Result<Seq<u8>, EntropyError> {
    match r {
        Ok(b) => Ok(b@),
        Err(e) => Err(e),
    }
}

/// Relies on `ring::hmac::Key::new` with `ring::hmac::HMAC_SHA256` and on
/// `ring::hmac::sign`: the 32-byte tag depends on the key and the message
/// alone.
#[verifier::external_body]
fn hmac_sha256_tag(key: &[u8], message: &[u8]) -> (r: [u8; 32])
    ensures
        r@ == hmac_sha256(key@, message@),
{
    let key = ring::hmac::Key::new(ring::hmac::HMAC_SHA256, key);
    let tag = ring::hmac::sign(&key, message);
    let mut out = [0u8; 32];
    out.copy_from_slice(tag.as_ref());
    out
}

/// The repetition count test: fails when some value repeats
/// `REPETITION_COUNT_CUTOFF` or more times in a row.
pub fn repetition_count_test(data: &[u8]) -> (r: Result<(), EntropyError>)
    ensures
        r == (if has_stuck_run(data@) {
            Err(EntropyError::RepetitionCheckFailed)
        } else {
            Ok(())
        }),
{
    let mut last: Option<u8> = None;
    let mut count: usize = 0;
    let mut i: usize = 0;
    while i < data.len()
        invariant
            i <= data@.len(),
            i == 0 ==> last is None,
            i > 0 ==> last == Some(data@[i - 1]),
            i > 0 ==> 1 <= count < REPETITION_COUNT_CUTOFF && count <= i,
            i > 0 ==> forall|j: int| i - count <= j < i ==> #[trigger] data@[j] == data@[i - 1],
            i > 0 && count < i ==> data@[i - count - 1] != data@[i - 1],
            forall|k: int| 0 <= k && k + REPETITION_COUNT_CUTOFF <= i ==> !run_at(data@, k),
        decreases data@.len() - i,
    {
        let byte = data[i];
        let repeats = match last {
            Some(prev) => prev == byte,
            None => false,
        };
        if repeats {
            count = count + 1;
            if count >= REPETITION_COUNT_CUTOFF {
                proof {
                    assert(run_at(data@, i - 4));
                }
                return Err(EntropyError::RepetitionCheckFailed);
            }
        } else {
            last = Some(byte);
            count = 1;
        }
        proof {
            if i >= 4 && run_at(data@, i - 4) {
                assert(data@[i - 1] == data@[i - 4]);
                assert(data@[i as int] == data@[i - 4]);
                if repeats {
                    assert(data@[i - count] == data@[i - 4]);
                }
            }
        }
        i = i + 1;
    }
    proof {
        assert forall|k: int| !run_at(data@, k) by {
            if run_at(data@, k) {
                assert(k + REPETITION_COUNT_CUTOFF <= i);
            }
        }
    }
    Ok(())
}

/// Counting one more byte adds one to that byte's count and nothing to the
/// others.
proof fn lemma_count_of_push(s: Seq<u8>, i: int, b: u8)
    requires
        0 <= i < s.len(),
    ensures
        count_of(s.take(i + 1), b) == count_of(s.take(i), b) + if s[i] == b {
            1nat
        } else {
            0nat
        },
{
    assert(s.take(i + 1).drop_last() =~= s.take(i));
}

/// The adaptive proportion test: fails when some value occurs more than
/// `ADAPTIVE_PROPORTION_CUTOFF` times among the first
/// `ADAPTIVE_PROPORTION_WINDOW_SIZE` bytes; a shorter sample is not tested.
pub fn adaptive_proportion_test(data: &[u8]) -> (r: Result<(), EntropyError>)
    ensures
        r == (if is_biased(data@) {
            Err(EntropyError::ProportionCheckFailed)
        } else {
            Ok(())
        }),
{
    if data.len() < ADAPTIVE_PROPORTION_WINDOW_SIZE {
        return Ok(());
    }
    let ghost window = data@.take(ADAPTIVE_PROPORTION_WINDOW_SIZE as int);
    let mut counts: Vec<u32> = vec![0u32; 256];
    let mut i: usize = 0;
    while i < ADAPTIVE_PROPORTION_WINDOW_SIZE
        invariant
            i <= ADAPTIVE_PROPORTION_WINDOW_SIZE <= data@.len(),
            window == data@.take(ADAPTIVE_PROPORTION_WINDOW_SIZE as int),
            counts@.len() == 256,
            forall|k: int| 0 <= k < 256 ==> #[trigger] counts@[k] == count_of(data@.take(i as int), k as u8),
            forall|k: int| 0 <= k < 256 ==> #[trigger] counts@[k] <= i,
        decreases ADAPTIVE_PROPORTION_WINDOW_SIZE - i,
    {
        let byte = data[i];
        let idx = byte as usize;
        let c = counts[idx];
        counts.set(idx, c + 1);
        proof {
            assert forall|k: int| 0 <= k < 256 implies #[trigger] counts@[k] == count_of(
                data@.take(i + 1),
                k as u8,
            ) by {
                lemma_count_of_push(data@, i as int, k as u8);
            }
        }
        i = i + 1;
    }
    assert(data@.take(i as int) =~= window);
    let mut k: usize = 0;
    while k < 256
        invariant
            ADAPTIVE_PROPORTION_WINDOW_SIZE <= data@.len(),
            window == data@.take(ADAPTIVE_PROPORTION_WINDOW_SIZE as int),
            counts@.len() == 256,
            forall|m: int| 0 <= m < 256 ==> #[trigger] counts@[m] == count_of(window, m as u8),
            forall|m: int| 0 <= m < k ==> #[trigger] counts@[m] <= ADAPTIVE_PROPORTION_CUTOFF,
            k <= 256,
        decreases 256 - k,
    {
        if counts[k] as usize > ADAPTIVE_PROPORTION_CUTOFF {
            let b = k as u8;
            assert(counts@[b as int] == count_of(window, b));
            assert(count_of(data@.take(ADAPTIVE_PROPORTION_WINDOW_SIZE as int), b)
                > ADAPTIVE_PROPORTION_CUTOFF);
            return Err(EntropyError::ProportionCheckFailed);
        }
        k = k + 1;
    }
    assert forall|b: u8| count_of(window, b) <= ADAPTIVE_PROPORTION_CUTOFF by {
        assert(counts@[b as int] == count_of(window, (b as int) as u8));
    }
    Ok(())
}

/// Both health tests, the repetition test first.
pub fn run_health_checks(data: &[u8]) -> (r: Result<(), EntropyError>)
    ensures
        r == health_verdict(data@),
{
    match repetition_count_test(data) {
        Ok(()) => {},
        Err(e) => return Err(e),
    }
    adaptive_proportion_test(data)
}

/// Gathers entropy from one health-tested primary source and any number of
/// auxiliary sources, and conditions it with a keyed hash.
pub struct EntropyAggregator<P: RngSource, A: RngSource> {
    primary: P,
    auxiliary: Vec<A>,
    hmac_key: Vec<u8>,
}

impl<P: RngSource, A: RngSource> EntropyAggregator<P, A> {
    /// The conditioning key.
    pub closed spec fn conditioning_key(&self) -> Seq<u8> {
        self.hmac_key@
    }

    /// The number of auxiliary sources.
    pub closed spec fn auxiliary_count(&self) -> nat {
        self.auxiliary@.len()
    }

    /// An aggregator over a primary source, auxiliary sources and the
    /// conditioning key.
    pub fn new(primary: P, auxiliary: Vec<A>, hmac_key: Vec<u8>) -> (r: Self)
        ensures
            r.conditioning_key() == hmac_key@,
            r.auxiliary_count() == auxiliary@.len(),
    {
        EntropyAggregator { primary, auxiliary, hmac_key }
    }

    /// Draws 32 conditioned bytes: reads `PRIMARY_SAMPLE_LEN` bytes from the
    /// primary source and health-tests them, then appends
    /// `AUXILIARY_SAMPLE_LEN` bytes from each auxiliary source and conditions
    /// the whole. The result is the draw's outcome for the samples that the
    /// sources gave.
    pub fn get_entropy(&self) -> (r: Result<[u8; 32], EntropyError>)
        ensures
            is_possible_draw(self.conditioning_key(), self.auxiliary_count(), drawn(r)),
    {
        let mut primary_data: Vec<u8> = vec![0u8; PRIMARY_SAMPLE_LEN];
        self.primary.read(primary_data.as_mut_slice());
        match run_health_checks(primary_data.as_slice()) {
            Ok(()) => {},
            Err(e) => {
                let ghost filler = Seq::new(
                    (AUXILIARY_SAMPLE_LEN * self.auxiliary_count()) as nat,
                    |i: int| 0u8,
                );
                assert(drawn(Err(e)) == entropy_outcome(self.conditioning_key(), primary_data@, filler));
                assert(filler.len() == AUXILIARY_SAMPLE_LEN * self.auxiliary_count());
                return Err(e);
            },
        }
        let mut auxiliary_data: Vec<u8> = Vec::new();
        let mut i: usize = 0;
        while i < self.auxiliary.len()
            invariant
                i <= self.auxiliary@.len(),
                auxiliary_data@.len() == AUXILIARY_SAMPLE_LEN * i,
            decreases self.auxiliary@.len() - i,
        {
            let mut sample: Vec<u8> = vec![0u8; AUXILIARY_SAMPLE_LEN];
            self.auxiliary[i].read(sample.as_mut_slice());
            append_bytes(&mut auxiliary_data, sample.as_slice());
            i = i + 1;
        }
        let r = self.condition_samples(primary_data.as_slice(), auxiliary_data.as_slice());
        assert(drawn(r) == entropy_outcome(self.conditioning_key(), primary_data@, auxiliary_data@));
        r
    }

    /// The outcome of a draw whose primary sample is `primary` and whose
    /// auxiliary samples, concatenated, are `auxiliary`: the health tests on
    /// `primary`, then the keyed hash of `primary` followed by `auxiliary`.
    pub fn condition_samples(&self, primary: &[u8], auxiliary: &[u8]) -> (r: Result<[u8; 32], EntropyError>)
        ensures
            drawn(r) == entropy_outcome(self.conditioning_key(), primary@, auxiliary@),
    {
        match run_health_checks(primary) {
            Ok(()) => {},
            Err(e) => return Err(e),
        }
        let mut raw: Vec<u8> = Vec::new();
        append_bytes(&mut raw, primary);
        append_bytes(&mut raw, auxiliary);
        Ok(self.condition_entropy(raw.as_slice()))
    }

    /// The keyed hash of `raw_entropy` under the conditioning key.
    fn condition_entropy(&self, raw_entropy: &[u8]) -> (r: [u8; 32])
        ensures
            r@ == hmac_sha256(self.conditioning_key(), raw_entropy@),
    {
        hmac_sha256_tag(self.hmac_key.as_slice(), raw_entropy)
    }
}

/// A primary sample with a stuck run fails the draw with
/// `RepetitionCheckFailed`; one without, whose inspected window holds a value
/// more than `ADAPTIVE_PROPORTION_CUTOFF` times, fails it with
/// `ProportionCheckFailed`; one passing both yields the keyed hash of the
/// samples, a function of the samples and the key alone.
pub proof fn lemma_health_checks_gate_output(key: Seq<u8>, primary: Seq<u8>, auxiliary: Seq<u8>)
    requires
        primary.len() == PRIMARY_SAMPLE_LEN,
    ensures
        has_stuck_run(primary) ==> entropy_outcome(key, primary, auxiliary) == Err::<Seq<u8>, EntropyError>(
            EntropyError::RepetitionCheckFailed,
        ),
        !has_stuck_run(primary) && (exists|b: u8|
            count_of(primary.take(ADAPTIVE_PROPORTION_WINDOW_SIZE as int), b)
                > ADAPTIVE_PROPORTION_CUTOFF) ==> entropy_outcome(key, primary, auxiliary) == Err::<
            Seq<u8>,
            EntropyError,
        >(EntropyError::ProportionCheckFailed),
        health_verdict(primary) == Ok::<(), EntropyError>(()) ==> entropy_outcome(
            key,
            primary,
            auxiliary,
        ) == Ok::<Seq<u8>, EntropyError>(hmac_sha256(key, primary + auxiliary)),
{
}

} // verus!
