//! Wait-free error signaling from the audio thread to the analysis thread.
//!
//! Fatal faults detected on the real-time audio thread are published as bits
//! of one shared word, set with an atomic OR and drained one at a time by the
//! analysis thread with an atomic load followed by an atomic AND. The pure
//! word-level logic (which bit stands for which fault, which pending fault a
//! drain returns first) is verified here; the shared word itself is a plain
//! `AtomicUsize`, so nothing is assumed about interleaving with the writer.

use vstd::prelude::*;

use std::sync::Arc;
use std::sync::atomic::AtomicUsize;
use std::sync::atomic::Ordering;

verus! {

/// Fatal errors that can occur within the audio threads.
#[derive(Clone, Copy, Debug, PartialEq, Eq, Structural)]
pub enum AudioError {
    /// An audio callback has panicked.
    CallbackPanicked,

    /// The sample rate has changed (and we aren't ready to handle that).
    SampleRateChanged,

    /// The history buffer must be reallocated (and we aren't ready to do so).
    MustReallocateHistory,
}

/// Bit index that stands for one error kind in the shared flag word.
pub open spec fn error_bit(what: AudioError) -> usize {
    match what {
        AudioError::CallbackPanicked => 0,
        AudioError::SampleRateChanged => 1,
        AudioError::MustReallocateHistory => 2,
    }
}

/// Mask with only the bit of one error kind set.
pub open spec fn error_mask(what: AudioError) -> usize {
    match what {
        AudioError::CallbackPanicked => 1,
        AudioError::SampleRateChanged => 2,
        AudioError::MustReallocateHistory => 4,
    }
}

/// Flag word after one error kind has been published into it.
pub open spec fn notified_word(word: usize, what: AudioError) -> usize {
    word | error_mask(what)
}

/// Flag word after one error kind has been acknowledged and cleared.
pub open spec fn cleared_word(word: usize, what: AudioError) -> usize {
    word & !error_mask(what)
}

/// The pending error that a drain of the given flag word reports first:
/// the error kind with the lowest set bit, or `None` if no flag is set.
pub open spec fn first_error(word: usize) -> Option<AudioError> {
    if word & 1 != 0 {
        Some(AudioError::CallbackPanicked)
    } else if word & 2 != 0 {
        Some(AudioError::SampleRateChanged)
    } else if word & 4 != 0 {
        Some(AudioError::MustReallocateHistory)
    } else {
        None
    }
}

/// Executable mirror of [`error_mask`].
pub fn mask_of(what: AudioError) -> (r: usize)
    ensures
        r == error_mask(what),
{
    match what {
        AudioError::CallbackPanicked => 1,
        AudioError::SampleRateChanged => 2,
        AudioError::MustReallocateHistory => 4,
    }
}

/// Decode the first pending error of a flag word, exactly as [`first_error`]
/// describes. The analysis thread runs this on whatever word it loaded, so it
/// is verified for every word value.
pub fn first_error_of(word: usize) -> (r: Option<AudioError>)
    ensures
        r == first_error(word),
{
    if word & 1 != 0 {
        Some(AudioError::CallbackPanicked)
    } else if word & 2 != 0 {
        Some(AudioError::SampleRateChanged)
    } else if word & 4 != 0 {
        Some(AudioError::MustReallocateHistory)
    } else {
        None
    }
}

/// Notifying an error sets its own flag and leaves every other flag exactly
/// as it was: flags are only ever set by the writer, never cleared.
pub proof fn lemma_notify_sets_only_its_bit(word: usize, what: AudioError, other: AudioError)
    ensures
        notified_word(word, what) & error_mask(what) == error_mask(what),
        other != what ==> notified_word(word, what) & error_mask(other) == word & error_mask(
            other,
        ),
{
    let m = error_mask(what);
    let o = error_mask(other);
    assert(m == 1 || m == 2 || m == 4);
    assert(o == 1 || o == 2 || o == 4);
    if other != what {
        assert(o != m);
    }
    assert((m == 1 || m == 2 || m == 4) ==> (word | m) & m == m) by (bit_vector);
    assert(((m == 1 || m == 2 || m == 4) && (o == 1 || o == 2 || o == 4) && o != m) ==> (word
        | m) & o == word & o) by (bit_vector);
}

/// Clearing an error clears its own flag and leaves every other flag exactly
/// as it was: a drained fault cannot erase a distinct pending fault.
pub proof fn lemma_clear_clears_only_its_bit(word: usize, what: AudioError, other: AudioError)
    ensures
        cleared_word(word, what) & error_mask(what) == 0,
        other != what ==> cleared_word(word, what) & error_mask(other) == word & error_mask(
            other,
        ),
{
    let m = error_mask(what);
    let o = error_mask(other);
    assert(m == 1 || m == 2 || m == 4);
    assert(o == 1 || o == 2 || o == 4);
    if other != what {
        assert(o != m);
    }
    assert((m == 1 || m == 2 || m == 4) ==> (word & !m) & m == 0) by (bit_vector);
    assert(((m == 1 || m == 2 || m == 4) && (o == 1 || o == 2 || o == 4) && o != m) ==> (word
        & !m) & o == word & o) by (bit_vector);
}

/// Draining is exhaustive and ordered: after two distinct faults were
/// published into an otherwise quiet word, the first drain reports the fault
/// with the lower bit index, the second drain reports the other, and a third
/// drain reports nothing.
pub proof fn lemma_drain_two_in_bit_order(first: AudioError, second: AudioError)
    requires
        error_bit(first) < error_bit(second),
    ensures
        ({
            let w = notified_word(notified_word(0, first), second);
            &&& first_error(w) == Some(first)
            &&& first_error(cleared_word(w, first)) == Some(second)
            &&& first_error(cleared_word(cleared_word(w, first), second)) == None::<AudioError>
        }),
{
    assert((0usize | 1) | 2 == 3usize) by (bit_vector);
    assert((0usize | 1) | 4 == 5usize) by (bit_vector);
    assert((0usize | 2) | 4 == 6usize) by (bit_vector);
    assert(3usize & !1usize == 2usize) by (bit_vector);
    assert(5usize & !1usize == 4usize) by (bit_vector);
    assert(6usize & !2usize == 4usize) by (bit_vector);
    assert(2usize & !2usize == 0usize) by (bit_vector);
    assert(4usize & !4usize == 0usize) by (bit_vector);
    assert(3usize & 1 != 0 && 2usize & 1 == 0 && 2usize & 2 != 0) by (bit_vector);
    assert(5usize & 1 != 0 && 4usize & 1 == 0 && 4usize & 2 == 0 && 4usize & 4 != 0)
        by (bit_vector);
    assert(6usize & 1 == 0 && 6usize & 2 != 0) by (bit_vector);
    assert(0usize & 1 == 0 && 0usize & 2 == 0 && 0usize & 4 == 0) by (bit_vector);
    match (first, second) {
        (AudioError::CallbackPanicked, AudioError::SampleRateChanged) => {
        },
        (AudioError::CallbackPanicked, AudioError::MustReallocateHistory) => {
        },
        (AudioError::SampleRateChanged, AudioError::MustReallocateHistory) => {
        },
        _ => {
            assert(false);
        },
    }
}

/// Draining reports nothing exactly when no fault flag is pending: the
/// analysis thread can rely on a `None` to mean the channel was quiet.
pub proof fn lemma_drain_none_iff_quiet(word: usize)
    ensures
        first_error(word) is None <==> word & 7 == 0,
{
    assert((word & 1 == 0 && word & 2 == 0 && word & 4 == 0) <==> word & 7 == 0)
        by (bit_vector);
}

/// Relies on `core::sync::atomic::fence` for its release-ordering side
/// effect alone; it computes nothing. The ordering is fixed here to
/// `Release`, on which the fence is documented to return normally (it
/// panics on `Relaxed`, which this wrapper cannot be handed).
#[verifier::external_body]
fn release_fence() {
    core::sync::atomic::fence(Ordering::Release)
}

/// Setup audio thread error notification mechanism.
pub fn setup_error_channel() -> (ErrorInput, ErrorOutput) {
    let flag = Arc::new(AtomicUsize::new(0));
    let flag2 = flag.clone();
    (ErrorInput { flag }, ErrorOutput { flag: flag2 })
}

/// Mechanism to notify the main thread of audio thread errors.
pub struct ErrorInput {
    flag: Arc<AtomicUsize>,
}

impl ErrorInput {
    /// Notify the main thread that an audio thread error has occurred.
    ///
    /// The word-level effect is [`notified_word`]; nothing is claimed about
    /// the shared word itself, which the analysis thread drains concurrently.
    pub fn notify_error(&self, what: AudioError) {
        // Set the new error flag
        (&*self.flag).fetch_or(mask_of(what), Ordering::Relaxed);
        // Error must be notified before we touch any other shared state
        release_fence();
    }
}

impl Clone for ErrorInput {
    /// The clone publishes into the same shared flag word.
    fn clone(&self) -> Self {
        ErrorInput { flag: self.flag.clone() }
    }
}

/// Mechanism to receive audio thread errors in the main thread.
pub struct ErrorOutput {
    flag: Arc<AtomicUsize>,
}

impl ErrorOutput {
    /// Look for the next audio thread error, if any.
    ///
    /// Loads the shared word, decodes its first pending error exactly as
    /// [`first_error`] describes (that decoding is verified for every word
    /// value by [`first_error_of`]), and acknowledges the reported error by
    /// clearing its flag, so that repeated calls drain all pending errors in
    /// increasing bit-index order.
    pub fn next_error(&mut self) -> (r: Option<AudioError>) {
        // Query the current error flags. Must be Acquire because we want to
        // make sure that error readout occurs before any other shared state
        // is touched.
        let flags = (&*self.flag).load(Ordering::Acquire);
        match first_error_of(flags) {
            None => None,
            Some(what) => {
                // Unset the associated flag so that the next call to this
                // method reports the next pending audio thread error.
                (&*self.flag).fetch_and(!mask_of(what), Ordering::Relaxed);
                Some(what)
            },
        }
    }
}

} // verus!
