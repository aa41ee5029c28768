//! Audio ingestion session: the lock-free sample history and the policies of
//! the real-time callbacks that feed it.
//!
//! Samples are stored as the raw bit patterns of the 32-bit machine floats
//! that the audio runtime delivers; this crate never interprets them as
//! numbers, it only moves them between the audio thread and the analysis
//! thread. The ring buffer itself comes from the `rt-history` crate and is
//! used through trusted declarations; the sizing rule, the error-drain-first
//! reading discipline and the callback decision logic are verified here.

use vstd::prelude::*;

use crate::errors::{setup_error_channel, AudioError, ErrorInput, ErrorOutput};

verus! {

/// Raw sample as stored in the history: the bit pattern of one 32-bit float.
pub type SampleBits = u32;

/// Producer handle of the `rt-history` ring buffer. The handle is opaque;
/// everything known about it is stated on the trusted items below.
#[verifier::external_body]
pub struct HistoryWriter {
    inner: rt_history::Input<SampleBits>,
}

/// Consumer handle of the `rt-history` ring buffer. The handle is opaque;
/// everything known about it is stated on the trusted items below.
#[verifier::external_body]
pub struct HistoryReader {
    inner: rt_history::Output<SampleBits>,
}

/// Capacity of the ring buffer behind a consumer handle: how many entries the
/// producer can record before overwriting old ones.
pub uninterp spec fn reader_capacity(hist: HistoryReader) -> nat;

/// Capacity of the ring buffer behind a producer handle.
pub uninterp spec fn writer_capacity(hist: HistoryWriter) -> nat;

/// Relies on `RTHistory::new` and `RTHistory::split`: the buffer is allocated
/// with its capacity rounded up from `min_entries` to the next power of two
/// (so never more than doubled, and at least one), and the two returned
/// handles share it.
#[verifier::external_body]
fn allocate_history(min_entries: usize) -> (r: (HistoryWriter, HistoryReader))
    requires
        min_entries <= usize::MAX / 2 + 1,
    ensures
        writer_capacity(r.0) == reader_capacity(r.1),
        reader_capacity(r.1) >= min_entries,
        reader_capacity(r.1) >= 1,
        min_entries >= 1 ==> reader_capacity(r.1) < 2 * min_entries,
{
    let (input, output) = rt_history::RTHistory::<SampleBits>::new(min_entries).split();
    (HistoryWriter { inner: input }, HistoryReader { inner: output })
}

/// Relies on `Output::capacity`: reports the fixed capacity of the buffer.
#[verifier::external_body]
fn reader_capacity_of(hist: &HistoryReader) -> (r: usize)
    ensures
        r == reader_capacity(*hist),
{
    hist.inner.capacity()
}

/// Relies on `Input::capacity`: reports the fixed capacity of the buffer.
#[verifier::external_body]
fn writer_capacity_of(hist: &HistoryWriter) -> (r: usize)
    ensures
        r == writer_capacity(*hist),
{
    hist.inner.capacity()
}

/// Relies on `Input::write`: records the given entries at the end of the
/// history, overwriting the oldest ones once the buffer is full. The entries
/// must fit in the buffer, or the call would panic.
#[verifier::external_body]
fn write_raw(hist: &mut HistoryWriter, samples: &Vec<SampleBits>)
    requires
        samples@.len() <= writer_capacity(*old(hist)),
    ensures
        writer_capacity(*final(hist)) == writer_capacity(*old(hist)),
{
    hist.inner.write(samples.as_slice())
}

/// Relies on `Output::read`: fills the whole target with the latest recorded
/// entries and reports either the clock of the newest entry, or an overrun
/// with a positive count of overwritten entries. What was read depends on the
/// concurrent producer, so nothing is claimed about the values.
#[verifier::external_body]
fn read_latest(hist: &HistoryReader, target: &mut Vec<SampleBits>) -> (r: Result<
    usize,
    OverrunInfo,
>)
    requires
        old(target)@.len() <= reader_capacity(*hist),
    ensures
        final(target)@.len() == old(target)@.len(),
        r matches Err(o) ==> o.excess_entries > 0,
{
    match hist.inner.read(target.as_mut_slice()) {
        Ok(clock) => Ok(clock),
        Err(overrun) => Err(
            OverrunInfo { clock: overrun.clock, excess_entries: overrun.excess_entries },
        ),
    }
}

impl HistoryWriter {
    /// Fixed capacity of the underlying history buffer.
    pub fn capacity(&self) -> (r: usize)
        ensures
            r == writer_capacity(*self),
    {
        writer_capacity_of(self)
    }

    /// Record new entries into the history, as the audio callback does with
    /// each hardware period. Entries are recorded if and only if they fit in
    /// the buffer; a caller on the audio thread treats a rejected block as a
    /// fault, inside the callback guard.
    pub fn write(&mut self, samples: &Vec<SampleBits>) -> (r: bool)
        ensures
            writer_capacity(*final(self)) == writer_capacity(*old(self)),
            r <==> samples@.len() <= writer_capacity(*old(self)),
    {
        if samples.len() <= self.capacity() {
            write_raw(self, samples);
            true
        } else {
            false
        }
    }
}

/// Indication that the producer overwrote entries the consumer was reading.
#[derive(Clone, Copy, Debug, PartialEq, Eq)]
pub struct OverrunInfo {
    /// Number of entries fully written by the producer when the read started.
    pub clock: usize,

    /// Number of entries overwritten while the consumer was reading.
    pub excess_entries: usize,
}

/// Capacity to give the sample history buffer: two full analysis windows, or
/// four hardware periods, whichever is larger, so that the audio thread can
/// run that far ahead before an unread region is overwritten.
pub fn required_history_len(input_len: usize, period_len: usize) -> (r: usize)
    requires
        input_len <= usize::MAX / 2,
        period_len <= usize::MAX / 4,
    ensures
        r == 2 * input_len || r == 4 * period_len,
        r >= 2 * input_len,
        r >= 4 * period_len,
{
    if period_len <= input_len / 2 {
        2 * input_len
    } else {
        4 * period_len
    }
}

/// Handle to an audio recording pipeline, as seen by the analysis thread.
pub struct AudioRecording {
    /// Mechanism to query errors from the audio threads.
    error_output: ErrorOutput,

    /// Mechanism to read the latest audio history from the audio threads.
    hist_output: HistoryReader,
}

impl AudioRecording {
    /// Fixed capacity of the underlying history buffer.
    pub closed spec fn spec_capacity(&self) -> nat {
        reader_capacity(self.hist_output)
    }

    /// Start recording into a history buffer of at least the requested
    /// length. Returns the analysis-thread handle together with the two
    /// handles that the audio thread needs: the sample sink and the error
    /// input. The capacity invariant of the history buffer (at least the
    /// requested length, at most its double) is established here.
    pub fn start(history_len: usize) -> (r: (
        AudioRecording,
        HistoryWriter,
        ErrorInput,
    ))
        requires
            history_len <= usize::MAX / 2 + 1,
        ensures
            r.0.spec_capacity() >= history_len,
            history_len >= 1 ==> r.0.spec_capacity() < 2 * history_len,
            writer_capacity(r.1) == r.0.spec_capacity(),
    {
        let (hist_input, hist_output) = allocate_history(history_len);
        let (error_input, error_output) = setup_error_channel();
        (AudioRecording { error_output, hist_output }, hist_input, error_input)
    }

    /// Fixed capacity of the underlying history buffer.
    pub fn capacity(&self) -> (r: usize)
        ensures
            r == self.spec_capacity(),
    {
        reader_capacity_of(&self.hist_output)
    }

    /// Read the latest audio history after checking for audio thread errors.
    ///
    /// Any pending fatal error short-circuits the read and is returned in
    /// increasing bit-index order, one per call; otherwise the whole target
    /// is filled with the latest samples and the outer result carries the
    /// clock/overrun outcome of the buffer read.
    pub fn read_history(&mut self, target: &mut Vec<SampleBits>) -> (r: Result<
        Result<usize, OverrunInfo>,
        AudioError,
    >)
        requires
            old(target)@.len() <= old(self).spec_capacity(),
        ensures
            final(self).spec_capacity() == old(self).spec_capacity(),
            final(target)@.len() == old(target)@.len(),
            r is Err ==> final(target)@ == old(target)@,
            r matches Ok(Err(o)) ==> o.excess_entries > 0,
    {
        if let Some(error) = self.error_output.next_error() {
            Err(error)
        } else {
            Ok(read_latest(&self.hist_output, target))
        }
    }
}

/// What a real-time callback decides to do once it has run.
#[derive(Clone, Copy, Debug, PartialEq, Eq, Structural)]
pub enum CallbackControl {
    /// Keep the audio stream running.
    Continue,

    /// Ask the audio runtime to stop invoking the callbacks.
    Quit,
}

/// Decision of a notification callback: which fatal error to publish, if any,
/// whether to keep the stream running, and whether to warn that overruns have
/// become likely.
#[derive(Clone, Copy, Debug, PartialEq, Eq)]
pub struct CallbackVerdict {
    /// Fatal error to publish through the error channel, if any.
    pub error: Option<AudioError>,

    /// Whether the audio stream should keep running.
    pub control: CallbackControl,

    /// Whether to warn that the history buffer has become tight.
    pub warn_overrun_risk: bool,
}

/// Decision of the sample-rate-change notification: any change of rate is
/// fatal, since the FFT lengths were derived from the rate recorded at
/// construction; an unchanged rate is a no-op.
pub fn on_sample_rate_change(recorded_rate: usize, new_rate: usize) -> (r: CallbackVerdict)
    ensures
        new_rate != recorded_rate ==> r.error == Some(AudioError::SampleRateChanged)
            && r.control == CallbackControl::Quit,
        new_rate == recorded_rate ==> r.error is None && r.control == CallbackControl::Continue,
        !r.warn_overrun_risk,
{
    if new_rate != recorded_rate {
        CallbackVerdict {
            error: Some(AudioError::SampleRateChanged),
            control: CallbackControl::Quit,
            warn_overrun_risk: false,
        }
    } else {
        CallbackVerdict {
            error: None,
            control: CallbackControl::Continue,
            warn_overrun_risk: false,
        }
    }
}

/// Decision of the buffer-size-change notification: a hardware period larger
/// than the history capacity is fatal (the buffer cannot be reallocated from
/// the real-time thread); one larger than a quarter of the capacity keeps
/// running but warns that overruns are likely; anything smaller is a no-op.
pub fn on_buffer_size_change(new_size: usize, capacity: usize) -> (r: CallbackVerdict)
    ensures
        new_size > capacity ==> r.error == Some(AudioError::MustReallocateHistory)
            && r.control == CallbackControl::Quit && !r.warn_overrun_risk,
        new_size <= capacity ==> r.error is None && r.control == CallbackControl::Continue,
        new_size <= capacity ==> (r.warn_overrun_risk <==> new_size > capacity / 4),
{
    if new_size > capacity {
        CallbackVerdict {
            error: Some(AudioError::MustReallocateHistory),
            control: CallbackControl::Quit,
            warn_overrun_risk: false,
        }
    } else if new_size > capacity / 4 {
        CallbackVerdict {
            error: None,
            control: CallbackControl::Continue,
            warn_overrun_risk: true,
        }
    } else {
        CallbackVerdict {
            error: None,
            control: CallbackControl::Continue,
            warn_overrun_risk: false,
        }
    }
}

/// Outcome of one frame's history acquisition, as the frame loop treats it.
#[derive(Clone, Copy, Debug, PartialEq, Eq)]
pub enum FrameStatus {
    /// Fresh data was read; the spectrum should be recomputed.
    Normal {
        /// Clock of the newest entry read.
        clock: usize,
    },
    /// The clock did not advance since the previous read: no new data, the
    /// frame's spectrum update is skipped.
    Underrun {
        /// Clock of the newest entry read, equal to the previous clock.
        clock: usize,
    },
    /// The producer overwrote part of what was being read: the frame's
    /// spectrum update is skipped and the condition is surfaced.
    Overrun {
        /// Clock of the newest entry read.
        clock: usize,
        /// Number of entries overwritten during the read.
        excess_entries: usize,
    },
}

/// Classify a successful buffer read against the clock of the previous frame:
/// an unchanged clock is an underrun, an overrun descriptor is an overrun,
/// anything else is a normal frame.
pub fn classify_acquisition(outcome: Result<usize, OverrunInfo>, last_clock: usize) -> (r:
    FrameStatus)
    ensures
        outcome matches Ok(clock) ==> r == (if clock == last_clock {
            FrameStatus::Underrun { clock: clock }
        } else {
            FrameStatus::Normal { clock: clock }
        }),
        outcome matches Err(o) ==> r == (FrameStatus::Overrun {
            clock: o.clock,
            excess_entries: o.excess_entries,
        }),
{
    match outcome {
        Ok(clock) => {
            if clock == last_clock {
                FrameStatus::Underrun { clock }
            } else {
                FrameStatus::Normal { clock }
            }
        },
        Err(o) => FrameStatus::Overrun { clock: o.clock, excess_entries: o.excess_entries },
    }
}

} // verus!
