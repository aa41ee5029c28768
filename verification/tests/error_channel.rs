//! Tests of the wait-free error channel and its word-level decoding.

use spectre::errors::{first_error_of, mask_of, setup_error_channel, AudioError};

#[test]
fn drain_with_nothing_pending_is_none() {
    let (_input, mut output) = setup_error_channel();
    assert_eq!(output.next_error(), None);
    assert_eq!(output.next_error(), None);
}

#[test]
fn two_notifications_drain_in_bit_order() {
    let (input, mut output) = setup_error_channel();
    input.notify_error(AudioError::CallbackPanicked);
    input.notify_error(AudioError::SampleRateChanged);
    assert_eq!(output.next_error(), Some(AudioError::CallbackPanicked));
    assert_eq!(output.next_error(), Some(AudioError::SampleRateChanged));
    assert_eq!(output.next_error(), None);
}

#[test]
fn notifications_drain_in_bit_order_not_arrival_order() {
    let (input, mut output) = setup_error_channel();
    input.notify_error(AudioError::MustReallocateHistory);
    input.notify_error(AudioError::SampleRateChanged);
    input.notify_error(AudioError::CallbackPanicked);
    assert_eq!(output.next_error(), Some(AudioError::CallbackPanicked));
    assert_eq!(output.next_error(), Some(AudioError::SampleRateChanged));
    assert_eq!(output.next_error(), Some(AudioError::MustReallocateHistory));
    assert_eq!(output.next_error(), None);
}

#[test]
fn repeated_notification_drains_once() {
    let (input, mut output) = setup_error_channel();
    input.notify_error(AudioError::SampleRateChanged);
    input.notify_error(AudioError::SampleRateChanged);
    assert_eq!(output.next_error(), Some(AudioError::SampleRateChanged));
    assert_eq!(output.next_error(), None);
}

#[test]
fn cleared_flag_reappears_only_after_fresh_fault() {
    let (input, mut output) = setup_error_channel();
    input.notify_error(AudioError::CallbackPanicked);
    assert_eq!(output.next_error(), Some(AudioError::CallbackPanicked));
    assert_eq!(output.next_error(), None);
    input.notify_error(AudioError::CallbackPanicked);
    assert_eq!(output.next_error(), Some(AudioError::CallbackPanicked));
    assert_eq!(output.next_error(), None);
}

#[test]
fn cloned_input_publishes_into_same_channel() {
    let (input, mut output) = setup_error_channel();
    let other = input.clone();
    other.notify_error(AudioError::MustReallocateHistory);
    assert_eq!(output.next_error(), Some(AudioError::MustReallocateHistory));
    assert_eq!(output.next_error(), None);
}

#[test]
fn word_decoding_picks_lowest_set_bit() {
    assert_eq!(first_error_of(0), None);
    assert_eq!(first_error_of(1), Some(AudioError::CallbackPanicked));
    assert_eq!(first_error_of(2), Some(AudioError::SampleRateChanged));
    assert_eq!(first_error_of(3), Some(AudioError::CallbackPanicked));
    assert_eq!(first_error_of(4), Some(AudioError::MustReallocateHistory));
    assert_eq!(first_error_of(5), Some(AudioError::CallbackPanicked));
    assert_eq!(first_error_of(6), Some(AudioError::SampleRateChanged));
    assert_eq!(first_error_of(7), Some(AudioError::CallbackPanicked));
}

#[test]
fn error_masks_are_distinct_single_bits() {
    assert_eq!(mask_of(AudioError::CallbackPanicked), 1);
    assert_eq!(mask_of(AudioError::SampleRateChanged), 2);
    assert_eq!(mask_of(AudioError::MustReallocateHistory), 4);
}
