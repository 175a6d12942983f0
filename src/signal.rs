//! The capture side of the pipeline: storing a frame and signalling the detector
//! over a channel of capacity one.
use crate::frame::FrameStore;
use crossbeam_channel::Sender;
use vstd::prelude::*;

verus! {

#[verifier::external_type_specification]
#[verifier::external_body]
#[verifier::reject_recursive_types(T)]
pub struct ExSender<T>(crossbeam_channel::Sender<T>);

/// What became of a "new frame" signal.
#[derive(Clone, Copy, Debug, PartialEq, Eq, Structural)]
pub enum Notice {
    /// The signal is now pending for the detector.
    Delivered,
    /// A signal was already pending: this one is dropped, not queued.
    Dropped,
    /// The detector is gone.
    Closed,
}

/// Relies on crossbeam_channel::Sender::try_send: sends without blocking, and
/// hands the message back as `Full` when the channel is full or as
/// `Disconnected` when no receiver is left. Which one comes depends on the
/// receiving thread, so nothing is promised of the outcome.
#[verifier::external_body]
fn try_signal(sender: &Sender<()>) -> (r: Notice) {
    match sender.try_send(()) {
        Ok(()) => Notice::Delivered,
        Err(crossbeam_channel::TrySendError::Full(())) => Notice::Dropped,
        Err(crossbeam_channel::TrySendError::Disconnected(())) => Notice::Closed,
    }
}

/// Replaces the stored frame with a fresh capture, then signals the detector
/// without blocking. On a channel of capacity one, a signal sent while another
/// is pending is dropped, so the capture side never waits for the detector.
pub fn record_capture(store: &mut FrameStore, sender: &Sender<()>, frame: Vec<u8>) -> (r: Notice)
    ensures
        final(store)@ == frame@,
{
    store.write(frame);
    try_signal(sender)
}

} // verus!
