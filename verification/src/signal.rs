//! The one-time completion signal.
//!
//! The process may exit only after the background work has said that it is
//! over. That word travels over a `oneshot` channel: this module wraps the
//! sending end so that it is written once and never again, and so that
//! whoever holds it can be asked whether it has been written.

use vstd::prelude::*;

verus! {

/// `oneshot::Sender`, the sending end of a channel for one message. Nothing
/// is known of what is inside.
#[verifier::external_type_specification]
#[verifier::external_body]
#[verifier::reject_recursive_types(T)]
pub struct ExSender<T>(oneshot::Sender<T>);

/// Calls `oneshot::Sender::send` with the unit message and drops what it
/// returns: a receiver that is already gone is no error here. Nothing is
/// claimed of the call.
#[verifier::external_body]
fn send_unit(sender: oneshot::Sender<()>) {
    let _ = sender.send(());
}

/// The writing end of the completion signal. It starts out unwritten;
/// [`CompletionSignal::release`] writes it, and from then on the value only
/// records that it has been written.
#[derive(Debug)]
pub struct CompletionSignal {
    sender: Option<oneshot::Sender<()>>,
}

impl CompletionSignal {
    /// The sending end that a release will write to; `None` once the signal
    /// has been written.
    pub closed spec fn channel_end(&self) -> Option<oneshot::Sender<()>> {
        self.sender
    }

    /// The signal has been written.
    pub open spec fn released(&self) -> bool {
        self.channel_end() is None
    }

    /// Wraps the sending end of a fresh channel. The signal is unwritten, and
    /// it will be written to that channel and to no other: whoever holds the
    /// receiving end of it is the one that a release wakes.
    pub fn new(sender: oneshot::Sender<()>) -> (signal: CompletionSignal)
        ensures
            signal.channel_end() == Some(sender),
            !signal.released(),
    {
        CompletionSignal { sender: Some(sender) }
    }

    /// Whether the signal has been written.
    pub fn is_released(&self) -> (released: bool)
        ensures
            released == self.released(),
    {
        self.sender.is_none()
    }

    /// Writes the signal, unless it has been written before. The reader wakes
    /// whether or not it was already waiting. Afterwards the signal counts as
    /// written, so that a second release writes nothing.
    pub fn release(&mut self)
        ensures
            final(self).released(),
    {
        match self.sender.take() {
            Some(sender) => send_unit(sender),
            None => {},
        }
    }
}

} // verus!
