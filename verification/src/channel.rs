//! The channel that takes finished spans from where they end to where they
//! are reported.
//!
//! It is an unbounded multi-producer, single-consumer channel of `tokio`.
//! Sending never blocks. What the receiving end finds depends on what every
//! sender has done so far, so nothing is promised about it here.

use crate::span::FinishedSpan;
use tokio::sync::mpsc::UnboundedReceiver;
use tokio::sync::mpsc::UnboundedSender;
use vstd::prelude::*;

verus! {

/// `tokio::sync::mpsc::UnboundedSender`, a sending end of a channel. Opaque
/// here.
#[verifier::external_type_specification]
#[verifier::external_body]
#[verifier::reject_recursive_types(T)]
pub struct ExUnboundedSender<T>(tokio::sync::mpsc::UnboundedSender<T>);

/// `tokio::sync::mpsc::UnboundedReceiver`, the receiving end of a channel.
/// Opaque here.
#[verifier::external_type_specification]
#[verifier::external_body]
#[verifier::reject_recursive_types(T)]
pub struct ExUnboundedReceiver<T>(tokio::sync::mpsc::UnboundedReceiver<T>);

/// `tokio::sync::mpsc::unbounded_channel`: a new channel, as its two ends.
#[verifier::external_body]
pub(crate) fn unbounded_channel() -> (
    UnboundedSender<FinishedSpan>,
    UnboundedReceiver<FinishedSpan>,
) {
    tokio::sync::mpsc::unbounded_channel()
}

/// `UnboundedSender::clone`: another sending end of the same channel.
#[verifier::external_body]
pub(crate) fn clone_sender(
    sender: &UnboundedSender<FinishedSpan>,
) -> UnboundedSender<FinishedSpan> {
    sender.clone()
}

/// `UnboundedSender::send`, which does not block: says whether the channel
/// took the span. It fails when the receiving end is closed or gone.
#[verifier::external_body]
pub(crate) fn send(sender: &UnboundedSender<FinishedSpan>, span: FinishedSpan) -> bool {
    match sender.send(span) {
        Ok(()) => true,
        Err(_) => false,
    }
}

/// `UnboundedReceiver::try_recv`, which does not block: the next span in the
/// channel, if one is there now.
#[verifier::external_body]
pub(crate) fn try_recv(receiver: &mut UnboundedReceiver<FinishedSpan>) -> Option<FinishedSpan> {
    match receiver.try_recv() {
        Ok(span) => Some(span),
        Err(_) => None,
    }
}

/// The sending end that every span of one tracer holds.
#[derive(Debug)]
pub struct SpanSender {
    sender: UnboundedSender<FinishedSpan>,
}

impl SpanSender {
    /// Hands `span` to the channel without blocking, and says whether the
    /// channel took it. A span that the channel does not take is dropped.
    pub fn send(&self, span: FinishedSpan) -> bool {
        send(&self.sender, span)
    }
}

impl Clone for SpanSender {
    fn clone(&self) -> Self {
        SpanSender { sender: clone_sender(&self.sender) }
    }
}

/// The receiving end of a tracer's channel.
#[derive(Debug)]
pub struct SpanReceiver {
    receiver: UnboundedReceiver<FinishedSpan>,
}

impl SpanReceiver {
    /// The next finished span, if one is waiting. Never blocks.
    pub fn try_recv(&mut self) -> Option<FinishedSpan> {
        try_recv(&mut self.receiver)
    }

    /// The receiving end of the channel that this receiver holds.
    pub closed spec fn receiving_end(self) -> UnboundedReceiver<FinishedSpan> {
        self.receiver
    }

    /// Gives up the wrapper and returns the receiving end that it holds, for
    /// callers that want to await spans.
    pub fn into_inner(self) -> (r: UnboundedReceiver<FinishedSpan>)
        ensures
            r == self.receiving_end(),
    {
        self.receiver
    }
}

/// A new channel for finished spans.
pub fn span_channel() -> (SpanSender, SpanReceiver) {
    let (sender, receiver) = unbounded_channel();
    (SpanSender { sender }, SpanReceiver { receiver })
}

} // verus!
