//! Bounded single-producer/single-consumer byte hand-off.
//!
//! The producer side runs in an interrupt-style context: a send is O(1),
//! never blocks, and silently drops the byte when the channel is full — the
//! physical link has no backpressure, so bounded loss is the documented
//! policy, not an error.  The consumer side may wait with a bounded timeout
//! and can detect that the producer is gone, so its loop always terminates
//! instead of blocking forever.

use vstd::prelude::*;

verus! {

/// Outcome of one bounded wait on the consumer side.
enum RecvOutcome {
    Byte(u8),
    TimedOut,
    Disconnected,
}

/// Declares std::sync::mpsc::SyncSender, the sending half of a bounded
/// channel, so it can stand in a field; the value is opaque here.
#[verifier::external_type_specification]
#[verifier::external_body]
#[verifier::reject_recursive_types(T)]
pub struct ExSyncSender<T>(std::sync::mpsc::SyncSender<T>);

/// Declares std::sync::mpsc::Receiver, the receiving half of a channel, so
/// it can stand in a field; the value is opaque here.
#[verifier::external_type_specification]
#[verifier::external_body]
#[verifier::reject_recursive_types(T)]
pub struct ExReceiver<T>(std::sync::mpsc::Receiver<T>);

/// Relies on core::time::Duration::from_millis only to build the timeout
/// value handed on; nothing is claimed of the result.
pub assume_specification [ core::time::Duration::from_millis ](millis: u64) -> core::time::Duration;

/// Relies on std::sync::mpsc::sync_channel: a bounded queue delivering
/// bytes in first-in, first-out order, whose receiving end reports
/// disconnection once every sender is dropped and the queue is drained.
#[verifier::external_body]
fn channel_pair(capacity: usize) -> (std::sync::mpsc::SyncSender<u8>, std::sync::mpsc::Receiver<
    u8,
>) {
    std::sync::mpsc::sync_channel(capacity)
}

/// Relies on std::sync::mpsc::SyncSender::try_send: it never blocks, and on
/// a full channel or a gone consumer the byte is dropped.
#[verifier::external_body]
fn try_send_byte(tx: &std::sync::mpsc::SyncSender<u8>, byte: u8) {
    let _ = tx.try_send(byte);
}

/// Relies on std::sync::mpsc::Receiver::recv_timeout: it waits at most the
/// given timeout, and reports disconnection only once every sender has been
/// dropped and the queue is empty.
#[verifier::external_body]
fn recv_byte(rx: &std::sync::mpsc::Receiver<u8>, timeout: core::time::Duration) -> RecvOutcome {
    match rx.recv_timeout(timeout) {
        Ok(b) => RecvOutcome::Byte(b),
        Err(std::sync::mpsc::RecvTimeoutError::Timeout) => RecvOutcome::TimedOut,
        Err(std::sync::mpsc::RecvTimeoutError::Disconnected) => RecvOutcome::Disconnected,
    }
}

/// The producer handle, held by the interrupt-context byte source.
pub struct ByteSender {
    tx: std::sync::mpsc::SyncSender<u8>,
}

/// The consumer handle, held by the ingestion worker.
pub struct ByteReceiver {
    rx: std::sync::mpsc::Receiver<u8>,
    alive: bool,
}

/// A bounded byte channel, created once per session with a fixed capacity.
pub struct ByteChannel;

impl ByteChannel {
    /// A fresh channel holding at most `capacity` bytes, as its producer
    /// and consumer handles.  The two handles may outlive one another; the
    /// consumer observes the producer as alive until it has seen the
    /// producer gone.
    pub fn new(capacity: usize) -> (r: (ByteSender, ByteReceiver))
        ensures
            r.1.producer_alive(),
    {
        let (tx, rx) = channel_pair(capacity);
        (ByteSender { tx }, ByteReceiver { rx, alive: true })
    }
}

impl ByteSender {
    /// Non-blocking send from the interrupt context.  On a full channel the
    /// byte is silently dropped: the link is lossy by design and the
    /// producer must never block.
    pub fn send(&self, byte: u8) {
        try_send_byte(&self.tx, byte)
    }
}

impl ByteReceiver {
    /// Whether the producer side has not yet been observed gone.  Once
    /// false it stays false, so the ingestion loop exits cleanly.
    pub closed spec fn producer_alive(&self) -> bool {
        self.alive
    }

    /// Whether the producer side is still alive, as last observed.
    pub fn is_producer_alive(&self) -> (r: bool)
        ensures
            r == self.producer_alive(),
    {
        self.alive
    }

    /// Waits up to `timeout_ms` milliseconds for one byte.  `None` means a
    /// timeout or a gone producer, letting the worker re-check liveness
    /// periodically instead of blocking forever; observing the producer
    /// gone flips the liveness flag, and the flag never comes back: once
    /// the producer is gone no byte is ever returned again.
    pub fn recv_timeout(&mut self, timeout_ms: u64) -> (r: Option<u8>)
        ensures
            final(self).producer_alive() ==> old(self).producer_alive(),
            r is Some ==> final(self).producer_alive() == old(self).producer_alive(),
            !old(self).producer_alive() ==> r is None && !final(self).producer_alive(),
    {
        if !self.alive {
            return None;
        }
        let timeout = core::time::Duration::from_millis(timeout_ms);
        match recv_byte(&self.rx, timeout) {
            RecvOutcome::Byte(b) => Some(b),
            RecvOutcome::TimedOut => None,
            RecvOutcome::Disconnected => {
                self.alive = false;
                None
            },
        }
    }
}

} // verus!
