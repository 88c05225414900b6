//! The serial session: lifecycle of the physical channel, command
//! transmission, the baud-rate reconfiguration sequence, and the ingestion
//! worker's step.
//!
//! The session owns no hardware.  Each lifecycle method returns the exact
//! actions the platform layer must perform on the physical channel, in
//! order, so the sequencing decisions are verified here while the raw
//! channel calls stay at the unverified edge.

use core::marker::PhantomData;

use vstd::prelude::*;

use crate::channel::{ByteChannel, ByteReceiver, ByteSender};
use crate::cmd::{baud_bps, command_from_code, command_wire, BaudRate, Command};
use crate::line::LineAssembler;
use crate::model::TelemetryModel;

verus! {

/// Phase of a serial link that has been acquired but not yet configured.
pub struct Uninitialized;

/// Phase of a configured serial link, able to transmit and receive.
pub struct Initialized;

/// Phase seen from the interrupt context while a received byte is pending.
pub struct Interrupted;

/// One step the platform layer must perform on the physical channel.
#[derive(Clone, Copy, Debug, PartialEq, Eq, Structural)]
pub enum SerialAction {
    /// Configure the channel at the given rate in bits per second.
    Init(u16),
    /// Begin asynchronous reception into the session's byte channel.
    StartRx,
    /// Stop asynchronous reception.
    StopRx,
    /// Deconfigure the channel.
    Deinit,
    /// Release the acquired channel.
    Release,
}

/// Receive-side event reported by the serial hardware.
#[derive(Clone, Copy, Debug, PartialEq, Eq, Structural)]
pub enum SerialRxEvent {
    /// A byte has been received.
    Data,
    /// The line went idle.
    Idle,
    /// A framing error was detected.
    FrameError,
    /// A noise error was detected.
    NoiseError,
    /// An overrun error was detected.
    OverrunError,
}

/// The hardware's bit encoding of a receive event; an unknown code decodes
/// to nothing rather than faulting.
pub open spec fn event_from_wire(raw: u8) -> Option<SerialRxEvent> {
    if raw == 1 {
        Some(SerialRxEvent::Data)
    } else if raw == 2 {
        Some(SerialRxEvent::Idle)
    } else if raw == 4 {
        Some(SerialRxEvent::FrameError)
    } else if raw == 8 {
        Some(SerialRxEvent::NoiseError)
    } else if raw == 16 {
        Some(SerialRxEvent::OverrunError)
    } else {
        None
    }
}

impl SerialRxEvent {
    /// Decode the hardware's event code; an unknown code yields `None`,
    /// never a panic.
    pub fn from_wire(raw: u8) -> (r: Option<SerialRxEvent>)
        ensures
            r == event_from_wire(raw),
    {
        if raw == 1 {
            Some(SerialRxEvent::Data)
        } else if raw == 2 {
            Some(SerialRxEvent::Idle)
        } else if raw == 4 {
            Some(SerialRxEvent::FrameError)
        } else if raw == 8 {
            Some(SerialRxEvent::NoiseError)
        } else if raw == 16 {
            Some(SerialRxEvent::OverrunError)
        } else {
            None
        }
    }
}

/// The protocol session over a physical serial channel, in the given
/// lifecycle phase.
pub struct Session<Phase> {
    baud: BaudRate,
    receiving: bool,
    phase: PhantomData<Phase>,
}

impl Session<Uninitialized> {
    /// A session over a freshly acquired, not yet configured channel.
    pub fn new() -> Session<Uninitialized> {
        Session { baud: BaudRate::Baud9600, receiving: false, phase: PhantomData }
    }

    /// Configure the channel at the given rate.  The returned actions are
    /// what the platform layer must perform, in order.
    pub fn init(self, baud: BaudRate) -> (r: (Session<Initialized>, Vec<SerialAction>))
        ensures
            r.0.baud() == baud,
            !r.0.is_receiving(),
            r.1@ == seq![SerialAction::Init(baud_bps(baud))],
    {
        let mut plan: Vec<SerialAction> = Vec::new();
        plan.push(SerialAction::Init(baud.rate()));
        proof {
            assert(plan@ =~= seq![SerialAction::Init(baud_bps(baud))]);
        }
        (Session { baud, receiving: false, phase: PhantomData }, plan)
    }
}

impl Session<Initialized> {
    /// The rate the channel is configured at.
    pub closed spec fn baud(&self) -> BaudRate {
        self.baud
    }

    /// Whether asynchronous reception is running.
    pub closed spec fn is_receiving(&self) -> bool {
        self.receiving
    }

    /// Begin asynchronous reception.  A fresh bounded byte channel is
    /// created: the producer handle goes to the interrupt callback, the
    /// consumer handle to the ingestion worker, and the returned actions
    /// start the hardware's reception.
    pub fn async_rx_start(&mut self, capacity: usize) -> (r: (
        ByteSender,
        ByteReceiver,
        Vec<SerialAction>,
    ))
        ensures
            final(self).baud() == old(self).baud(),
            final(self).is_receiving(),
            r.1.producer_alive(),
            r.2@ == seq![SerialAction::StartRx],
    {
        let (tx, rx) = ByteChannel::new(capacity);
        self.receiving = true;
        let mut plan: Vec<SerialAction> = Vec::new();
        plan.push(SerialAction::StartRx);
        proof {
            assert(plan@ =~= seq![SerialAction::StartRx]);
        }
        (tx, rx, plan)
    }

    /// Encode a command for synchronous transmission.  The returned bytes
    /// are exactly the command's wire encoding; the platform layer hands
    /// them to its blocking transmit, independent of the ingestion loop.
    pub fn send_command(&self, c: &Command) -> (r: Vec<u8>)
        ensures
            r@ == command_wire(*c),
    {
        c.cmd()
    }

    /// Encode the command a selection list refers to by its numeric
    /// identifier.  An unmapped identifier yields `None` and nothing is
    /// transmitted, never a panic.
    pub fn send_command_by_code(&self, code: u32) -> (r: Option<Vec<u8>>)
        ensures
            match command_from_code(code) {
                Some(c) => r is Some && r.unwrap()@ == command_wire(c),
                None => r is None,
            },
    {
        match Command::try_from_code(code) {
            Some(c) => Some(self.send_command(&c)),
            None => None,
        }
    }

    /// Switch the channel to a new rate: stop reception if it is running,
    /// reconfigure at the new rate, and restart reception if it was
    /// running.  The sequence is not atomic with respect to the physical
    /// link — bytes in flight during the switch are lost by design.
    pub fn reconfigure_baud(&mut self, rate: BaudRate) -> (r: Vec<SerialAction>)
        ensures
            final(self).baud() == rate,
            final(self).is_receiving() == old(self).is_receiving(),
            old(self).is_receiving() ==> r@ == seq![
                SerialAction::StopRx,
                SerialAction::Init(baud_bps(rate)),
                SerialAction::StartRx,
            ],
            !old(self).is_receiving() ==> r@ == seq![SerialAction::Init(baud_bps(rate))],
    {
        let mut plan: Vec<SerialAction> = Vec::new();
        if self.receiving {
            plan.push(SerialAction::StopRx);
        }
        plan.push(SerialAction::Init(rate.rate()));
        if self.receiving {
            plan.push(SerialAction::StartRx);
        }
        self.baud = rate;
        proof {
            if old(self).is_receiving() {
                assert(plan@ =~= seq![
                    SerialAction::StopRx,
                    SerialAction::Init(baud_bps(rate)),
                    SerialAction::StartRx,
                ]);
            } else {
                assert(plan@ =~= seq![SerialAction::Init(baud_bps(rate))]);
            }
        }
        plan
    }

    /// Tear the session down: stop reception, deconfigure and release the
    /// channel.  Dropping the producer handle afterwards lets the
    /// ingestion worker observe the producer gone and exit within one
    /// timeout tick.
    pub fn teardown(self) -> (r: Vec<SerialAction>)
        ensures
            r@ == seq![SerialAction::StopRx, SerialAction::Deinit, SerialAction::Release],
    {
        let mut plan: Vec<SerialAction> = Vec::new();
        plan.push(SerialAction::StopRx);
        plan.push(SerialAction::Deinit);
        plan.push(SerialAction::Release);
        proof {
            assert(plan@ =~= seq![
                SerialAction::StopRx,
                SerialAction::Deinit,
                SerialAction::Release,
            ]);
        }
        plan
    }
}

impl Session<Interrupted> {
    /// The interrupt-context work, constant-time and allocation-free: a
    /// data event forwards its pending byte into the channel, and every
    /// other or unknown event is ignored.  Returns whether the byte was
    /// handed to the channel.
    pub fn deliver(sender: &ByteSender, raw_event: u8, byte: u8) -> (delivered: bool)
        ensures
            delivered == (event_from_wire(raw_event) == Some(SerialRxEvent::Data)),
    {
        match SerialRxEvent::from_wire(raw_event) {
            Some(SerialRxEvent::Data) => {
                sender.send(byte);
                true
            },
            _ => false,
        }
    }
}

/// One tick of the ingestion worker: check producer liveness, wait briefly
/// for a byte, feed the line assembler, and commit a completed line to the
/// model.  Returns whether the worker should keep running; the driving
/// loop terminates once the producer side is gone, within one timeout
/// tick.
pub fn ingestion_step(
    rx: &mut ByteReceiver,
    assembler: &mut LineAssembler,
    model: &TelemetryModel,
    timeout_ms: u64,
) -> (keep_going: bool)
    requires
        old(assembler).wf(),
    ensures
        final(assembler).wf(),
        final(assembler).capacity() == old(assembler).capacity(),
        keep_going == old(rx).producer_alive(),
        final(rx).producer_alive() ==> old(rx).producer_alive(),
{
    if !rx.is_producer_alive() {
        return false;
    }
    match rx.recv_timeout(timeout_ms) {
        Some(b) => {
            if let Some(line) = assembler.push(b) {
                model.ingest(line.as_slice());
            }
        },
        None => {},
    }
    true
}

} // verus!
