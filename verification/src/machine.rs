//! The frame state machine.
//!
//! The machine has a receive lane and a transmit lane. Each is idle or holds
//! one frame in progress; the bus is half duplex, but a transmit that waits
//! for the line may overlap a reception. Bus events move the lanes, and the
//! results leave through three doors: a bounded queue of received frames, a
//! one-place slot for the result of the transmit in flight, and the last
//! fault seen.
//!
//! `Machine` is the mathematical state and `Machine::step` its transition
//! function. `State` is the same state in memory, and each of its
//! operations is proved to do what the model says.

use vstd::prelude::*;
use crate::config::Config;
use crate::error::{BusErrorKind, TransmitError};
use crate::frame::{destination_of, frame_len_ok, MAX_FRAME_LEN};

verus! {

/// How many received frames wait for the application at most. When one more
/// arrives, the oldest is dropped.
pub const INBOUND_CAPACITY: usize = 8;

/// What the bus can report.
#[derive(Clone, Copy, Debug, PartialEq, Eq, Structural)]
pub enum Event {
    /// The start bit of a frame was seen. The peripheral has no flag for
    /// it: on the hardware a frame starts with its first byte.
    StartBit,
    /// A byte was received.
    ByteReceived(u8),
    /// The frame being received is complete.
    ReceiveComplete,
    /// The transmitter wants the next byte.
    TransmitByteRequest,
    /// The frame being sent was sent and acknowledged.
    TransmitComplete,
    /// The bus reported a fault.
    Fault(BusErrorKind),
}

/// How an attempt to receive or to send a frame ended.
#[derive(Clone, Copy, Debug, PartialEq, Eq, Structural)]
pub enum Outcome {
    /// No attempt ended.
    Nothing,
    /// A frame for this device was received and queued.
    FrameDelivered,
    /// A frame was received that is not for this device; it was dropped.
    FrameIgnored,
    /// The frame being received was dropped because of a fault.
    ReceiveFailed(BusErrorKind),
    /// The frame in flight was sent.
    TransmitDone,
    /// The frame in flight was given up because of a fault.
    TransmitFailed(BusErrorKind),
}

/// A byte for the transmit data register.
#[derive(Clone, Copy, Debug, PartialEq, Eq, Structural)]
pub struct TxByte {
    /// The byte to send.
    pub byte: u8,
    /// Whether it is the last byte of its frame.
    pub last: bool,
}

/// What one event brought about besides the change of state.
#[derive(Clone, Copy, Debug, PartialEq, Eq, Structural)]
pub struct Effect {
    /// The attempt that ended with this event, if one did.
    pub outcome: Outcome,
    /// The byte to hand to the transmitter, if it asked for one.
    pub send: Option<TxByte>,
}

/// A frame being received.
pub struct RxModel {
    /// The bytes received so far, header first.
    pub bytes: Seq<u8>,
    /// Whether the header names a destination that this device accepts.
    /// Without a header it is `false`.
    pub accepted: bool,
}

/// How far a transmit has got, as far as the driver can tell.
#[derive(Clone, Copy, Debug, PartialEq, Eq, Structural)]
pub enum TxPhase {
    /// The first byte was handed over and the transmitter has not asked for
    /// another: the peripheral waits for the line to be free, or sends the
    /// header.
    Waiting,
    /// The transmitter has asked for a further byte: the frame is on the
    /// line.
    InFlight,
}

/// A frame being sent.
pub struct TxModel {
    /// The bytes of the frame.
    pub frame: Seq<u8>,
    /// How many of them were handed to the transmitter.
    pub next: int,
}

/// The state of the frame state machine.
pub struct Machine {
    /// The receive lane.
    pub rx: Option<RxModel>,
    /// The transmit lane.
    pub tx: Option<TxModel>,
    /// The frames received and not yet taken, oldest first.
    pub inbound: Seq<Seq<u8>>,
    /// The last fault, until it is read.
    pub last_error: Option<BusErrorKind>,
    /// The result of the last transmit that ended, until it is taken.
    pub completion: Option<Result<(), TransmitError>>,
}

impl TxModel {
    /// How far the transmit has got.
    pub open spec fn phase(self) -> TxPhase {
        if self.next <= 1 {
            TxPhase::Waiting
        } else {
            TxPhase::InFlight
        }
    }
}

/// The effect of an event that ends nothing and sends nothing.
pub open spec fn quiet() -> Effect {
    Effect { outcome: Outcome::Nothing, send: None }
}

/// The effect of an event that ends an attempt.
pub open spec fn concluded(outcome: Outcome) -> Effect {
    Effect { outcome, send: None }
}

/// The queue after `frame` was added at its end: the oldest frame leaves if
/// the queue was full.
pub open spec fn enqueue(inbound: Seq<Seq<u8>>, frame: Seq<u8>) -> Seq<Seq<u8>> {
    if inbound.len() >= INBOUND_CAPACITY {
        inbound.drop_first().push(frame)
    } else {
        inbound.push(frame)
    }
}

/// The frame in progress after one more byte. The first byte is the header
/// and decides whether the frame is accepted; a byte beyond the longest
/// frame is dropped.
pub open spec fn appended(rx: Option<RxModel>, config: Config, byte: u8) -> RxModel {
    let bytes = match rx {
        Some(r) => r.bytes,
        None => Seq::empty(),
    };
    let accepted = match rx {
        Some(r) => r.accepted,
        None => false,
    };
    if bytes.len() == 0 {
        RxModel { bytes: bytes.push(byte), accepted: config.accepts(destination_of(byte)) }
    } else if bytes.len() < MAX_FRAME_LEN {
        RxModel { bytes: bytes.push(byte), accepted }
    } else {
        RxModel { bytes, accepted }
    }
}

impl Machine {
    /// Frames in progress and frames queued fit the bus, the queue fits its
    /// capacity, and a frame in flight has had its first byte handed over.
    pub open spec fn wf(self) -> bool {
        &&& (self.rx matches Some(rx) ==> rx.bytes.len() <= MAX_FRAME_LEN)
        &&& (self.tx matches Some(tx) ==> frame_len_ok(tx.frame) && 1 <= tx.next <= tx.frame.len())
        &&& self.inbound.len() <= INBOUND_CAPACITY
        &&& forall|i: int| 0 <= i < self.inbound.len() ==> frame_len_ok(#[trigger] self.inbound[i])
    }

    /// The state after power up: both lanes idle, nothing queued, no fault,
    /// no result.
    pub open spec fn initial() -> Machine {
        Machine { rx: None, tx: None, inbound: Seq::empty(), last_error: None, completion: None }
    }

    /// Neither lane holds a frame.
    pub open spec fn is_idle(self) -> bool {
        self.rx is None && self.tx is None
    }

    /// The state after an event, and what the event brought about.
    pub open spec fn step(self, config: Config, event: Event) -> (Machine, Effect) {
        match event {
            Event::StartBit => (
                Machine { rx: Some(RxModel { bytes: Seq::empty(), accepted: false }), ..self },
                quiet(),
            ),
            Event::ByteReceived(byte) => (
                Machine { rx: Some(appended(self.rx, config, byte)), ..self },
                quiet(),
            ),
            Event::ReceiveComplete => match self.rx {
                Some(rx) => if rx.bytes.len() > 0 && rx.accepted {
                    (
                        Machine { rx: None, inbound: enqueue(self.inbound, rx.bytes), ..self },
                        concluded(Outcome::FrameDelivered),
                    )
                } else {
                    (Machine { rx: None, ..self }, concluded(Outcome::FrameIgnored))
                },
                None => (self, quiet()),
            },
            Event::TransmitByteRequest => match self.tx {
                Some(tx) => if tx.next < tx.frame.len() {
                    (
                        Machine { tx: Some(TxModel { frame: tx.frame, next: tx.next + 1 }), ..self },
                        Effect {
                            outcome: Outcome::Nothing,
                            send: Some(
                                TxByte {
                                    byte: tx.frame[tx.next],
                                    last: tx.next + 1 == tx.frame.len(),
                                },
                            ),
                        },
                    )
                } else {
                    (self, quiet())
                },
                None => (self, quiet()),
            },
            Event::TransmitComplete => match self.tx {
                Some(tx) => (
                    Machine { tx: None, completion: Some(Ok(())), ..self },
                    concluded(Outcome::TransmitDone),
                ),
                None => (self, quiet()),
            },
            Event::Fault(kind) => if kind.receive_class() {
                (
                    Machine { rx: None, last_error: Some(kind), ..self },
                    concluded(Outcome::ReceiveFailed(kind)),
                )
            } else {
                match self.tx {
                    Some(tx) => (
                        Machine {
                            tx: None,
                            last_error: Some(kind),
                            completion: Some(Err(TransmitError::Bus(kind))),
                            ..self
                        },
                        concluded(Outcome::TransmitFailed(kind)),
                    ),
                    None => (Machine { last_error: Some(kind), ..self }, quiet()),
                }
            },
        }
    }

    /// The state after a sequence of events, taken in order.
    pub open spec fn run(self, config: Config, events: Seq<Event>) -> Machine
        decreases events.len(),
    {
        if events.len() == 0 {
            self
        } else {
            self.run(config, events.drop_last()).step(config, events.last()).0
        }
    }

    /// The effects of a sequence of events, one for each event.
    pub open spec fn trace(self, config: Config, events: Seq<Event>) -> Seq<Effect>
        decreases events.len(),
    {
        if events.len() == 0 {
            Seq::empty()
        } else {
            self.trace(config, events.drop_last()).push(
                self.run(config, events.drop_last()).step(config, events.last()).1,
            )
        }
    }

    /// The state after a request to send `frame`, and the answer: the first
    /// byte for the transmitter, or why the frame was refused. A refusal
    /// changes nothing.
    pub open spec fn begin(self, frame: Seq<u8>) -> (Machine, Result<TxByte, TransmitError>) {
        if !frame_len_ok(frame) {
            (self, Err(TransmitError::InvalidFrame))
        } else if self.tx is Some {
            (self, Err(TransmitError::Busy))
        } else {
            (
                Machine { tx: Some(TxModel { frame, next: 1 }), completion: None, ..self },
                Ok(TxByte { byte: frame[0], last: frame.len() == 1 }),
            )
        }
    }

    /// The state after both lanes were cleared: a frame being received is
    /// dropped, and a transmit in flight ends as aborted.
    pub open spec fn abort(self) -> Machine {
        Machine {
            rx: None,
            tx: None,
            completion: if self.tx is Some {
                Some(Err(TransmitError::Aborted))
            } else {
                self.completion
            },
            ..self
        }
    }

    /// The state after the oldest queued frame was taken, and that frame.
    pub open spec fn dequeue(self) -> (Machine, Option<Seq<u8>>) {
        if self.inbound.len() > 0 {
            (Machine { inbound: self.inbound.drop_first(), ..self }, Some(self.inbound[0]))
        } else {
            (self, None)
        }
    }
}

/// Running one more event is one more step, and one more effect.
pub proof fn run_push(machine: Machine, config: Config, events: Seq<Event>, event: Event)
    ensures
        machine.run(config, events.push(event)) == machine.run(config, events).step(
            config,
            event,
        ).0,
        machine.trace(config, events.push(event)) == machine.trace(config, events).push(
            machine.run(config, events).step(config, event).1,
        ),
{
    assert(events.push(event).drop_last() =~= events);
}

/// Running two sequences one after the other is running their
/// concatenation: it makes no difference in how many batches the events of
/// the bus are handled, as long as their order is kept.
pub proof fn run_concat(machine: Machine, config: Config, first: Seq<Event>, second: Seq<Event>)
    ensures
        machine.run(config, first + second) == machine.run(config, first).run(config, second),
        machine.trace(config, first + second) == machine.trace(config, first) + machine.run(
            config,
            first,
        ).trace(config, second),
    decreases second.len(),
{
    if second.len() == 0 {
        assert(first + second =~= first);
        assert(machine.trace(config, first) + Seq::<Effect>::empty() =~= machine.trace(
            config,
            first,
        ));
    } else {
        run_concat(machine, config, first, second.drop_last());
        assert((first + second).drop_last() =~= first + second.drop_last());
        assert(machine.trace(config, first + second) =~= machine.trace(config, first)
            + machine.run(config, first).trace(config, second));
    }
}

/// A step keeps a well-formed machine well formed.
pub proof fn step_keeps_wf(machine: Machine, config: Config, event: Event)
    requires
        machine.wf(),
    ensures
        machine.step(config, event).0.wf(),
{
    let after = machine.step(config, event).0;
    match event {
        Event::ReceiveComplete => {
            if let Some(rx) = machine.rx {
                if rx.bytes.len() > 0 && rx.accepted {
                    let queue = enqueue(machine.inbound, rx.bytes);
                    assert forall|i: int| 0 <= i < queue.len() implies frame_len_ok(
                        #[trigger] queue[i],
                    ) by {
                        if i < queue.len() - 1 {
                            if machine.inbound.len() >= INBOUND_CAPACITY {
                                assert(queue[i] == machine.inbound[i + 1]);
                            } else {
                                assert(queue[i] == machine.inbound[i]);
                            }
                        }
                    }
                }
            }
        },
        _ => {},
    }
}

/// A run keeps a well-formed machine well formed.
pub proof fn run_keeps_wf(machine: Machine, config: Config, events: Seq<Event>)
    requires
        machine.wf(),
    ensures
        machine.run(config, events).wf(),
    decreases events.len(),
{
    if events.len() > 0 {
        run_keeps_wf(machine, config, events.drop_last());
        step_keeps_wf(machine.run(config, events.drop_last()), config, events.last());
    }
}

} // verus!
