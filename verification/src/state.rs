//! The frame state machine in memory.

use vstd::prelude::*;
use std::collections::VecDeque;
use crate::config::Config;
use crate::error::{BusErrorKind, TransmitError};
use crate::frame::{header_destination, Frame, MAX_FRAME_LEN};
use crate::machine::{
    Effect, Event, Machine, Outcome, RxModel, TxByte, TxModel, TxPhase, INBOUND_CAPACITY,
};

verus! {

/// The frame being received.
#[derive(Debug)]
struct RxState {
    buffer: Vec<u8>,
    accepted: bool,
}

/// The frame being sent and how far it got.
#[derive(Debug)]
struct TxState {
    frame: Frame,
    next: usize,
}

impl View for RxState {
    type V = RxModel;

    closed spec fn view(&self) -> RxModel {
        RxModel { bytes: self.buffer@, accepted: self.accepted }
    }
}

impl View for TxState {
    type V = TxModel;

    closed spec fn view(&self) -> TxModel {
        TxModel { frame: self.frame@, next: self.next as int }
    }
}

/// The state that the interrupt handler and the application share: the two
/// lanes, the queue of received frames, the last fault and the result of the
/// last transmit.
///
/// Its view is the `Machine` it stands for, which is always well formed.
#[derive(Debug)]
pub struct State {
    rx: Option<RxState>,
    tx: Option<TxState>,
    inbound: VecDeque<Frame>,
    last_error: Option<BusErrorKind>,
    completion: Option<Result<(), TransmitError>>,
}

impl View for State {
    type V = Machine;

    closed spec fn view(&self) -> Machine {
        Machine {
            rx: match self.rx {
                Some(rx) => Some(rx@),
                None => None,
            },
            tx: match self.tx {
                Some(tx) => Some(tx@),
                None => None,
            },
            inbound: self.inbound@.map_values(|frame: Frame| frame@),
            last_error: self.last_error,
            completion: self.completion,
        }
    }
}

impl State {
    #[verifier::type_invariant]
    spec fn inv(self) -> bool {
        self@.wf()
    }

    /// Both lanes idle, nothing queued, no fault and no result.
    pub fn new() -> (state: State)
        ensures
            state@ == Machine::initial(),
            state@.wf(),
    {
        let state = State {
            rx: None,
            tx: None,
            inbound: VecDeque::new(),
            last_error: None,
            completion: None,
        };
        assert(state@.inbound =~= Seq::empty());
        state
    }

    /// Tells whether neither lane holds a frame.
    pub fn is_idle(&self) -> (idle: bool)
        ensures
            idle == self@.is_idle(),
    {
        self.rx.is_none() && self.tx.is_none()
    }

    /// Tells whether a frame is being received.
    pub fn is_receiving(&self) -> (yes: bool)
        ensures
            yes == (self@.rx is Some),
    {
        self.rx.is_some()
    }

    /// Tells whether a transmit is in flight.
    pub fn is_transmitting(&self) -> (yes: bool)
        ensures
            yes == (self@.tx is Some),
    {
        self.tx.is_some()
    }

    /// How far the transmit in flight has got, if there is one.
    pub fn transmit_phase(&self) -> (phase: Option<TxPhase>)
        ensures
            phase == match self@.tx {
                Some(tx) => Some(tx.phase()),
                None => None,
            },
    {
        match &self.tx {
            Some(tx) => if tx.next <= 1 {
                Some(TxPhase::Waiting)
            } else {
                Some(TxPhase::InFlight)
            },
            None => None,
        }
    }

    /// The number of received frames that wait to be taken.
    pub fn pending(&self) -> (count: usize)
        ensures
            count == self@.inbound.len(),
            count <= INBOUND_CAPACITY,
    {
        proof {
            use_type_invariant(self);
        }
        self.inbound.len()
    }

    /// Takes one event from the bus.
    pub fn step(&mut self, config: &Config, event: Event) -> (effect: Effect)
        ensures
            old(self)@.wf(),
            final(self)@.wf(),
            final(self)@ == old(self)@.step(*config, event).0,
            effect == old(self)@.step(*config, event).1,
    {
        proof {
            use_type_invariant(&*self);
        }
        match event {
            Event::StartBit => {
                self.rx = Some(RxState { buffer: Vec::new(), accepted: false });
                Effect { outcome: Outcome::Nothing, send: None }
            },
            Event::ByteReceived(byte) => {
                let mut rx = match self.take_rx() {
                    Some(rx) => rx,
                    None => RxState { buffer: Vec::new(), accepted: false },
                };
                if rx.buffer.len() == 0 {
                    rx.accepted = config.accepts_destination(header_destination(byte));
                    rx.buffer.push(byte);
                } else if rx.buffer.len() < MAX_FRAME_LEN {
                    rx.buffer.push(byte);
                }
                self.rx = Some(rx);
                Effect { outcome: Outcome::Nothing, send: None }
            },
            Event::ReceiveComplete => {
                match self.take_rx() {
                    Some(rx) => {
                        if rx.buffer.len() > 0 && rx.accepted {
                            self.deliver(Frame { bytes: rx.buffer });
                            Effect { outcome: Outcome::FrameDelivered, send: None }
                        } else {
                            Effect { outcome: Outcome::FrameIgnored, send: None }
                        }
                    },
                    None => Effect { outcome: Outcome::Nothing, send: None },
                }
            },
            Event::TransmitByteRequest => {
                match self.take_tx() {
                    Some(mut tx) => {
                        if tx.next < tx.frame.bytes.len() {
                            let byte = tx.frame.bytes[tx.next];
                            tx.next = tx.next + 1;
                            let last = tx.next == tx.frame.bytes.len();
                            self.tx = Some(tx);
                            Effect { outcome: Outcome::Nothing, send: Some(TxByte { byte, last }) }
                        } else {
                            self.tx = Some(tx);
                            Effect { outcome: Outcome::Nothing, send: None }
                        }
                    },
                    None => Effect { outcome: Outcome::Nothing, send: None },
                }
            },
            Event::TransmitComplete => {
                match self.take_tx() {
                    Some(_) => {
                        self.completion = Some(Ok(()));
                        Effect { outcome: Outcome::TransmitDone, send: None }
                    },
                    None => Effect { outcome: Outcome::Nothing, send: None },
                }
            },
            Event::Fault(kind) => {
                self.last_error = Some(kind);
                if kind.is_receive() {
                    self.rx = None;
                    Effect { outcome: Outcome::ReceiveFailed(kind), send: None }
                } else {
                    match self.take_tx() {
                        Some(_) => {
                            self.completion = Some(Err(TransmitError::Bus(kind)));
                            Effect { outcome: Outcome::TransmitFailed(kind), send: None }
                        },
                        None => Effect { outcome: Outcome::Nothing, send: None },
                    }
                }
            },
        }
    }

    /// Takes a request to send `frame`. On success the frame is in flight and
    /// the answer is its first byte, to be handed to the transmitter.
    ///
    /// The request is refused, and nothing changes, with `InvalidFrame` if
    /// the frame is empty or too long, and else with `Busy` if a transmit is
    /// in flight. Accepting a request discards the result of an earlier
    /// transmit that nobody took.
    pub fn begin_transmit(&mut self, frame: Frame) -> (answer: Result<TxByte, TransmitError>)
        ensures
            old(self)@.wf(),
            final(self)@.wf(),
            final(self)@ == old(self)@.begin(frame@).0,
            answer == old(self)@.begin(frame@).1,
    {
        proof {
            use_type_invariant(&*self);
        }
        if !frame.is_valid() {
            return Err(TransmitError::InvalidFrame);
        }
        if self.tx.is_some() {
            return Err(TransmitError::Busy);
        }
        let byte = frame.bytes[0];
        let last = frame.bytes.len() == 1;
        self.completion = None;
        self.tx = Some(TxState { frame, next: 1 });
        Ok(TxByte { byte, last })
    }

    /// Clears both lanes. A frame being received is dropped; a transmit in
    /// flight ends with `Aborted`. The queue of received frames and the last
    /// fault stay.
    pub fn abort(&mut self)
        ensures
            old(self)@.wf(),
            final(self)@.wf(),
            final(self)@ == old(self)@.abort(),
    {
        proof {
            use_type_invariant(&*self);
        }
        self.rx = None;
        if self.tx.is_some() {
            self.tx = None;
            self.completion = Some(Err(TransmitError::Aborted));
        }
    }

    /// Takes the oldest received frame out of the queue, if there is one.
    pub fn receive(&mut self) -> (frame: Option<Frame>)
        ensures
            old(self)@.wf(),
            final(self)@.wf(),
            final(self)@ == old(self)@.dequeue().0,
            match frame {
                Some(f) => old(self)@.dequeue().1 == Some(f@) && crate::frame::frame_len_ok(f@),
                None => old(self)@.dequeue().1 is None,
            },
    {
        proof {
            use_type_invariant(&*self);
        }
        let mut inbound = VecDeque::new();
        core::mem::swap(&mut self.inbound, &mut inbound);
        let frame = inbound.pop_front();
        proof {
            let before = old(self)@.inbound;
            let shift: int = if frame is Some {
                1
            } else {
                0
            };
            assert forall|i: int| 0 <= i < inbound@.len() implies crate::frame::frame_len_ok(
                #[trigger] inbound@[i]@,
            ) by {
                assert(inbound@[i] == old(self).inbound@[i + shift]);
                assert(before[i + shift] == old(self).inbound@[i + shift]@);
            }
            if frame is Some {
                assert(before[0] == old(self).inbound@[0]@);
            }
        }
        self.inbound = inbound;
        assert(self@.inbound =~= old(self)@.dequeue().0.inbound);
        frame
    }

    /// Reads the last fault and forgets it.
    pub fn last_error(&mut self) -> (fault: Option<BusErrorKind>)
        ensures
            old(self)@.wf(),
            final(self)@.wf(),
            fault == old(self)@.last_error,
            final(self)@ == (Machine { last_error: None, ..old(self)@ }),
    {
        proof {
            use_type_invariant(&*self);
        }
        let fault = self.last_error;
        self.last_error = None;
        fault
    }

    /// Takes the result of the last transmit that ended, if it was not taken
    /// yet: `Ok` if the frame was sent, and else why it was not.
    pub fn transmit_result(&mut self) -> (result: Option<Result<(), TransmitError>>)
        ensures
            old(self)@.wf(),
            final(self)@.wf(),
            result == old(self)@.completion,
            final(self)@ == (Machine { completion: None, ..old(self)@ }),
    {
        proof {
            use_type_invariant(&*self);
        }
        let result = self.completion;
        self.completion = None;
        result
    }

    /// Empties the receive lane and hands out what it held.
    fn take_rx(&mut self) -> (rx: Option<RxState>)
        ensures
            rx == old(self).rx,
            final(self).rx is None,
            final(self).tx == old(self).tx,
            final(self).inbound == old(self).inbound,
            final(self).last_error == old(self).last_error,
            final(self).completion == old(self).completion,
    {
        proof {
            use_type_invariant(&*self);
        }
        let mut rx: Option<RxState> = None;
        core::mem::swap(&mut self.rx, &mut rx);
        rx
    }

    /// Empties the transmit lane and hands out what it held.
    fn take_tx(&mut self) -> (tx: Option<TxState>)
        ensures
            tx == old(self).tx,
            final(self).tx is None,
            final(self).rx == old(self).rx,
            final(self).inbound == old(self).inbound,
            final(self).last_error == old(self).last_error,
            final(self).completion == old(self).completion,
    {
        proof {
            use_type_invariant(&*self);
        }
        let mut tx: Option<TxState> = None;
        core::mem::swap(&mut self.tx, &mut tx);
        tx
    }

    /// Queues a received frame, dropping the oldest if the queue is full.
    fn deliver(&mut self, frame: Frame)
        requires
            crate::frame::frame_len_ok(frame@),
        ensures
            final(self)@ == (Machine {
                inbound: crate::machine::enqueue(old(self)@.inbound, frame@),
                ..old(self)@
            }),
    {
        proof {
            use_type_invariant(&*self);
        }
        let mut inbound = VecDeque::new();
        core::mem::swap(&mut self.inbound, &mut inbound);
        if inbound.len() >= INBOUND_CAPACITY {
            let _ = inbound.pop_front();
        }
        inbound.push_back(frame);
        proof {
            let before = old(self)@.inbound;
            let shift: int = if old(self).inbound@.len() >= INBOUND_CAPACITY {
                1
            } else {
                0
            };
            assert forall|i: int| 0 <= i < inbound@.len() implies crate::frame::frame_len_ok(
                #[trigger] inbound@[i]@,
            ) by {
                if i < inbound@.len() - 1 {
                    assert(inbound@[i] == old(self).inbound@[i + shift]);
                    assert(before[i + shift] == old(self).inbound@[i + shift]@);
                }
            }
        }
        self.inbound = inbound;
        assert(self@.inbound =~= crate::machine::enqueue(old(self)@.inbound, frame@));
    }
}

} // verus!
