//! The driver: arming, the interrupt handler and the application's calls.
//!
//! `Cec` keeps the configuration, whether the bus is armed, and the frame
//! state machine. It never touches the peripheral. What it reads from the
//! hardware it takes as arguments, and what it wants written it returns as a
//! list of register writes, to be performed in order.
//!
//! `Controller` is the same driver as a mathematical value. Each operation
//! of `Cec` is specified by the function of the same name on `Controller`.

use vstd::prelude::*;
use crate::classify::{classify, events_of};
use crate::config::{Config, Tolerance};
use crate::error::{ArmError, BusErrorKind, TransmitError};
use crate::frame::{frame_len_ok, Frame};
use crate::machine::{Effect, Event, Machine, Outcome, TxByte, TxPhase, INBOUND_CAPACITY};
use crate::registers::{Cfgr, Cr, Ier, Isr, Register, RegisterWrite, ALL_FLAGS};
use crate::state::State;

verus! {

/// One register write.
pub open spec fn store(register: Register, value: u32) -> RegisterWrite {
    RegisterWrite { register, value }
}

/// The configuration word for a configuration.
///
/// `SFT` is worth 1, `RXTOL` 8, `BRESTP` 16, `SFTOPT` 256, `OAR` 65536 and
/// `LSTN` 2^31. A bit rising error always stops the reception, and no error
/// bit is ever put on the line for a faulty bit: of the policy bits only
/// `BRESTP` is set.
pub open spec fn cfgr_word(config: Config) -> u32 {
    (config.signal_free_time.code() + (if config.tolerance == Tolerance::Extended {
        8int
    } else {
        0int
    }) + 16 + (if config.sft_from_request {
        256int
    } else {
        0int
    }) + 65536 * config.address_mask() + (if config.listen {
        0x8000_0000int
    } else {
        0int
    })) as u32
}

/// The writes that arm a disabled peripheral: the configuration first, then
/// every interrupt source, and the enable bit last.
pub open spec fn arm_writes(config: Config) -> Seq<RegisterWrite> {
    seq![
        store(Register::Cfgr, cfgr_word(config)),
        store(Register::Ier, ALL_FLAGS),
        store(Register::Cr, Cr::word(true, false, false)),
    ]
}

/// The writes that disarm the peripheral: the enable bit is cleared, then
/// every interrupt source is masked.
pub open spec fn disarm_writes() -> Seq<RegisterWrite> {
    seq![store(Register::Cr, 0), store(Register::Ier, 0)]
}

/// The writes that hand one byte to the transmitter. The end of the message
/// is announced before its last byte is written.
pub open spec fn send_writes(send: Option<TxByte>) -> Seq<RegisterWrite> {
    match send {
        Some(tx) => if tx.last {
            seq![
                store(Register::Cr, Cr::word(true, false, true)),
                store(Register::Txdr, tx.byte as u32),
            ]
        } else {
            seq![store(Register::Txdr, tx.byte as u32)]
        },
        None => Seq::empty(),
    }
}

/// The writes that start a message: its first byte is handed over, then the
/// start is requested. The peripheral starts to send when the line is free.
pub open spec fn start_writes(first: TxByte) -> Seq<RegisterWrite> {
    send_writes(Some(first)).push(store(Register::Cr, Cr::word(true, true, false)))
}

/// The writes that a run of effects asks for, in order.
pub open spec fn trace_writes(trace: Seq<Effect>) -> Seq<RegisterWrite>
    decreases trace.len(),
{
    if trace.len() == 0 {
        Seq::empty()
    } else {
        trace_writes(trace.drop_last()) + send_writes(trace.last().send)
    }
}

/// The outcomes of a run of effects, one for each.
pub open spec fn trace_outcomes(trace: Seq<Effect>) -> Seq<Outcome> {
    trace.map_values(|effect: Effect| effect.outcome)
}

/// The write that clears the flags that were read, if any was set.
pub open spec fn acknowledge(isr: Isr) -> Seq<RegisterWrite> {
    if isr.flags() != 0 {
        seq![store(Register::Isr, isr.flags())]
    } else {
        Seq::empty()
    }
}

/// The driver as a value.
pub struct Controller {
    /// Whether the bus is armed.
    pub armed: bool,
    /// The configuration that was armed last.
    pub config: Config,
    /// The frame state machine.
    pub machine: Machine,
}

/// What a call of the interrupt handler gives back, as a value.
pub struct Service {
    /// The register writes to perform, in order.
    pub writes: Seq<RegisterWrite>,
    /// The outcome of each event that was handled, in order.
    pub outcomes: Seq<Outcome>,
}

impl Controller {
    /// The state machine is well formed, and both lanes are idle while the
    /// bus is not armed.
    pub open spec fn wf(self) -> bool {
        &&& self.machine.wf()
        &&& (self.armed ==> self.config.valid())
        &&& (!self.armed ==> self.machine.is_idle())
    }

    /// Arming with `config`: refused, with nothing changed, if the
    /// configuration is not valid. Else both lanes are cleared and the
    /// peripheral is programmed; if the bus was armed it is disarmed first.
    pub open spec fn arm(self, config: Config) -> (Controller, Result<Seq<RegisterWrite>, ArmError>) {
        if !config.valid() {
            (self, Err(ArmError::ConfigurationInvalid))
        } else {
            (
                Controller { armed: true, config, machine: self.machine.abort() },
                Ok(
                    if self.armed {
                        disarm_writes() + arm_writes(config)
                    } else {
                        arm_writes(config)
                    },
                ),
            )
        }
    }

    /// Disarming: both lanes are cleared and the peripheral is switched off.
    pub open spec fn disarm(self) -> (Controller, Seq<RegisterWrite>) {
        (Controller { armed: false, machine: self.machine.abort(), ..self }, disarm_writes())
    }

    /// The events that a call of the interrupt handler handles: those of
    /// the status word while the bus is armed, and else none.
    pub open spec fn pending_events(self, isr: Isr, rx_data: u8) -> Seq<Event> {
        if self.armed {
            events_of(isr, rx_data)
        } else {
            Seq::empty()
        }
    }

    /// One call of the interrupt handler: the flags that were read are
    /// cleared, and the events they stand for are run through the state
    /// machine.
    pub open spec fn poll(self, isr: Isr, rx_data: u8) -> (Controller, Service) {
        let events = self.pending_events(isr, rx_data);
        let trace = self.machine.trace(self.config, events);
        (
            Controller { machine: self.machine.run(self.config, events), ..self },
            Service {
                writes: acknowledge(isr) + trace_writes(trace),
                outcomes: trace_outcomes(trace),
            },
        )
    }

    /// A request to send `frame`: refused, with nothing changed, if the
    /// frame is not valid, else if the bus is not armed, else if a transmit
    /// is in flight.
    pub open spec fn transmit(self, frame: Seq<u8>) -> (
        Controller,
        Result<Seq<RegisterWrite>, TransmitError>,
    ) {
        if !frame_len_ok(frame) {
            (self, Err(TransmitError::InvalidFrame))
        } else if !self.armed {
            (self, Err(TransmitError::Aborted))
        } else {
            match self.machine.begin(frame).1 {
                Ok(first) => (
                    Controller { machine: self.machine.begin(frame).0, ..self },
                    Ok(start_writes(first)),
                ),
                Err(error) => (self, Err(error)),
            }
        }
    }
}

/// Computes the configuration word for a configuration.
pub fn configuration_word(config: &Config) -> (cfgr: Cfgr)
    ensures
        cfgr.0 == cfgr_word(*config),
{
    let sft = config.signal_free_time.field();
    let extended = match config.tolerance {
        Tolerance::Standard => false,
        Tolerance::Extended => true,
    };
    let oar = config.own_address_mask();
    let mut cfgr = Cfgr(0);
    cfgr.set_sft(sft);
    cfgr.set_rxtol(extended);
    cfgr.set_brestp(true);
    cfgr.set_bregen(false);
    cfgr.set_lbpegen(false);
    cfgr.set_brdnogen(false);
    cfgr.set_sftopt(config.sft_from_request);
    cfgr.set_oar(oar);
    cfgr.set_lstn(config.listen);
    proof {
        let s = sft as u32;
        let t: u32 = if extended {
            1
        } else {
            0
        };
        let o: u32 = if config.sft_from_request {
            1
        } else {
            0
        };
        let a = oar as u32;
        let l: u32 = if config.listen {
            1
        } else {
            0
        };
        let w1: u32 = (0u32 & !(0x07u32 << 0u32)) | ((s & 0x07) << 0u32);
        let w2: u32 = (w1 & !(1u32 << 3u32)) | (t << 3u32);
        let w3: u32 = (w2 & !(1u32 << 4u32)) | (1u32 << 4u32);
        let w4: u32 = (w3 & !(1u32 << 5u32)) | (0u32 << 5u32);
        let w5: u32 = (w4 & !(1u32 << 6u32)) | (0u32 << 6u32);
        let w6: u32 = (w5 & !(1u32 << 7u32)) | (0u32 << 7u32);
        let w7: u32 = (w6 & !(1u32 << 8u32)) | (o << 8u32);
        let w8: u32 = (w7 & !(0x7fffu32 << 16u32)) | ((a & 0x7fff) << 16u32);
        let w9: u32 = (w8 & !(1u32 << 31u32)) | (l << 31u32);
        assert(cfgr.0 == w9);
        assert(w9 == s + 8 * t + 16 + 256 * o + 65536 * a + 0x8000_0000 * l) by (bit_vector)
            requires
                s <= 7,
                t <= 1,
                o <= 1,
                a <= 0x7fff,
                l <= 1,
                w1 == (0u32 & !(0x07u32 << 0u32)) | ((s & 0x07) << 0u32),
                w2 == (w1 & !(1u32 << 3u32)) | (t << 3u32),
                w3 == (w2 & !(1u32 << 4u32)) | (1u32 << 4u32),
                w4 == (w3 & !(1u32 << 5u32)) | (0u32 << 5u32),
                w5 == (w4 & !(1u32 << 6u32)) | (0u32 << 6u32),
                w6 == (w5 & !(1u32 << 7u32)) | (0u32 << 7u32),
                w7 == (w6 & !(1u32 << 8u32)) | (o << 8u32),
                w8 == (w7 & !(0x7fffu32 << 16u32)) | ((a & 0x7fff) << 16u32),
                w9 == (w8 & !(1u32 << 31u32)) | (l << 31u32),
        ;
    }
    cfgr
}

/// What a call of the interrupt handler gives back.
#[derive(Debug)]
pub struct Serviced {
    /// The register writes to perform, in order.
    pub writes: Vec<RegisterWrite>,
    /// The outcome of each event that was handled, in order.
    pub outcomes: Vec<Outcome>,
}

impl View for Serviced {
    type V = Service;

    open spec fn view(&self) -> Service {
        Service { writes: self.writes@, outcomes: self.outcomes@ }
    }
}

/// CEC driver.
#[derive(Debug)]
pub struct Cec {
    config: Config,
    armed: bool,
    state: State,
}

impl View for Cec {
    type V = Controller;

    closed spec fn view(&self) -> Controller {
        Controller { armed: self.armed, config: self.config, machine: self.state@ }
    }
}

impl Cec {
    #[verifier::type_invariant]
    spec fn inv(self) -> bool {
        self@.wf()
    }

    /// Creates the driver and arms the bus with `config`.
    ///
    /// The peripheral must be clocked, reset and wired to its pin, and its
    /// interrupt must stay masked until the writes that are returned have
    /// been performed. A configuration that is not valid is refused.
    pub fn new(config: Config) -> (armed: Result<(Cec, Vec<RegisterWrite>), ArmError>)
        ensures
            match armed {
                Ok(pair) => {
                    &&& config.valid()
                    &&& pair.0@.wf()
                    &&& pair.0@ == (Controller {
                        armed: true,
                        config,
                        machine: Machine::initial(),
                    })
                    &&& pair.1@ == arm_writes(config)
                },
                Err(error) => !config.valid() && error == ArmError::ConfigurationInvalid,
            },
    {
        let mut cec = Cec { config, armed: false, state: State::new() };
        match cec.arm(config) {
            Ok(writes) => Ok((cec, writes)),
            Err(error) => Err(error),
        }
    }

    /// Tells whether the bus is armed.
    pub fn is_armed(&self) -> (armed: bool)
        ensures
            armed == self@.armed,
    {
        self.armed
    }

    /// The configuration that was armed last.
    pub fn config(&self) -> (config: Config)
        ensures
            config == self@.config,
    {
        self.config
    }

    /// Tells whether neither lane holds a frame.
    pub fn is_idle(&self) -> (idle: bool)
        ensures
            idle == self@.machine.is_idle(),
    {
        self.state.is_idle()
    }

    /// Tells whether a frame is being received.
    pub fn is_receiving(&self) -> (yes: bool)
        ensures
            yes == (self@.machine.rx is Some),
    {
        self.state.is_receiving()
    }

    /// Tells whether a transmit is in flight.
    pub fn is_transmitting(&self) -> (yes: bool)
        ensures
            yes == (self@.machine.tx is Some),
    {
        self.state.is_transmitting()
    }

    /// How far the transmit in flight has got, if there is one.
    pub fn transmit_phase(&self) -> (phase: Option<TxPhase>)
        ensures
            phase == match self@.machine.tx {
                Some(tx) => Some(tx.phase()),
                None => None,
            },
    {
        self.state.transmit_phase()
    }

    /// The number of received frames that wait to be taken.
    pub fn pending(&self) -> (count: usize)
        ensures
            count == self@.machine.inbound.len(),
            count <= INBOUND_CAPACITY,
    {
        self.state.pending()
    }

    /// Moves the state machine out and leaves an idle one in its place.
    fn take_state(&mut self) -> (state: State)
        ensures
            state@ == old(self).state@,
            state@.wf(),
            final(self).state@ == Machine::initial(),
            final(self).armed == old(self).armed,
            final(self).config == old(self).config,
    {
        proof {
            use_type_invariant(&*self);
        }
        let mut state = State::new();
        core::mem::swap(&mut self.state, &mut state);
        state
    }

    /// Arms the bus with `config`.
    ///
    /// A configuration that is not valid is refused with
    /// `ConfigurationInvalid`, and nothing changes. Else the driver takes
    /// the configuration, both lanes are idle, and the writes returned
    /// program the peripheral: the configuration word, the interrupt
    /// enables, and the enable bit last. If the bus was armed, it is
    /// disarmed first: a transmit in flight ends with `Aborted`, and the
    /// writes start with those of `disarm`.
    pub fn arm(&mut self, config: Config) -> (writes: Result<Vec<RegisterWrite>, ArmError>)
        ensures
            old(self)@.wf(),
            final(self)@.wf(),
            final(self)@ == old(self)@.arm(config).0,
            match writes {
                Ok(list) => old(self)@.arm(config).1 == Ok::<Seq<RegisterWrite>, ArmError>(list@),
                Err(error) => old(self)@.arm(config).1 == Err::<Seq<RegisterWrite>, ArmError>(
                    error,
                ),
            },
    {
        proof {
            use_type_invariant(&*self);
        }
        if !config.is_valid() {
            return Err(ArmError::ConfigurationInvalid);
        }
        let mut writes: Vec<RegisterWrite> = Vec::new();
        if self.armed {
            writes.push(RegisterWrite { register: Register::Cr, value: Cr::with(false, false, false).0 });
            writes.push(RegisterWrite { register: Register::Ier, value: Ier::none().0 });
        }
        writes.push(RegisterWrite { register: Register::Cfgr, value: configuration_word(&config).0 });
        writes.push(RegisterWrite { register: Register::Ier, value: Ier::all().0 });
        writes.push(RegisterWrite { register: Register::Cr, value: Cr::with(true, false, false).0 });
        let mut state = self.take_state();
        state.abort();
        self.config = config;
        self.armed = true;
        self.state = state;
        assert(writes@ =~= if old(self)@.armed {
            disarm_writes() + arm_writes(config)
        } else {
            arm_writes(config)
        });
        Ok(writes)
    }

    /// Disarms the bus.
    ///
    /// Both lanes are cleared: a frame being received is dropped and a
    /// transmit in flight ends with `Aborted`. The writes returned clear
    /// the enable bit and mask every interrupt source. The frames already
    /// received, the last fault and the configuration stay. Disarming a
    /// bus that is not armed gives the same writes and changes nothing.
    pub fn disarm(&mut self) -> (writes: Vec<RegisterWrite>)
        ensures
            old(self)@.wf(),
            final(self)@.wf(),
            final(self)@ == old(self)@.disarm().0,
            writes@ == old(self)@.disarm().1,
    {
        proof {
            use_type_invariant(&*self);
        }
        let mut writes: Vec<RegisterWrite> = Vec::new();
        writes.push(RegisterWrite { register: Register::Cr, value: Cr::with(false, false, false).0 });
        writes.push(RegisterWrite { register: Register::Ier, value: Ier::none().0 });
        let mut state = self.take_state();
        state.abort();
        self.armed = false;
        self.state = state;
        assert(writes@ =~= disarm_writes());
        writes
    }

    /// Handles one interrupt. `isr` is the status word as it was read, and
    /// `rx_data` the receive data register as it was read after it.
    ///
    /// The writes returned first clear exactly the flags that were read,
    /// so that a flag raised since then is not lost, and then hand the
    /// next byte to the transmitter if it asked for one. While the bus is
    /// armed the events of the status word are run through the state
    /// machine, faults first; while it is not, the flags are cleared and
    /// nothing else happens.
    pub fn poll(&mut self, isr: Isr, rx_data: u8) -> (serviced: Serviced)
        ensures
            old(self)@.wf(),
            final(self)@.wf(),
            final(self)@ == old(self)@.poll(isr, rx_data).0,
            serviced@ == old(self)@.poll(isr, rx_data).1,
    {
        proof {
            use_type_invariant(&*self);
        }
        let mut writes: Vec<RegisterWrite> = Vec::new();
        let mut outcomes: Vec<Outcome> = Vec::new();
        let flags = isr.flags();
        if flags != 0 {
            writes.push(RegisterWrite { register: Register::Isr, value: flags });
        }
        assert(writes@ =~= acknowledge(isr) + trace_writes(Seq::empty()));
        assert(outcomes@ =~= trace_outcomes(Seq::empty()));
        if self.armed {
            let config = self.config;
            let events = classify(isr, rx_data);
            let mut state = self.take_state();
            let ghost start = state@;
            let mut i: usize = 0;
            assert(events@.take(0) =~= Seq::empty());
            while i < events.len()
                invariant
                    i <= events.len(),
                    state@.wf(),
                    state@ == start.run(config, events@.take(i as int)),
                    outcomes@ == trace_outcomes(start.trace(config, events@.take(i as int))),
                    writes@ == acknowledge(isr) + trace_writes(
                        start.trace(config, events@.take(i as int)),
                    ),
                decreases events.len() - i,
            {
                let event = events[i];
                let effect = state.step(&config, event);
                proof {
                    let before = events@.take(i as int);
                    assert(events@.take(i + 1) =~= before.push(event));
                    crate::machine::run_push(start, config, before, event);
                    let trace = start.trace(config, before);
                    assert(trace.push(effect).drop_last() =~= trace);
                    assert(trace_outcomes(trace.push(effect)) =~= trace_outcomes(trace).push(
                        effect.outcome,
                    ));
                }
                outcomes.push(effect.outcome);
                match effect.send {
                    Some(tx) => {
                        if tx.last {
                            writes.push(
                                RegisterWrite {
                                    register: Register::Cr,
                                    value: Cr::with(true, false, true).0,
                                },
                            );
                        }
                        writes.push(RegisterWrite { register: Register::Txdr, value: tx.byte as u32 });
                    },
                    None => {},
                }
                assert(writes@ =~= acknowledge(isr) + trace_writes(
                    start.trace(config, events@.take(i + 1)),
                ));
                i = i + 1;
            }
            assert(events@.take(events@.len() as int) =~= events@);
            self.state = state;
        }
        Serviced { writes, outcomes }
    }

    /// Requests the transmission of `frame`.
    ///
    /// The request is refused, and nothing changes, with `InvalidFrame` if
    /// the frame is empty or longer than sixteen bytes, else with `Aborted`
    /// if the bus is not armed, else with `Busy` if a transmit is in
    /// flight. Else the frame is in flight, and the writes returned hand
    /// its first byte to the transmitter and request the start; the
    /// peripheral sends when the line is free. How the transmit ended is
    /// told by `transmit_result` once the handler has seen its end.
    pub fn transmit(&mut self, frame: Frame) -> (writes: Result<Vec<RegisterWrite>, TransmitError>)
        ensures
            old(self)@.wf(),
            final(self)@.wf(),
            final(self)@ == old(self)@.transmit(frame@).0,
            match writes {
                Ok(list) => old(self)@.transmit(frame@).1 == Ok::<
                    Seq<RegisterWrite>,
                    TransmitError,
                >(list@),
                Err(error) => old(self)@.transmit(frame@).1 == Err::<
                    Seq<RegisterWrite>,
                    TransmitError,
                >(error),
            },
    {
        proof {
            use_type_invariant(&*self);
        }
        if !frame.is_valid() {
            return Err(TransmitError::InvalidFrame);
        }
        if !self.armed {
            return Err(TransmitError::Aborted);
        }
        let mut state = self.take_state();
        let answer = state.begin_transmit(frame);
        self.state = state;
        match answer {
            Ok(first) => {
                let mut writes: Vec<RegisterWrite> = Vec::new();
                if first.last {
                    writes.push(
                        RegisterWrite { register: Register::Cr, value: Cr::with(true, false, true).0 },
                    );
                }
                writes.push(RegisterWrite { register: Register::Txdr, value: first.byte as u32 });
                writes.push(
                    RegisterWrite { register: Register::Cr, value: Cr::with(true, true, false).0 },
                );
                assert(writes@ =~= start_writes(first));
                Ok(writes)
            },
            Err(error) => Err(error),
        }
    }

    /// Takes the oldest received frame, if one waits. Frames come out in the
    /// order in which their reception ended, each once.
    pub fn receive(&mut self) -> (frame: Option<Frame>)
        ensures
            old(self)@.wf(),
            final(self)@.wf(),
            final(self)@ == (Controller {
                machine: old(self)@.machine.dequeue().0,
                ..old(self)@
            }),
            match frame {
                Some(f) => old(self)@.machine.dequeue().1 == Some(f@) && frame_len_ok(f@),
                None => old(self)@.machine.dequeue().1 is None,
            },
    {
        proof {
            use_type_invariant(&*self);
        }
        let mut state = self.take_state();
        let frame = state.receive();
        self.state = state;
        frame
    }

    /// Reads the last fault that the bus reported and forgets it.
    pub fn last_error(&mut self) -> (fault: Option<BusErrorKind>)
        ensures
            old(self)@.wf(),
            final(self)@.wf(),
            fault == old(self)@.machine.last_error,
            final(self)@ == (Controller {
                machine: Machine { last_error: None, ..old(self)@.machine },
                ..old(self)@
            }),
    {
        proof {
            use_type_invariant(&*self);
        }
        let mut state = self.take_state();
        let fault = state.last_error();
        self.state = state;
        fault
    }

    /// Takes the result of the last transmit that ended, if it was not taken
    /// yet: `Ok` if the frame was sent, and else why it was not.
    pub fn transmit_result(&mut self) -> (result: Option<Result<(), TransmitError>>)
        ensures
            old(self)@.wf(),
            final(self)@.wf(),
            result == old(self)@.machine.completion,
            final(self)@ == (Controller {
                machine: Machine { completion: None, ..old(self)@.machine },
                ..old(self)@
            }),
    {
        proof {
            use_type_invariant(&*self);
        }
        let mut state = self.take_state();
        let result = state.transmit_result();
        self.state = state;
        result
    }
}

} // verus!
