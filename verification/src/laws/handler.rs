//! Laws of the interrupt handler.

use vstd::prelude::*;
use crate::classify::{events_of, faults_come_first, push_if, receive_fault, transmit_fault};
use crate::config::Config;
use crate::driver::{
    acknowledge, send_writes, start_writes, store, trace_outcomes, trace_writes, Controller,
};
use crate::error::{BusErrorKind, TransmitError};
use crate::frame::{destination_of, frame_len_ok, MAX_FRAME_LEN};
use crate::laws::transmission::{as_words, send_stores_byte, txdr_values, txdr_values_concat};
use crate::machine::{
    enqueue, run_push, Effect, Event, Machine, Outcome, RxModel, TxByte, TxModel,
};
use crate::registers::{bit_of, Isr, Register, RegisterWrite};

verus! {

/// The event that flag `bit` of the status word stands for.
pub open spec fn flag_event(bit: u32, rx_data: u8) -> Event {
    if bit == 0 {
        Event::ByteReceived(rx_data)
    } else if bit == 1 {
        Event::ReceiveComplete
    } else if bit == 2 {
        Event::Fault(BusErrorKind::ReceiveOverrun)
    } else if bit == 3 {
        Event::Fault(BusErrorKind::BitRisingError)
    } else if bit == 4 {
        Event::Fault(BusErrorKind::ShortBitPeriodError)
    } else if bit == 5 {
        Event::Fault(BusErrorKind::LongBitPeriodError)
    } else if bit == 6 {
        Event::Fault(BusErrorKind::MissingAcknowledge)
    } else if bit == 7 {
        Event::Fault(BusErrorKind::ArbitrationLost)
    } else if bit == 8 {
        Event::TransmitByteRequest
    } else if bit == 9 {
        Event::TransmitComplete
    } else if bit == 10 {
        Event::Fault(BusErrorKind::TransmitUnderrun)
    } else if bit == 11 {
        Event::Fault(BusErrorKind::LineError)
    } else {
        Event::Fault(BusErrorKind::AckFailure)
    }
}

/// A status word with a single flag stands for the event of that flag and
/// for no other, and a word without a flag stands for none.
pub proof fn single_flag_event(bit: u32, rx_data: u8)
    requires
        bit < 13,
    ensures
        events_of(Isr(1u32 << bit), rx_data) == seq![flag_event(bit, rx_data)],
        events_of(Isr(0), rx_data) == Seq::<Event>::empty(),
        Isr(1u32 << bit).flags() == 1u32 << bit,
{
    let word: u32 = 1u32 << bit;
    assert forall|m: u32| m < 13 implies bit_of(word, m) == (m == bit) && !bit_of(0, m) by {
        assert((((1u32 << bit) >> m) & 1 != 0) == (m == bit) && (0u32 >> m) & 1 == 0)
            by (bit_vector)
            requires
                bit < 13,
                m < 13,
        ;
    }
    assert(bit_of(word, 0) == (bit == 0));
    assert(bit_of(word, 1) == (bit == 1));
    assert(bit_of(word, 2) == (bit == 2));
    assert(bit_of(word, 3) == (bit == 3));
    assert(bit_of(word, 4) == (bit == 4));
    assert(bit_of(word, 5) == (bit == 5));
    assert(bit_of(word, 6) == (bit == 6));
    assert(bit_of(word, 7) == (bit == 7));
    assert(bit_of(word, 8) == (bit == 8));
    assert(bit_of(word, 9) == (bit == 9));
    assert(bit_of(word, 10) == (bit == 10));
    assert(bit_of(word, 11) == (bit == 11));
    assert(bit_of(word, 12) == (bit == 12));
    assert(!bit_of(0, 0) && !bit_of(0, 1) && !bit_of(0, 2) && !bit_of(0, 3) && !bit_of(0, 4)
        && !bit_of(0, 5) && !bit_of(0, 6) && !bit_of(0, 7) && !bit_of(0, 8) && !bit_of(0, 9)
        && !bit_of(0, 10) && !bit_of(0, 11) && !bit_of(0, 12));
    assert((1u32 << bit) & 0x1fff == 1u32 << bit) by (bit_vector)
        requires
            bit < 13,
    ;
    assert(events_of(Isr(word), rx_data) =~= seq![flag_event(bit, rx_data)]);
    assert(events_of(Isr(0), rx_data) =~= Seq::<Event>::empty());
}

/// Events other than a request for the next byte ask for no register write.
pub proof fn no_request_no_write(machine: Machine, config: Config, events: Seq<Event>)
    requires
        forall|i: int| 0 <= i < events.len() ==> !((#[trigger] events[i]) is TransmitByteRequest),
    ensures
        trace_writes(machine.trace(config, events)) == Seq::<RegisterWrite>::empty(),
    decreases events.len(),
{
    if events.len() > 0 {
        no_request_no_write(machine, config, events.drop_last());
        let trace = machine.trace(config, events);
        assert(trace.drop_last() =~= machine.trace(config, events.drop_last()));
        assert(!(events[events.len() - 1] is TransmitByteRequest));
        assert(trace.last().send is None);
        assert(trace_writes(trace) =~= Seq::<RegisterWrite>::empty());
    }
}

/// The interrupt handler writes to the transmit data register only when
/// the transmitter has asked for a byte: without the request flag, or with
/// a fault of the transmitter beside it, all it writes is the word that
/// clears the flags it read.
pub proof fn poll_sends_on_request_only(controller: Controller, isr: Isr, rx_data: u8)
    requires
        !isr.txbr() || transmit_fault(isr),
    ensures
        controller.poll(isr, rx_data).1.writes == acknowledge(isr),
{
    let events = controller.pending_events(isr, rx_data);
    if controller.armed {
        faults_come_first(isr, rx_data);
        let e0 = Seq::<Event>::empty();
        let e1 = push_if(e0, isr.arblst(), Event::Fault(BusErrorKind::ArbitrationLost));
        let e2 = push_if(e1, isr.txacke(), Event::Fault(BusErrorKind::AckFailure));
        let e3 = push_if(e2, isr.txerr(), Event::Fault(BusErrorKind::LineError));
        let e4 = push_if(e3, isr.txudr(), Event::Fault(BusErrorKind::TransmitUnderrun));
        let e5 = push_if(e4, isr.rxovr(), Event::Fault(BusErrorKind::ReceiveOverrun));
        let e6 = push_if(e5, isr.bre(), Event::Fault(BusErrorKind::BitRisingError));
        let e7 = push_if(e6, isr.sbpe(), Event::Fault(BusErrorKind::ShortBitPeriodError));
        let e8 = push_if(e7, isr.lbpe(), Event::Fault(BusErrorKind::LongBitPeriodError));
        let e9 = push_if(e8, isr.rxacke(), Event::Fault(BusErrorKind::MissingAcknowledge));
        let e10 = push_if(e9, isr.rxbr() && !receive_fault(isr), Event::ByteReceived(rx_data));
        let e11 = push_if(e10, isr.rxend() && !receive_fault(isr), Event::ReceiveComplete);
        let e12 = push_if(e11, isr.txbr() && !transmit_fault(isr), Event::TransmitByteRequest);
        let e13 = push_if(e12, isr.txend() && !transmit_fault(isr), Event::TransmitComplete);
        assert(e12 == e11);
        assert(events == e13);
        assert forall|i: int| 0 <= i < events.len() implies !((#[trigger] events[i])
            is TransmitByteRequest) by {
            if i < e9.len() {
                assert(e13[i] == e9[i]);
            }
        }
    }
    no_request_no_write(controller.machine, controller.config, events);
    assert(acknowledge(isr) + Seq::<RegisterWrite>::empty() =~= acknowledge(isr));
}

/// An interrupt with a single flag is one step of the state machine with
/// the event of that flag: the flag is cleared, and a byte is handed to the
/// transmitter if the step asks for it.
pub proof fn poll_single_flag(controller: Controller, bit: u32, rx_data: u8)
    requires
        controller.armed,
        bit < 13,
    ensures
        ({
            let event = flag_event(bit, rx_data);
            let stepped = controller.machine.step(controller.config, event);
            let polled = controller.poll(Isr(1u32 << bit), rx_data);
            &&& polled.0 == (Controller { machine: stepped.0, ..controller })
            &&& polled.1.outcomes == seq![stepped.1.outcome]
            &&& polled.1.writes == seq![store(Register::Isr, 1u32 << bit)] + send_writes(
                stepped.1.send,
            )
            &&& acknowledge(Isr(1u32 << bit)) == seq![store(Register::Isr, 1u32 << bit)]
        }),
{
    let isr = Isr(1u32 << bit);
    let event = flag_event(bit, rx_data);
    single_flag_event(bit, rx_data);
    assert(1u32 << bit != 0) by (bit_vector)
        requires
            bit < 13,
    ;
    assert(seq![event] =~= Seq::<Event>::empty().push(event));
    run_push(controller.machine, controller.config, Seq::empty(), event);
    let trace = controller.machine.trace(controller.config, seq![event]);
    let stepped = controller.machine.step(controller.config, event);
    assert(trace =~= seq![stepped.1]);
    assert(trace.drop_last() =~= Seq::<Effect>::empty());
    assert(trace_writes(trace) =~= send_writes(stepped.1.send)) by {
        reveal_with_fuel(trace_writes, 2);
    }
    assert(trace_outcomes(trace) =~= seq![stepped.1.outcome]);
}

/// The driver after a series of interrupts, each given by the status word
/// and the receive data register as they were read, and all the register
/// writes that the handler asked for, in order.
pub open spec fn poll_all(controller: Controller, interrupts: Seq<(Isr, u8)>) -> (
    Controller,
    Seq<RegisterWrite>,
)
    decreases interrupts.len(),
{
    if interrupts.len() == 0 {
        (controller, Seq::empty())
    } else {
        let before = poll_all(controller, interrupts.drop_last());
        let served = before.0.poll(interrupts.last().0, interrupts.last().1);
        (served.0, before.1 + served.1.writes)
    }
}

/// The status word with the flag of a received byte alone.
pub open spec fn byte_received() -> Isr {
    Isr(0x0001)
}

/// The status word of the last byte of a frame: the flag of a received
/// byte together with the flag of the end of the reception.
pub open spec fn last_byte_received() -> Isr {
    Isr(0x0003)
}

/// The status word with the flag of a byte request alone.
pub open spec fn byte_requested() -> Isr {
    Isr(0x0100)
}

/// The status word with the flag of the end of the transmission alone.
pub open spec fn transmission_ended() -> Isr {
    Isr(0x0200)
}

/// The word that clears flags stores nothing in the transmit data register.
proof fn acknowledge_stores_nothing(isr: Isr)
    ensures
        txdr_values(acknowledge(isr)) == Seq::<u32>::empty(),
{
    reveal_with_fuel(txdr_values, 2);
    if isr.flags() != 0 {
        assert(acknowledge(isr).drop_last() =~= Seq::<RegisterWrite>::empty());
    }
}

/// While the transmitter asks for the bytes of the frame in flight, one
/// interrupt for each, the handler stores the bytes after the first in the
/// transmit data register, in order, and nothing else changes.
pub proof fn requests_served(controller: Controller, frame: Seq<u8>, interrupts: Seq<(Isr, u8)>)
    requires
        controller.armed,
        frame_len_ok(frame),
        controller.machine.tx == Some(TxModel { frame, next: 1 }),
        interrupts.len() < frame.len(),
        forall|i: int| 0 <= i < interrupts.len() ==> (#[trigger] interrupts[i]).0 == byte_requested(),
    ensures
        poll_all(controller, interrupts).0 == (Controller {
            machine: Machine {
                tx: Some(TxModel { frame, next: interrupts.len() as int + 1 }),
                ..controller.machine
            },
            ..controller
        }),
        txdr_values(poll_all(controller, interrupts).1) == as_words(
            frame.subrange(1, interrupts.len() as int + 1),
        ),
    decreases interrupts.len(),
{
    let count = interrupts.len() as int;
    if count == 0 {
        assert(as_words(frame.subrange(1, 1)) =~= Seq::<u32>::empty());
    } else {
        let earlier = interrupts.drop_last();
        requests_served(controller, frame, earlier);
        let before = poll_all(controller, earlier);
        let rx_data = interrupts.last().1;
        assert(interrupts.last().0 == byte_requested());
        assert(1u32 << 8u32 == 0x0100u32) by (bit_vector);
        poll_single_flag(before.0, 8, rx_data);
        let served = before.0.poll(byte_requested(), rx_data);
        let tx = TxByte { byte: frame[count], last: count + 1 == frame.len() };
        assert(served.1.writes == acknowledge(byte_requested()) + send_writes(Some(tx)));
        acknowledge_stores_nothing(byte_requested());
        send_stores_byte(tx);
        txdr_values_concat(acknowledge(byte_requested()), send_writes(Some(tx)));
        txdr_values_concat(before.1, served.1.writes);
        assert(txdr_values(served.1.writes) =~= seq![tx.byte as u32]);
        assert(as_words(frame.subrange(1, count + 1)) =~= as_words(frame.subrange(1, count))
            + seq![tx.byte as u32]);
    }
}

/// A frame that is handed to an armed and idle transmitter, asked for byte
/// by byte and reported as sent, one interrupt at a time, reaches the
/// transmit data register whole and in order, and the transmit ends with
/// success.
///
/// The interrupts are a byte request for each byte after the first, then
/// the end of the transmission; what the receive data register holds
/// meanwhile does not matter. The values stored in the transmit data
/// register by `transmit` and by the handler are the bytes of the frame.
pub proof fn frame_sent_by_interrupts(
    controller: Controller,
    frame: Seq<u8>,
    interrupts: Seq<(Isr, u8)>,
)
    requires
        controller.wf(),
        controller.armed,
        controller.machine.tx is None,
        frame_len_ok(frame),
        interrupts.len() == frame.len(),
        forall|i: int|
            0 <= i < frame.len() - 1 ==> (#[trigger] interrupts[i]).0 == byte_requested(),
        interrupts[frame.len() - 1].0 == transmission_ended(),
    ensures
        ({
            let first = TxByte { byte: frame[0], last: frame.len() == 1 };
            let started = controller.transmit(frame);
            let done = poll_all(started.0, interrupts);
            &&& started.1 == Ok::<Seq<RegisterWrite>, TransmitError>(start_writes(first))
            &&& txdr_values(start_writes(first) + done.1) == as_words(frame)
            &&& done.0.armed
            &&& done.0.config == controller.config
            &&& done.0.machine.tx is None
            &&& done.0.machine.completion == Some(Ok::<(), TransmitError>(()))
            &&& done.0.machine.rx == controller.machine.rx
            &&& done.0.machine.inbound == controller.machine.inbound
            &&& done.0.machine.last_error == controller.machine.last_error
        }),
{
    let first = TxByte { byte: frame[0], last: frame.len() == 1 };
    let started = controller.transmit(frame);
    let requests = interrupts.drop_last();
    requests_served(started.0, frame, requests);
    let before = poll_all(started.0, requests);
    let rx_data = interrupts.last().1;
    assert(1u32 << 9u32 == 0x0200u32) by (bit_vector);
    poll_single_flag(before.0, 9, rx_data);
    let served = before.0.poll(transmission_ended(), rx_data);
    acknowledge_stores_nothing(transmission_ended());
    assert(served.1.writes =~= acknowledge(transmission_ended()));
    txdr_values_concat(before.1, served.1.writes);
    let done = poll_all(started.0, interrupts);
    assert(txdr_values(done.1) =~= as_words(frame.subrange(1, frame.len() as int)));
    send_stores_byte(first);
    txdr_values_concat(start_writes(first), done.1);
    assert(as_words(frame) =~= seq![first.byte as u32] + as_words(
        frame.subrange(1, frame.len() as int),
    ));
}

/// While the bytes of a frame come in, one interrupt for each, the receive
/// lane collects them, nothing is stored in the transmit data register, and
/// nothing else changes.
pub proof fn bytes_served(controller: Controller, bytes: Seq<u8>, interrupts: Seq<(Isr, u8)>)
    requires
        controller.armed,
        controller.machine.rx is None,
        interrupts.len() <= bytes.len(),
        interrupts.len() <= MAX_FRAME_LEN,
        forall|i: int|
            0 <= i < interrupts.len() ==> #[trigger] interrupts[i] == (byte_received(), bytes[i]),
    ensures
        poll_all(controller, interrupts).0 == (Controller {
            machine: Machine {
                rx: if interrupts.len() == 0 {
                    None
                } else {
                    Some(
                        RxModel {
                            bytes: bytes.take(interrupts.len() as int),
                            accepted: controller.config.accepts(destination_of(bytes[0])),
                        },
                    )
                },
                ..controller.machine
            },
            ..controller
        }),
        txdr_values(poll_all(controller, interrupts).1) == Seq::<u32>::empty(),
    decreases interrupts.len(),
{
    let count = interrupts.len() as int;
    if count > 0 {
        let earlier = interrupts.drop_last();
        bytes_served(controller, bytes, earlier);
        let before = poll_all(controller, earlier);
        let byte = bytes[count - 1];
        assert(interrupts.last() == (byte_received(), byte));
        assert(1u32 << 0u32 == 0x0001u32) by (bit_vector);
        poll_single_flag(before.0, 0, byte);
        let served = before.0.poll(byte_received(), byte);
        acknowledge_stores_nothing(byte_received());
        assert(served.1.writes =~= acknowledge(byte_received()));
        txdr_values_concat(before.1, served.1.writes);
        assert(bytes.take(count - 1).push(byte) =~= bytes.take(count));
        if count > 1 {
            assert(bytes.take(count - 1)[0] == bytes[0]);
        } else {
            assert(bytes.take(0) =~= Seq::<u8>::empty());
        }
        assert(txdr_values(before.1 + served.1.writes) =~= Seq::<u32>::empty());
    }
}

/// The status word of the last byte of a frame stands for the byte and then
/// for the end of the reception.
pub proof fn last_byte_events(rx_data: u8)
    ensures
        events_of(last_byte_received(), rx_data) == seq![
            Event::ByteReceived(rx_data),
            Event::ReceiveComplete,
        ],
        last_byte_received().flags() == 0x0003,
{
    let word: u32 = 0x0003;
    assert((word >> 0u32) & 1 != 0 && (word >> 1u32) & 1 != 0 && (word >> 2u32) & 1 == 0 && (word
        >> 3u32) & 1 == 0 && (word >> 4u32) & 1 == 0 && (word >> 5u32) & 1 == 0 && (word >> 6u32)
        & 1 == 0 && (word >> 7u32) & 1 == 0 && (word >> 8u32) & 1 == 0 && (word >> 9u32) & 1 == 0
        && (word >> 10u32) & 1 == 0 && (word >> 11u32) & 1 == 0 && (word >> 12u32) & 1 == 0 && word
        & 0x1fff == 0x0003) by (bit_vector)
        requires
            word == 0x0003,
    ;
    assert(events_of(last_byte_received(), rx_data) =~= seq![
        Event::ByteReceived(rx_data),
        Event::ReceiveComplete,
    ]);
}

/// The interrupt of the last byte of a frame is two steps of the state
/// machine, the byte and then the end of the reception, and asks for no
/// write but the one that clears its flags.
pub proof fn last_byte_served(controller: Controller, rx_data: u8)
    requires
        controller.armed,
    ensures
        ({
            let config = controller.config;
            let taken = controller.machine.step(config, Event::ByteReceived(rx_data)).0;
            let ended = taken.step(config, Event::ReceiveComplete);
            let polled = controller.poll(last_byte_received(), rx_data);
            &&& polled.0 == (Controller { machine: ended.0, ..controller })
            &&& polled.1.writes == acknowledge(last_byte_received())
            &&& polled.1.outcomes == seq![Outcome::Nothing, ended.1.outcome]
        }),
{
    let config = controller.config;
    let first = Event::ByteReceived(rx_data);
    let events = seq![first, Event::ReceiveComplete];
    last_byte_events(rx_data);
    assert(seq![first] =~= Seq::<Event>::empty().push(first));
    assert(events =~= seq![first].push(Event::ReceiveComplete));
    run_push(controller.machine, config, Seq::empty(), first);
    run_push(controller.machine, config, seq![first], Event::ReceiveComplete);
    assert forall|i: int| 0 <= i < events.len() implies !((#[trigger] events[i])
        is TransmitByteRequest) by {}
    no_request_no_write(controller.machine, config, events);
    let trace = controller.machine.trace(config, events);
    assert(acknowledge(last_byte_received()) + trace_writes(trace) =~= acknowledge(
        last_byte_received(),
    ));
    let taken = controller.machine.step(config, first).0;
    let ended = taken.step(config, Event::ReceiveComplete);
    assert(trace_outcomes(trace) =~= seq![Outcome::Nothing, ended.1.outcome]);
}

/// A frame of one to sixteen bytes that comes in while the receive lane is
/// idle, one interrupt for each byte and the end of the reception flagged
/// with the last, is queued if its destination is accepted and dropped
/// without a trace if it is not.
///
/// Afterwards the receive lane is idle again. No fault is recorded, nothing
/// is stored in the transmit data register, and the transmit lane is not
/// touched.
pub proof fn frame_received_by_interrupts(
    controller: Controller,
    bytes: Seq<u8>,
    interrupts: Seq<(Isr, u8)>,
)
    requires
        controller.wf(),
        controller.armed,
        controller.machine.rx is None,
        frame_len_ok(bytes),
        interrupts.len() == bytes.len(),
        forall|i: int|
            0 <= i < bytes.len() - 1 ==> #[trigger] interrupts[i] == (byte_received(), bytes[i]),
        interrupts[bytes.len() - 1] == (last_byte_received(), bytes[bytes.len() - 1]),
    ensures
        ({
            let done = poll_all(controller, interrupts);
            &&& done.0.armed
            &&& done.0.config == controller.config
            &&& done.0.machine.rx is None
            &&& done.0.machine.inbound == if controller.config.accepts(destination_of(bytes[0])) {
                enqueue(controller.machine.inbound, bytes)
            } else {
                controller.machine.inbound
            }
            &&& done.0.machine.last_error == controller.machine.last_error
            &&& done.0.machine.tx == controller.machine.tx
            &&& done.0.machine.completion == controller.machine.completion
            &&& txdr_values(done.1) == Seq::<u32>::empty()
        }),
{
    let len = bytes.len() as int;
    let earlier = interrupts.drop_last();
    bytes_served(controller, bytes, earlier);
    let before = poll_all(controller, earlier);
    let byte = bytes[len - 1];
    last_byte_served(before.0, byte);
    let served = before.0.poll(last_byte_received(), byte);
    acknowledge_stores_nothing(last_byte_received());
    txdr_values_concat(before.1, served.1.writes);
    assert(txdr_values(before.1 + served.1.writes) =~= Seq::<u32>::empty());
    assert(bytes.take(len - 1).push(byte) =~= bytes);
    if len == 1 {
        assert(bytes.take(0) =~= Seq::<u8>::empty());
    } else {
        assert(bytes.take(len - 1)[0] == bytes[0]);
    }
}

/// The flag of the status word that reports a fault.
pub open spec fn fault_flag(kind: BusErrorKind) -> u32 {
    match kind {
        BusErrorKind::ReceiveOverrun => 0x0004,
        BusErrorKind::BitRisingError => 0x0008,
        BusErrorKind::ShortBitPeriodError => 0x0010,
        BusErrorKind::LongBitPeriodError => 0x0020,
        BusErrorKind::MissingAcknowledge => 0x0040,
        BusErrorKind::ArbitrationLost => 0x0080,
        BusErrorKind::TransmitUnderrun => 0x0400,
        BusErrorKind::LineError => 0x0800,
        BusErrorKind::AckFailure => 0x1000,
    }
}

/// The position of that flag in the status word.
pub open spec fn fault_bit(kind: BusErrorKind) -> u32 {
    match kind {
        BusErrorKind::ReceiveOverrun => 2,
        BusErrorKind::BitRisingError => 3,
        BusErrorKind::ShortBitPeriodError => 4,
        BusErrorKind::LongBitPeriodError => 5,
        BusErrorKind::MissingAcknowledge => 6,
        BusErrorKind::ArbitrationLost => 7,
        BusErrorKind::TransmitUnderrun => 10,
        BusErrorKind::LineError => 11,
        BusErrorKind::AckFailure => 12,
    }
}

/// An interrupt with the flag of a fault alone is one step of the state
/// machine with that fault.
pub proof fn poll_fault_flag(controller: Controller, kind: BusErrorKind, rx_data: u8)
    requires
        controller.armed,
    ensures
        ({
            let stepped = controller.machine.step(controller.config, Event::Fault(kind));
            let polled = controller.poll(Isr(fault_flag(kind)), rx_data);
            &&& polled.0 == (Controller { machine: stepped.0, ..controller })
            &&& polled.1.outcomes == seq![stepped.1.outcome]
            &&& polled.1.writes == seq![store(Register::Isr, fault_flag(kind))]
            &&& polled.1.writes == acknowledge(Isr(fault_flag(kind)))
        }),
{
    assert(1u32 << 2u32 == 0x0004u32 && 1u32 << 3u32 == 0x0008u32 && 1u32 << 4u32 == 0x0010u32
        && 1u32 << 5u32 == 0x0020u32 && 1u32 << 6u32 == 0x0040u32 && 1u32 << 7u32 == 0x0080u32
        && 1u32 << 10u32 == 0x0400u32 && 1u32 << 11u32 == 0x0800u32 && 1u32 << 12u32
        == 0x1000u32) by (bit_vector);
    assert(fault_flag(kind) == 1u32 << fault_bit(kind));
    assert(flag_event(fault_bit(kind), rx_data) == Event::Fault(kind));
    poll_single_flag(controller, fault_bit(kind), rx_data);
    let polled = controller.poll(Isr(fault_flag(kind)), rx_data);
    assert(polled.1.writes =~= seq![store(Register::Isr, fault_flag(kind))]);
}

/// A reception that is cut short by a fault of the receiver, after any
/// number of bytes, completes no frame: the queue stays as it was, the
/// receive lane is idle, and the fault is the last fault recorded. The
/// transmit lane is not touched and nothing is stored in the transmit data
/// register.
pub proof fn reception_broken_by_interrupt(
    controller: Controller,
    bytes: Seq<u8>,
    interrupts: Seq<(Isr, u8)>,
    kind: BusErrorKind,
)
    requires
        controller.wf(),
        controller.armed,
        controller.machine.rx is None,
        kind.receive_class(),
        bytes.len() <= MAX_FRAME_LEN,
        interrupts.len() == bytes.len() + 1,
        forall|i: int|
            0 <= i < bytes.len() ==> #[trigger] interrupts[i] == (byte_received(), bytes[i]),
        interrupts[bytes.len() as int].0 == Isr(fault_flag(kind)),
    ensures
        ({
            let done = poll_all(controller, interrupts);
            &&& done.0.machine.rx is None
            &&& done.0.machine.inbound == controller.machine.inbound
            &&& done.0.machine.last_error == Some(kind)
            &&& done.0.machine.tx == controller.machine.tx
            &&& done.0.machine.completion == controller.machine.completion
            &&& txdr_values(done.1) == Seq::<u32>::empty()
        }),
{
    let earlier = interrupts.drop_last();
    bytes_served(controller, bytes, earlier);
    let before = poll_all(controller, earlier);
    let rx_data = interrupts.last().1;
    poll_fault_flag(before.0, kind, rx_data);
    let served = before.0.poll(Isr(fault_flag(kind)), rx_data);
    acknowledge_stores_nothing(Isr(fault_flag(kind)));
    txdr_values_concat(before.1, served.1.writes);
    assert(txdr_values(before.1 + served.1.writes) =~= Seq::<u32>::empty());
}

/// A transmit whose first interrupt reports a fault of the transmitter ends
/// with that fault, and the next frame is accepted at once.
pub proof fn transmit_broken_by_interrupt(
    controller: Controller,
    frame: Seq<u8>,
    kind: BusErrorKind,
    rx_data: u8,
    next: Seq<u8>,
)
    requires
        controller.wf(),
        controller.armed,
        controller.machine.tx is None,
        frame_len_ok(frame),
        !kind.receive_class(),
        frame_len_ok(next),
    ensures
        ({
            let started = controller.transmit(frame).0;
            let polled = started.poll(Isr(fault_flag(kind)), rx_data);
            &&& controller.transmit(frame).1 is Ok
            &&& polled.1.outcomes == seq![Outcome::TransmitFailed(kind)]
            &&& polled.1.writes == acknowledge(Isr(fault_flag(kind)))
            &&& polled.0.machine.completion == Some(
                Err::<(), TransmitError>(TransmitError::Bus(kind)),
            )
            &&& polled.0.machine.last_error == Some(kind)
            &&& polled.0.machine.tx is None
            &&& polled.0.machine.rx == controller.machine.rx
            &&& polled.0.machine.inbound == controller.machine.inbound
            &&& polled.0.transmit(next).1 is Ok
        }),
{
    let started = controller.transmit(frame).0;
    poll_fault_flag(started, kind, rx_data);
}

} // verus!
