//! Laws of transmission.

use vstd::prelude::*;
use crate::config::Config;
use crate::driver::{send_writes, start_writes, trace_writes, Controller};
use crate::error::{BusErrorKind, TransmitError};
use crate::frame::{destination_of, frame_len_ok};
use crate::laws::reception::{frame_received, reception};
use crate::machine::{
    enqueue, run_keeps_wf, run_push, step_keeps_wf, Effect, Event, Machine, Outcome, TxByte,
    TxModel,
};
use crate::registers::{Register, RegisterWrite};

verus! {

/// A valid frame that is offered while another is in flight is refused as
/// busy, and the driver is left exactly as it was: whatever happens to the
/// frame in flight happens as if the second request had not been made.
pub proof fn busy_changes_nothing(controller: Controller, frame: Seq<u8>)
    requires
        controller.wf(),
        controller.armed,
        controller.machine.tx is Some,
        frame_len_ok(frame),
    ensures
        controller.transmit(frame) == (
            controller,
            Err::<Seq<RegisterWrite>, TransmitError>(TransmitError::Busy),
        ),
{
}

/// As many requests for the next byte as there are bytes after the first.
pub open spec fn byte_requests(count: nat) -> Seq<Event> {
    Seq::new(count, |i: int| Event::TransmitByteRequest)
}

/// The events of a frame of `len` bytes that is sent whole: a request for
/// each byte after the first, then the end of the transmission.
pub open spec fn transmission(len: nat) -> Seq<Event> {
    byte_requests((len - 1) as nat).push(Event::TransmitComplete)
}

/// The values that a list of writes stores in the transmit data register,
/// in order.
pub open spec fn txdr_values(writes: Seq<RegisterWrite>) -> Seq<u32>
    decreases writes.len(),
{
    if writes.len() == 0 {
        Seq::empty()
    } else if writes.last().register == Register::Txdr {
        txdr_values(writes.drop_last()).push(writes.last().value)
    } else {
        txdr_values(writes.drop_last())
    }
}

/// The bytes of a frame as words.
pub open spec fn as_words(bytes: Seq<u8>) -> Seq<u32> {
    bytes.map_values(|byte: u8| byte as u32)
}

/// The values stored by two lists of writes are those of the first, then
/// those of the second.
pub proof fn txdr_values_concat(first: Seq<RegisterWrite>, second: Seq<RegisterWrite>)
    ensures
        txdr_values(first + second) == txdr_values(first) + txdr_values(second),
    decreases second.len(),
{
    if second.len() == 0 {
        assert(first + second =~= first);
        assert(txdr_values(first) + txdr_values(second) =~= txdr_values(first));
    } else {
        txdr_values_concat(first, second.drop_last());
        assert((first + second).drop_last() =~= first + second.drop_last());
        assert(txdr_values(first + second) =~= txdr_values(first) + txdr_values(second));
    }
}

/// Handing a byte to the transmitter stores that byte, and nothing else, in
/// the transmit data register.
pub proof fn send_stores_byte(tx: TxByte)
    ensures
        txdr_values(send_writes(Some(tx))) == seq![tx.byte as u32],
        txdr_values(start_writes(tx)) == seq![tx.byte as u32],
{
    reveal_with_fuel(txdr_values, 3);
    let send = send_writes(Some(tx));
    let byte = RegisterWrite { register: Register::Txdr, value: tx.byte as u32 };
    if tx.last {
        assert(send.drop_last() =~= seq![send[0]]);
        assert(send.drop_last().drop_last() =~= Seq::<RegisterWrite>::empty());
    } else {
        assert(send.drop_last() =~= Seq::<RegisterWrite>::empty());
    }
    assert(send.last() == byte);
    assert(txdr_values(send) =~= seq![tx.byte as u32]);
    assert(start_writes(tx).drop_last() =~= send);
}

/// While the transmitter asks for the bytes of the frame in flight, each
/// request is answered with the next byte, the last one marked as such, and
/// nothing else changes.
pub proof fn bytes_requested(machine: Machine, config: Config, frame: Seq<u8>, count: nat)
    requires
        frame_len_ok(frame),
        machine.tx == Some(TxModel { frame, next: 1 }),
        count < frame.len(),
    ensures
        ({
            let after = machine.run(config, byte_requests(count));
            let trace = machine.trace(config, byte_requests(count));
            &&& after == (Machine { tx: Some(TxModel { frame, next: count as int + 1 }), ..machine })
            &&& trace.len() == count
            &&& forall|i: int|
                0 <= i < count ==> #[trigger] trace[i] == (Effect {
                    outcome: Outcome::Nothing,
                    send: Some(TxByte { byte: frame[1 + i], last: 2 + i == frame.len() }),
                })
            &&& txdr_values(trace_writes(trace)) == as_words(frame.subrange(1, count as int + 1))
        }),
    decreases count,
{
    if count == 0 {
        assert(byte_requests(0) =~= Seq::<Event>::empty());
        assert(as_words(frame.subrange(1, 1)) =~= Seq::<u32>::empty());
    } else {
        let fewer = (count - 1) as nat;
        bytes_requested(machine, config, frame, fewer);
        assert(byte_requests(count) =~= byte_requests(fewer).push(Event::TransmitByteRequest));
        run_push(machine, config, byte_requests(fewer), Event::TransmitByteRequest);
        let before = machine.trace(config, byte_requests(fewer));
        let trace = machine.trace(config, byte_requests(count));
        let tx = TxByte { byte: frame[count as int], last: count + 1 == frame.len() };
        assert(trace.drop_last() =~= before);
        assert(trace.last().send == Some(tx));
        txdr_values_concat(trace_writes(before), send_writes(Some(tx)));
        send_stores_byte(tx);
        assert(as_words(frame.subrange(1, count as int + 1)) =~= as_words(frame.subrange(1, count as int))
            + seq![tx.byte as u32]);
    }
}

/// A frame that is accepted for transmission and then asked for byte by
/// byte until the bus reports its end is sent whole and in order, and the
/// transmit ends with success.
///
/// The values stored in the transmit data register, by the writes that
/// start the transmission and by those that answer the requests, are the
/// bytes of the frame in their order. Afterwards the transmit lane is idle
/// and the result of the transmit is `Ok`. The receive lane, the queue and
/// the last fault are not touched.
pub proof fn frame_transmitted(machine: Machine, config: Config, frame: Seq<u8>)
    requires
        machine.wf(),
        machine.tx is None,
        frame_len_ok(frame),
    ensures
        ({
            let first = TxByte { byte: frame[0], last: frame.len() == 1 };
            let started = machine.begin(frame).0;
            let after = started.run(config, transmission(frame.len()));
            let trace = started.trace(config, transmission(frame.len()));
            &&& machine.begin(frame).1 == Ok::<TxByte, TransmitError>(first)
            &&& txdr_values(start_writes(first) + trace_writes(trace)) == as_words(frame)
            &&& trace.last().outcome == Outcome::TransmitDone
            &&& after.wf()
            &&& after.tx is None
            &&& after.completion == Some(Ok::<(), TransmitError>(()))
            &&& after.rx == machine.rx
            &&& after.inbound == machine.inbound
            &&& after.last_error == machine.last_error
        }),
{
    let first = TxByte { byte: frame[0], last: frame.len() == 1 };
    let started = machine.begin(frame).0;
    let count = (frame.len() - 1) as nat;
    bytes_requested(started, config, frame, count);
    run_push(started, config, byte_requests(count), Event::TransmitComplete);
    run_keeps_wf(started, config, transmission(frame.len()));
    let requested = started.trace(config, byte_requests(count));
    let trace = started.trace(config, transmission(frame.len()));
    assert(trace.drop_last() =~= requested);
    assert(trace_writes(trace) =~= trace_writes(requested));
    txdr_values_concat(start_writes(first), trace_writes(trace));
    send_stores_byte(first);
    assert(as_words(frame) =~= seq![first.byte as u32] + as_words(
        frame.subrange(1, count as int + 1),
    ));
}

/// A transmit that meets a fault of the transmitter ends with that fault,
/// and the driver is ready for the next frame at once.
///
/// The fault is the result of the transmit and the last fault recorded, the
/// transmit lane is idle, and the receive lane and the queue are not
/// touched. A valid frame offered next is accepted, and a frame that
/// arrives next is received: queued if its destination is accepted, and
/// dropped if it is not.
pub proof fn transmit_fails(
    machine: Machine,
    config: Config,
    frame: Seq<u8>,
    kind: BusErrorKind,
    next: Seq<u8>,
)
    requires
        machine.wf(),
        machine.tx is None,
        frame_len_ok(frame),
        !kind.receive_class(),
        frame_len_ok(next),
    ensures
        ({
            let started = machine.begin(frame).0;
            let after = started.step(config, Event::Fault(kind)).0;
            let effect = started.step(config, Event::Fault(kind)).1;
            let later = after.run(config, reception(next));
            &&& machine.begin(frame).1 is Ok
            &&& effect.outcome == Outcome::TransmitFailed(kind)
            &&& effect.send is None
            &&& after.completion == Some(
                Err::<(), TransmitError>(TransmitError::Bus(kind)),
            )
            &&& after.last_error == Some(kind)
            &&& after.tx is None
            &&& after.rx == machine.rx
            &&& after.inbound == machine.inbound
            &&& after.wf()
            &&& after.begin(next).1 == Ok::<TxByte, TransmitError>(
                TxByte { byte: next[0], last: next.len() == 1 },
            )
            &&& later.inbound == if config.accepts(destination_of(next[0])) {
                enqueue(machine.inbound, next)
            } else {
                machine.inbound
            }
            &&& later.is_idle()
        }),
{
    let started = machine.begin(frame).0;
    step_keeps_wf(started, config, Event::Fault(kind));
    let after = started.step(config, Event::Fault(kind)).0;
    frame_received(after, config, next);
}

} // verus!
