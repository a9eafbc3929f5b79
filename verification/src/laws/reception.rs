//! Laws of reception.

use vstd::prelude::*;
use crate::config::Config;
use crate::error::BusErrorKind;
use crate::frame::{destination_of, frame_len_ok, BROADCAST, MAX_FRAME_LEN};
use crate::machine::{
    enqueue, quiet, run_concat, run_keeps_wf, run_push, Event, Machine, Outcome, RxModel,
    INBOUND_CAPACITY,
};

verus! {

/// The events of a frame as it arrives, without its end: the start bit, then
/// one event for each byte.
pub open spec fn arrival(bytes: Seq<u8>) -> Seq<Event> {
    seq![Event::StartBit] + bytes.map_values(|byte: u8| Event::ByteReceived(byte))
}

/// The events of a frame that is received whole.
pub open spec fn reception(bytes: Seq<u8>) -> Seq<Event> {
    arrival(bytes).push(Event::ReceiveComplete)
}

/// The events of a frame whose reception is cut short by a fault.
pub open spec fn broken_reception(bytes: Seq<u8>, kind: BusErrorKind) -> Seq<Event> {
    arrival(bytes).push(Event::Fault(kind))
}

/// While a frame arrives, the receive lane collects its bytes and nothing
/// else changes: no attempt ends, nothing is sent, and the transmit lane,
/// the queue, the last fault and the transmit result stay as they were.
pub proof fn frame_arrives(machine: Machine, config: Config, bytes: Seq<u8>)
    ensures
        ({
            let after = machine.run(config, arrival(bytes));
            let trace = machine.trace(config, arrival(bytes));
            &&& after.rx is Some
            &&& after.tx == machine.tx
            &&& after.inbound == machine.inbound
            &&& after.last_error == machine.last_error
            &&& after.completion == machine.completion
            &&& trace.len() == bytes.len() + 1
            &&& forall|i: int| 0 <= i < trace.len() ==> #[trigger] trace[i] == quiet()
            &&& bytes.len() <= MAX_FRAME_LEN ==> after.rx == Some(
                RxModel {
                    bytes,
                    accepted: bytes.len() > 0 && config.accepts(destination_of(bytes[0])),
                },
            )
        }),
    decreases bytes.len(),
{
    if bytes.len() == 0 {
        assert(arrival(bytes) =~= Seq::<Event>::empty().push(Event::StartBit));
        run_push(machine, config, Seq::empty(), Event::StartBit);
        assert(machine.run(config, arrival(bytes)).rx->0.bytes =~= bytes);
    } else {
        let shorter = bytes.drop_last();
        let byte = bytes.last();
        frame_arrives(machine, config, shorter);
        assert(arrival(bytes) =~= arrival(shorter).push(Event::ByteReceived(byte)));
        run_push(machine, config, arrival(shorter), Event::ByteReceived(byte));
        if bytes.len() <= MAX_FRAME_LEN {
            assert(shorter.push(byte) =~= bytes);
            if shorter.len() > 0 {
                assert(shorter[0] == bytes[0]);
            }
        }
    }
}

/// A frame of one to sixteen bytes that is received whole is queued if its
/// destination is accepted, and dropped without a trace if it is not.
///
/// In both cases the receive lane is idle afterwards and no fault is
/// recorded. A frame that is queued goes to the end of the queue, so frames
/// leave in the order in which they were completed, each once; if the queue
/// was full, its oldest frame made room.
pub proof fn frame_received(machine: Machine, config: Config, bytes: Seq<u8>)
    requires
        machine.wf(),
        frame_len_ok(bytes),
    ensures
        ({
            let after = machine.run(config, reception(bytes));
            let trace = machine.trace(config, reception(bytes));
            let accepted = config.accepts(destination_of(bytes[0]));
            &&& after.wf()
            &&& after.rx is None
            &&& after.tx == machine.tx
            &&& after.last_error == machine.last_error
            &&& after.completion == machine.completion
            &&& accepted ==> after.inbound == enqueue(machine.inbound, bytes)
                && trace.last().outcome == Outcome::FrameDelivered
            &&& !accepted ==> after.inbound == machine.inbound && trace.last().outcome
                == Outcome::FrameIgnored
        }),
{
    frame_arrives(machine, config, bytes);
    run_push(machine, config, arrival(bytes), Event::ReceiveComplete);
    run_keeps_wf(machine, config, reception(bytes));
}

/// A device that neither listens nor monitors further addresses queues the
/// frames sent to its own address and those sent to all, and drops every
/// other frame without a trace.
pub proof fn frame_received_by_plain_device(machine: Machine, config: Config, bytes: Seq<u8>)
    requires
        machine.wf(),
        frame_len_ok(bytes),
        !config.listen,
        config.monitored == 0,
    ensures
        ({
            let after = machine.run(config, reception(bytes));
            let destination = destination_of(bytes[0]);
            let mine = destination == BROADCAST || config.own_address == Some(destination);
            &&& after.rx is None
            &&& after.last_error == machine.last_error
            &&& mine ==> after.inbound == enqueue(machine.inbound, bytes)
            &&& !mine ==> after.inbound == machine.inbound
        }),
{
    frame_received(machine, config, bytes);
    config.plain_device_accepts(destination_of(bytes[0]));
}

/// A frame that is queued into an empty queue is what `receive` hands out
/// next, and it hands it out once.
pub proof fn frame_received_once(machine: Machine, config: Config, bytes: Seq<u8>)
    requires
        machine.wf(),
        frame_len_ok(bytes),
        machine.inbound.len() == 0,
        config.accepts(destination_of(bytes[0])),
    ensures
        ({
            let after = machine.run(config, reception(bytes));
            &&& after.dequeue().1 == Some(bytes)
            &&& after.dequeue().0.dequeue().1 is None
        }),
{
    frame_received(machine, config, bytes);
    let after = machine.run(config, reception(bytes));
    assert(after.inbound =~= seq![bytes]);
    assert(after.inbound.drop_first() =~= Seq::<Seq<u8>>::empty());
}

/// A reception that ends in a fault of the receiver completes no frame: the
/// queue stays as it was, the receive lane is idle, the fault is recorded
/// and reported as the failure of the reception, and no event of the run
/// delivers a frame. The transmit lane is not touched.
pub proof fn reception_fails(machine: Machine, config: Config, bytes: Seq<u8>, kind: BusErrorKind)
    requires
        machine.wf(),
        kind.receive_class(),
    ensures
        ({
            let after = machine.run(config, broken_reception(bytes, kind));
            let trace = machine.trace(config, broken_reception(bytes, kind));
            &&& after.wf()
            &&& after.rx is None
            &&& after.tx == machine.tx
            &&& after.completion == machine.completion
            &&& after.inbound == machine.inbound
            &&& after.last_error == Some(kind)
            &&& trace.last().outcome == Outcome::ReceiveFailed(kind)
            &&& forall|i: int|
                0 <= i < trace.len() ==> (#[trigger] trace[i]).outcome != Outcome::FrameDelivered
            &&& machine.tx is None ==> after.is_idle()
        }),
{
    frame_arrives(machine, config, bytes);
    run_push(machine, config, arrival(bytes), Event::Fault(kind));
    run_keeps_wf(machine, config, broken_reception(bytes, kind));
}

/// Two frames for this device that arrive one after the other are queued in
/// that order, behind what was queued before, as long as the queue has room
/// for both.
pub proof fn frames_received_in_order(
    machine: Machine,
    config: Config,
    first: Seq<u8>,
    second: Seq<u8>,
)
    requires
        machine.wf(),
        frame_len_ok(first),
        frame_len_ok(second),
        config.accepts(destination_of(first[0])),
        config.accepts(destination_of(second[0])),
        machine.inbound.len() + 2 <= INBOUND_CAPACITY,
    ensures
        machine.run(config, reception(first) + reception(second)).inbound
            == machine.inbound.push(first).push(second),
{
    frame_received(machine, config, first);
    frame_received(machine.run(config, reception(first)), config, second);
    run_concat(machine, config, reception(first), reception(second));
}

} // verus!
