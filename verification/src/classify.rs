//! From the status word to bus events.
//!
//! Several flags may be set when the interrupt handler runs. They are taken
//! in a fixed order, faults before progress: first the faults of the
//! transmitter, then those of the receiver, then the received byte and the
//! end of reception, then the byte request and the end of transmission.
//! Progress flags of a lane that reports a fault in the same word belong to
//! the attempt that failed and give no event.

use vstd::prelude::*;
use crate::error::BusErrorKind;
use crate::machine::Event;
use crate::registers::Isr;

verus! {

/// The sequence with `event` added if `condition` holds.
pub open spec fn push_if(events: Seq<Event>, condition: bool, event: Event) -> Seq<Event> {
    if condition {
        events.push(event)
    } else {
        events
    }
}

/// A fault flag of the receiver is set.
pub open spec fn receive_fault(isr: Isr) -> bool {
    isr.rxovr() || isr.bre() || isr.sbpe() || isr.lbpe() || isr.rxacke()
}

/// A fault flag of the transmitter is set.
pub open spec fn transmit_fault(isr: Isr) -> bool {
    isr.arblst() || isr.txacke() || isr.txerr() || isr.txudr()
}

/// The events that a status word stands for, in the order in which they are
/// to be handled. `rx_data` is the byte in the receive data register.
pub open spec fn events_of(isr: Isr, rx_data: u8) -> Seq<Event> {
    let e = Seq::<Event>::empty();
    let e = push_if(e, isr.arblst(), Event::Fault(BusErrorKind::ArbitrationLost));
    let e = push_if(e, isr.txacke(), Event::Fault(BusErrorKind::AckFailure));
    let e = push_if(e, isr.txerr(), Event::Fault(BusErrorKind::LineError));
    let e = push_if(e, isr.txudr(), Event::Fault(BusErrorKind::TransmitUnderrun));
    let e = push_if(e, isr.rxovr(), Event::Fault(BusErrorKind::ReceiveOverrun));
    let e = push_if(e, isr.bre(), Event::Fault(BusErrorKind::BitRisingError));
    let e = push_if(e, isr.sbpe(), Event::Fault(BusErrorKind::ShortBitPeriodError));
    let e = push_if(e, isr.lbpe(), Event::Fault(BusErrorKind::LongBitPeriodError));
    let e = push_if(e, isr.rxacke(), Event::Fault(BusErrorKind::MissingAcknowledge));
    let e = push_if(e, isr.rxbr() && !receive_fault(isr), Event::ByteReceived(rx_data));
    let e = push_if(e, isr.rxend() && !receive_fault(isr), Event::ReceiveComplete);
    let e = push_if(e, isr.txbr() && !transmit_fault(isr), Event::TransmitByteRequest);
    let e = push_if(e, isr.txend() && !transmit_fault(isr), Event::TransmitComplete);
    e
}

/// Turns the status word into the events it stands for, in handling order.
pub fn classify(isr: Isr, rx_data: u8) -> (events: Vec<Event>)
    ensures
        events@ == events_of(isr, rx_data),
{
    let mut events: Vec<Event> = Vec::new();
    if isr.arblst() {
        events.push(Event::Fault(BusErrorKind::ArbitrationLost));
    }
    if isr.txacke() {
        events.push(Event::Fault(BusErrorKind::AckFailure));
    }
    if isr.txerr() {
        events.push(Event::Fault(BusErrorKind::LineError));
    }
    if isr.txudr() {
        events.push(Event::Fault(BusErrorKind::TransmitUnderrun));
    }
    let transmit_failed = events.len() > 0;
    if isr.rxovr() {
        events.push(Event::Fault(BusErrorKind::ReceiveOverrun));
    }
    if isr.bre() {
        events.push(Event::Fault(BusErrorKind::BitRisingError));
    }
    if isr.sbpe() {
        events.push(Event::Fault(BusErrorKind::ShortBitPeriodError));
    }
    if isr.lbpe() {
        events.push(Event::Fault(BusErrorKind::LongBitPeriodError));
    }
    if isr.rxacke() {
        events.push(Event::Fault(BusErrorKind::MissingAcknowledge));
    }
    let receive_failed = isr.rxovr() || isr.bre() || isr.sbpe() || isr.lbpe() || isr.rxacke();
    if isr.rxbr() && !receive_failed {
        events.push(Event::ByteReceived(rx_data));
    }
    if isr.rxend() && !receive_failed {
        events.push(Event::ReceiveComplete);
    }
    if isr.txbr() && !transmit_failed {
        events.push(Event::TransmitByteRequest);
    }
    if isr.txend() && !transmit_failed {
        events.push(Event::TransmitComplete);
    }
    events
}

/// Whether an event reports progress of a frame rather than a fault.
pub open spec fn is_progress(event: Event) -> bool {
    !(event is Fault)
}

/// In the events of one status word every fault comes before every event of
/// progress, and a lane that reports a fault reports no progress.
pub proof fn faults_come_first(isr: Isr, rx_data: u8)
    ensures
        forall|i: int, j: int|
            0 <= i < j < events_of(isr, rx_data).len() && is_progress(
                #[trigger] events_of(isr, rx_data)[i],
            ) ==> is_progress(#[trigger] events_of(isr, rx_data)[j]),
        receive_fault(isr) ==> forall|i: int|
            0 <= i < events_of(isr, rx_data).len() ==> !((#[trigger] events_of(isr, rx_data)[i])
                is ByteReceived) && !(events_of(isr, rx_data)[i] is ReceiveComplete),
        transmit_fault(isr) ==> forall|i: int|
            0 <= i < events_of(isr, rx_data).len() ==> !((#[trigger] events_of(isr, rx_data)[i])
                is TransmitByteRequest) && !(events_of(isr, rx_data)[i] is TransmitComplete),
{
    let e0 = Seq::<Event>::empty();
    let e1 = push_if(e0, isr.arblst(), Event::Fault(BusErrorKind::ArbitrationLost));
    let e2 = push_if(e1, isr.txacke(), Event::Fault(BusErrorKind::AckFailure));
    let e3 = push_if(e2, isr.txerr(), Event::Fault(BusErrorKind::LineError));
    let e4 = push_if(e3, isr.txudr(), Event::Fault(BusErrorKind::TransmitUnderrun));
    let e5 = push_if(e4, isr.rxovr(), Event::Fault(BusErrorKind::ReceiveOverrun));
    let e6 = push_if(e5, isr.bre(), Event::Fault(BusErrorKind::BitRisingError));
    let e7 = push_if(e6, isr.sbpe(), Event::Fault(BusErrorKind::ShortBitPeriodError));
    let e8 = push_if(e7, isr.lbpe(), Event::Fault(BusErrorKind::LongBitPeriodError));
    let e9 = push_if(e8, isr.rxacke(), Event::Fault(BusErrorKind::MissingAcknowledge));
    assert(forall|i: int| 0 <= i < e9.len() ==> (#[trigger] e9[i]) is Fault);
    let e10 = push_if(e9, isr.rxbr() && !receive_fault(isr), Event::ByteReceived(rx_data));
    let e11 = push_if(e10, isr.rxend() && !receive_fault(isr), Event::ReceiveComplete);
    let e12 = push_if(e11, isr.txbr() && !transmit_fault(isr), Event::TransmitByteRequest);
    let e13 = push_if(e12, isr.txend() && !transmit_fault(isr), Event::TransmitComplete);
    assert(e13 == events_of(isr, rx_data));
    assert(forall|i: int| 0 <= i < e9.len() ==> e13[i] == e9[i]);
    assert(forall|i: int| e9.len() <= i < e13.len() ==> is_progress(#[trigger] e13[i]));
}

} // verus!
