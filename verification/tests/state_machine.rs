use stm32_cec::machine::INBOUND_CAPACITY;
use stm32_cec::{
    BusErrorKind, Config, Event, Frame, Outcome, State, TransmitError, TxByte, TxPhase,
};

fn addressed(own: u8) -> Config {
    Config::with_own_address(own)
}

/// Feeds a whole frame to the state machine and returns the outcome of its
/// last event.
fn inject(state: &mut State, config: &Config, bytes: &[u8]) -> Outcome {
    assert_eq!(state.step(config, Event::StartBit).outcome, Outcome::Nothing);
    for byte in bytes {
        let effect = state.step(config, Event::ByteReceived(*byte));
        assert_eq!(effect.outcome, Outcome::Nothing);
        assert_eq!(effect.send, None);
    }
    state.step(config, Event::ReceiveComplete).outcome
}

const ALL_FAULTS: [BusErrorKind; 9] = [
    BusErrorKind::BitRisingError,
    BusErrorKind::ShortBitPeriodError,
    BusErrorKind::LongBitPeriodError,
    BusErrorKind::ReceiveOverrun,
    BusErrorKind::MissingAcknowledge,
    BusErrorKind::ArbitrationLost,
    BusErrorKind::AckFailure,
    BusErrorKind::LineError,
    BusErrorKind::TransmitUnderrun,
];

#[test]
fn new_state_is_idle_and_empty() {
    let mut state = State::new();
    assert!(state.is_idle());
    assert!(!state.is_receiving());
    assert!(!state.is_transmitting());
    assert_eq!(state.pending(), 0);
    assert_eq!(state.receive(), None);
    assert_eq!(state.last_error(), None);
    assert_eq!(state.transmit_result(), None);
}

#[test]
fn frame_for_another_device_is_not_delivered() {
    let config = addressed(3);
    let mut state = State::new();
    assert_eq!(inject(&mut state, &config, &[0x32, 0x0a]), Outcome::FrameIgnored);
    assert_eq!(state.receive(), None);
    assert_eq!(state.last_error(), None);
    assert!(state.is_idle());
}

#[test]
fn broadcast_frame_is_delivered() {
    let config = addressed(3);
    let mut state = State::new();
    assert_eq!(inject(&mut state, &config, &[0x3f, 0x44]), Outcome::FrameDelivered);
    assert_eq!(state.receive(), Some(Frame::new(vec![0x3f, 0x44])));
    assert_eq!(state.receive(), None);
    assert_eq!(state.last_error(), None);
}

#[test]
fn every_length_and_destination_is_delivered_or_ignored() {
    let config = addressed(3);
    for len in 1..=16usize {
        for destination in 0..=15u8 {
            let mut bytes = vec![0x40 | destination];
            for i in 1..len {
                bytes.push((i as u8).wrapping_mul(17) ^ destination);
            }
            let mut state = State::new();
            let outcome = inject(&mut state, &config, &bytes);
            if destination == 3 || destination == 15 {
                assert_eq!(outcome, Outcome::FrameDelivered);
                assert_eq!(state.pending(), 1);
                assert_eq!(state.receive(), Some(Frame::new(bytes)));
                assert_eq!(state.receive(), None);
            } else {
                assert_eq!(outcome, Outcome::FrameIgnored);
                assert_eq!(state.pending(), 0);
                assert_eq!(state.receive(), None);
            }
            assert_eq!(state.last_error(), None);
            assert!(state.is_idle());
        }
    }
}

#[test]
fn frames_leave_in_the_order_of_their_completion() {
    let config = addressed(3);
    let mut state = State::new();
    assert_eq!(inject(&mut state, &config, &[0x13, 1]), Outcome::FrameDelivered);
    assert_eq!(inject(&mut state, &config, &[0x12, 2]), Outcome::FrameIgnored);
    assert_eq!(inject(&mut state, &config, &[0x1f, 3, 4]), Outcome::FrameDelivered);
    assert_eq!(inject(&mut state, &config, &[0x23]), Outcome::FrameDelivered);
    assert_eq!(state.pending(), 3);
    assert_eq!(state.receive(), Some(Frame::new(vec![0x13, 1])));
    assert_eq!(state.receive(), Some(Frame::new(vec![0x1f, 3, 4])));
    assert_eq!(state.receive(), Some(Frame::new(vec![0x23])));
    assert_eq!(state.receive(), None);
}

#[test]
fn header_only_frame_is_received() {
    let config = addressed(3);
    let mut state = State::new();
    assert_eq!(inject(&mut state, &config, &[0x03]), Outcome::FrameDelivered);
    assert_eq!(state.receive(), Some(Frame::new(vec![0x03])));
}

#[test]
fn short_bit_period_error_drops_the_frame() {
    let config = addressed(3);
    for received in 0..16usize {
        let mut state = State::new();
        state.step(&config, Event::StartBit);
        for i in 0..received {
            state.step(&config, Event::ByteReceived(if i == 0 { 0x13 } else { i as u8 }));
        }
        assert!(state.is_receiving());
        let effect = state.step(&config, Event::Fault(BusErrorKind::ShortBitPeriodError));
        assert_eq!(effect.outcome, Outcome::ReceiveFailed(BusErrorKind::ShortBitPeriodError));
        assert_eq!(effect.send, None);
        assert!(state.is_idle());
        assert_eq!(state.pending(), 0);
        assert_eq!(state.receive(), None);
        assert_eq!(state.last_error(), Some(BusErrorKind::ShortBitPeriodError));
        assert_eq!(state.last_error(), None);
        assert_eq!(state.step(&config, Event::ReceiveComplete).outcome, Outcome::Nothing);
        assert_eq!(state.receive(), None);
    }
}

#[test]
fn every_receive_fault_is_reported_as_itself() {
    let config = addressed(3);
    for kind in ALL_FAULTS {
        if !kind.is_receive() {
            continue;
        }
        let mut state = State::new();
        state.step(&config, Event::StartBit);
        state.step(&config, Event::ByteReceived(0x13));
        let effect = state.step(&config, Event::Fault(kind));
        assert_eq!(effect.outcome, Outcome::ReceiveFailed(kind));
        assert_eq!(state.last_error(), Some(kind));
        assert_eq!(state.receive(), None);
        assert_eq!(state.transmit_result(), None);
    }
}

#[test]
fn receive_fault_without_a_frame_is_still_recorded() {
    let config = addressed(3);
    let mut state = State::new();
    let effect = state.step(&config, Event::Fault(BusErrorKind::BitRisingError));
    assert_eq!(effect.outcome, Outcome::ReceiveFailed(BusErrorKind::BitRisingError));
    assert_eq!(state.last_error(), Some(BusErrorKind::BitRisingError));
    assert!(state.is_idle());
}

#[test]
fn fault_classes() {
    let receive: Vec<bool> = ALL_FAULTS.iter().map(|kind| kind.is_receive()).collect();
    assert_eq!(receive, vec![true, true, true, true, true, false, false, false, false]);
    for kind in ALL_FAULTS {
        assert_eq!(kind.is_transmit(), !kind.is_receive());
    }
}

#[test]
fn last_error_is_the_most_recent_fault() {
    let config = addressed(3);
    let mut state = State::new();
    state.step(&config, Event::Fault(BusErrorKind::BitRisingError));
    state.step(&config, Event::Fault(BusErrorKind::LongBitPeriodError));
    assert_eq!(state.last_error(), Some(BusErrorKind::LongBitPeriodError));
    assert_eq!(state.last_error(), None);
}

#[test]
fn bytes_beyond_the_longest_frame_are_dropped() {
    let config = addressed(3);
    let mut state = State::new();
    let bytes: Vec<u8> = (0..20u8).map(|i| if i == 0 { 0x13 } else { i }).collect();
    assert_eq!(inject(&mut state, &config, &bytes), Outcome::FrameDelivered);
    assert_eq!(state.receive(), Some(Frame::new(bytes[..16].to_vec())));
}

#[test]
fn a_byte_without_start_bit_begins_a_frame() {
    let config = addressed(3);
    let mut state = State::new();
    state.step(&config, Event::ByteReceived(0x13));
    assert!(state.is_receiving());
    state.step(&config, Event::ByteReceived(0x99));
    assert_eq!(state.step(&config, Event::ReceiveComplete).outcome, Outcome::FrameDelivered);
    assert_eq!(state.receive(), Some(Frame::new(vec![0x13, 0x99])));
}

#[test]
fn a_start_bit_begins_an_empty_frame() {
    let config = addressed(3);
    let mut state = State::new();
    state.step(&config, Event::ByteReceived(0x13));
    state.step(&config, Event::ByteReceived(0x01));
    state.step(&config, Event::StartBit);
    state.step(&config, Event::ByteReceived(0x2f));
    assert_eq!(state.step(&config, Event::ReceiveComplete).outcome, Outcome::FrameDelivered);
    assert_eq!(state.receive(), Some(Frame::new(vec![0x2f])));
    assert_eq!(state.receive(), None);
}

#[test]
fn completion_without_bytes_delivers_nothing() {
    let config = addressed(3);
    let mut state = State::new();
    assert_eq!(state.step(&config, Event::ReceiveComplete).outcome, Outcome::Nothing);
    state.step(&config, Event::StartBit);
    assert_eq!(state.step(&config, Event::ReceiveComplete).outcome, Outcome::FrameIgnored);
    assert!(state.is_idle());
    assert_eq!(state.receive(), None);
    assert_eq!(state.last_error(), None);
}

#[test]
fn a_full_queue_drops_its_oldest_frame() {
    assert_eq!(INBOUND_CAPACITY, 8);
    let config = addressed(3);
    let mut state = State::new();
    for i in 0..10u8 {
        assert_eq!(inject(&mut state, &config, &[0x13, i]), Outcome::FrameDelivered);
        assert_eq!(state.pending(), usize::min(i as usize + 1, 8));
    }
    for i in 2..10u8 {
        assert_eq!(state.receive(), Some(Frame::new(vec![0x13, i])));
    }
    assert_eq!(state.receive(), None);
}

#[test]
fn transmit_hands_out_the_bytes_in_order() {
    let config = addressed(3);
    for len in 1..=16usize {
        let bytes: Vec<u8> = (0..len as u8).map(|i| 0x30 + i).collect();
        let mut state = State::new();
        let first = state.begin_transmit(Frame::new(bytes.clone()));
        assert_eq!(first, Ok(TxByte { byte: bytes[0], last: len == 1 }));
        assert!(state.is_transmitting());
        let mut sent = vec![bytes[0]];
        for i in 1..len {
            let effect = state.step(&config, Event::TransmitByteRequest);
            assert_eq!(effect.outcome, Outcome::Nothing);
            assert_eq!(effect.send, Some(TxByte { byte: bytes[i], last: i + 1 == len }));
            sent.push(bytes[i]);
            assert_eq!(state.transmit_result(), None);
        }
        let effect = state.step(&config, Event::TransmitComplete);
        assert_eq!(effect.outcome, Outcome::TransmitDone);
        assert_eq!(effect.send, None);
        assert_eq!(sent, bytes);
        assert!(state.is_idle());
        assert_eq!(state.transmit_result(), Some(Ok(())));
        assert_eq!(state.transmit_result(), None);
        assert_eq!(state.last_error(), None);
    }
}

#[test]
fn a_request_beyond_the_last_byte_sends_nothing() {
    let config = addressed(3);
    let mut state = State::new();
    assert!(state.begin_transmit(Frame::new(vec![0x32, 0x01])).is_ok());
    assert!(state.step(&config, Event::TransmitByteRequest).send.is_some());
    let effect = state.step(&config, Event::TransmitByteRequest);
    assert_eq!(effect.send, None);
    assert_eq!(effect.outcome, Outcome::Nothing);
    assert!(state.is_transmitting());
}

#[test]
fn transmit_events_without_a_transmit_do_nothing() {
    let config = addressed(3);
    let mut state = State::new();
    let effect = state.step(&config, Event::TransmitByteRequest);
    assert_eq!((effect.outcome, effect.send), (Outcome::Nothing, None));
    let effect = state.step(&config, Event::TransmitComplete);
    assert_eq!((effect.outcome, effect.send), (Outcome::Nothing, None));
    assert_eq!(state.transmit_result(), None);
    assert!(state.is_idle());
}

#[test]
fn invalid_frames_are_refused() {
    let mut state = State::new();
    assert_eq!(state.begin_transmit(Frame::new(vec![])), Err(TransmitError::InvalidFrame));
    assert_eq!(state.begin_transmit(Frame::new(vec![0; 17])), Err(TransmitError::InvalidFrame));
    assert!(state.is_idle());
    assert!(state.begin_transmit(Frame::new(vec![0; 16])).is_ok());
    assert_eq!(state.begin_transmit(Frame::new(vec![])), Err(TransmitError::InvalidFrame));
}

#[test]
fn a_second_transmit_is_busy_and_changes_nothing() {
    let config = addressed(3);
    let mut state = State::new();
    assert!(state.begin_transmit(Frame::new(vec![0x32, 0xaa, 0xbb])).is_ok());
    assert_eq!(state.begin_transmit(Frame::new(vec![0x35, 0x01])), Err(TransmitError::Busy));
    assert_eq!(
        state.step(&config, Event::TransmitByteRequest).send,
        Some(TxByte { byte: 0xaa, last: false })
    );
    assert_eq!(state.begin_transmit(Frame::new(vec![0x35, 0x01])), Err(TransmitError::Busy));
    assert_eq!(
        state.step(&config, Event::TransmitByteRequest).send,
        Some(TxByte { byte: 0xbb, last: true })
    );
    assert_eq!(state.step(&config, Event::TransmitComplete).outcome, Outcome::TransmitDone);
    assert_eq!(state.transmit_result(), Some(Ok(())));
}

#[test]
fn arbitration_lost_ends_the_transmit_and_frees_the_lane() {
    let config = addressed(3);
    let mut state = State::new();
    assert!(state.begin_transmit(Frame::new(vec![0x32, 0xaa])).is_ok());
    let effect = state.step(&config, Event::Fault(BusErrorKind::ArbitrationLost));
    assert_eq!(effect.outcome, Outcome::TransmitFailed(BusErrorKind::ArbitrationLost));
    assert_eq!(effect.send, None);
    assert!(state.is_idle());
    assert_eq!(
        state.transmit_result(),
        Some(Err(TransmitError::Bus(BusErrorKind::ArbitrationLost)))
    );
    assert_eq!(state.last_error(), Some(BusErrorKind::ArbitrationLost));

    assert_eq!(inject(&mut state, &config, &[0x43, 0x07]), Outcome::FrameDelivered);
    assert_eq!(state.receive(), Some(Frame::new(vec![0x43, 0x07])));
    assert_eq!(
        state.begin_transmit(Frame::new(vec![0x32, 0xaa])),
        Ok(TxByte { byte: 0x32, last: false })
    );
}

#[test]
fn every_transmit_fault_is_reported_as_itself() {
    let config = addressed(3);
    for kind in ALL_FAULTS {
        if kind.is_receive() {
            continue;
        }
        let mut state = State::new();
        assert!(state.begin_transmit(Frame::new(vec![0x32])).is_ok());
        let effect = state.step(&config, Event::Fault(kind));
        assert_eq!(effect.outcome, Outcome::TransmitFailed(kind));
        assert_eq!(state.transmit_result(), Some(Err(TransmitError::Bus(kind))));
        assert_eq!(state.last_error(), Some(kind));
        assert!(state.is_idle());
    }
}

#[test]
fn transmit_fault_without_a_transmit_is_only_recorded() {
    let config = addressed(3);
    let mut state = State::new();
    let effect = state.step(&config, Event::Fault(BusErrorKind::AckFailure));
    assert_eq!(effect.outcome, Outcome::Nothing);
    assert_eq!(state.transmit_result(), None);
    assert_eq!(state.last_error(), Some(BusErrorKind::AckFailure));
}

#[test]
fn a_fault_of_one_lane_leaves_the_other_alone() {
    let config = addressed(3);
    let mut state = State::new();
    assert!(state.begin_transmit(Frame::new(vec![0x32, 0x01])).is_ok());
    state.step(&config, Event::StartBit);
    state.step(&config, Event::ByteReceived(0x13));
    state.step(&config, Event::Fault(BusErrorKind::BitRisingError));
    assert!(state.is_transmitting());
    assert!(!state.is_receiving());
    assert_eq!(state.transmit_result(), None);

    state.step(&config, Event::ByteReceived(0x13));
    let effect = state.step(&config, Event::Fault(BusErrorKind::LineError));
    assert_eq!(effect.outcome, Outcome::TransmitFailed(BusErrorKind::LineError));
    assert!(state.is_receiving());
    assert_eq!(state.step(&config, Event::ReceiveComplete).outcome, Outcome::FrameDelivered);
    assert_eq!(state.receive(), Some(Frame::new(vec![0x13])));
}

#[test]
fn abort_clears_both_lanes() {
    let config = addressed(3);
    let mut state = State::new();
    assert_eq!(inject(&mut state, &config, &[0x13, 1]), Outcome::FrameDelivered);
    state.step(&config, Event::Fault(BusErrorKind::BitRisingError));
    assert!(state.begin_transmit(Frame::new(vec![0x32, 0x01])).is_ok());
    state.step(&config, Event::StartBit);
    state.abort();
    assert!(state.is_idle());
    assert_eq!(state.transmit_result(), Some(Err(TransmitError::Aborted)));
    assert_eq!(state.last_error(), Some(BusErrorKind::BitRisingError));
    assert_eq!(state.receive(), Some(Frame::new(vec![0x13, 1])));
    state.abort();
    assert!(state.is_idle());
    assert_eq!(state.transmit_result(), None);
}

#[test]
fn a_new_transmit_discards_an_untaken_result() {
    let config = addressed(3);
    let mut state = State::new();
    assert!(state.begin_transmit(Frame::new(vec![0x32])).is_ok());
    state.step(&config, Event::TransmitComplete);
    assert!(state.begin_transmit(Frame::new(vec![0x35])).is_ok());
    assert_eq!(state.transmit_result(), None);
}

#[test]
fn transmit_phase_follows_the_byte_requests() {
    let config = addressed(3);
    let mut state = State::new();
    assert_eq!(state.transmit_phase(), None);
    assert!(state.begin_transmit(Frame::new(vec![0x32, 0x01])).is_ok());
    assert_eq!(state.transmit_phase(), Some(TxPhase::Waiting));
    state.step(&config, Event::TransmitByteRequest);
    assert_eq!(state.transmit_phase(), Some(TxPhase::InFlight));
    state.step(&config, Event::TransmitComplete);
    assert_eq!(state.transmit_phase(), None);

    assert!(state.begin_transmit(Frame::new(vec![0x32])).is_ok());
    assert_eq!(state.transmit_phase(), Some(TxPhase::Waiting));
    state.step(&config, Event::TransmitComplete);
    assert_eq!(state.transmit_result(), Some(Ok(())));
}
