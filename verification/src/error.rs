//! The faults of the bus and the errors of the driver's operations.

use vstd::prelude::*;

verus! {

/// A fault that the peripheral reports on the bus, one per status flag.
///
/// The first five belong to reception, the last four to transmission.
#[derive(Clone, Copy, Debug, PartialEq, Eq, Structural)]
pub enum BusErrorKind {
    /// A data bit rose at the wrong time (`BRE`).
    BitRisingError,
    /// A data bit ended too early (`SBPE`).
    ShortBitPeriodError,
    /// A data bit lasted too long (`LBPE`).
    LongBitPeriodError,
    /// A byte arrived before the previous one was taken (`RXOVR`).
    ReceiveOverrun,
    /// No acknowledge was seen for a received byte (`RXACKE`).
    MissingAcknowledge,
    /// Another initiator won the bus (`ARBLST`). The frame was not sent.
    ///
    /// The peripheral keeps the request to start pending after it lost the
    /// bus. A transmit that is requested next takes the place of the frame
    /// that lost.
    ArbitrationLost,
    /// A transmitted byte was not acknowledged (`TXACKE`).
    AckFailure,
    /// The line was held low while the transmitter had released it (`TXERR`).
    LineError,
    /// The next byte was not supplied in time (`TXUDR`).
    TransmitUnderrun,
}

impl BusErrorKind {
    /// Whether the fault belongs to reception; the others belong to
    /// transmission.
    pub open spec fn receive_class(self) -> bool {
        match self {
            BusErrorKind::BitRisingError
            | BusErrorKind::ShortBitPeriodError
            | BusErrorKind::LongBitPeriodError
            | BusErrorKind::ReceiveOverrun
            | BusErrorKind::MissingAcknowledge => true,
            _ => false,
        }
    }

    /// Tells whether the fault belongs to reception.
    pub fn is_receive(&self) -> (r: bool)
        ensures
            r == self.receive_class(),
    {
        match self {
            BusErrorKind::BitRisingError
            | BusErrorKind::ShortBitPeriodError
            | BusErrorKind::LongBitPeriodError
            | BusErrorKind::ReceiveOverrun
            | BusErrorKind::MissingAcknowledge => true,
            _ => false,
        }
    }

    /// Tells whether the fault belongs to transmission.
    pub fn is_transmit(&self) -> (r: bool)
        ensures
            r == !self.receive_class(),
    {
        !self.is_receive()
    }
}

/// Why `arm` refused a configuration.
#[derive(Clone, Copy, Debug, PartialEq, Eq, Structural)]
pub enum ArmError {
    /// The own address is not a logical address (0 to 15).
    ConfigurationInvalid,
}

/// Why a transmit did not send its frame.
#[derive(Clone, Copy, Debug, PartialEq, Eq, Structural)]
pub enum TransmitError {
    /// The frame is empty or longer than sixteen bytes.
    InvalidFrame,
    /// Another transmit is in flight.
    Busy,
    /// The controller was disarmed while the transmit was in flight, or was
    /// not armed when the transmit was requested.
    Aborted,
    /// The bus reported a fault during the transmit.
    Bus(BusErrorKind),
}

} // verus!
