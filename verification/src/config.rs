//! What the application chooses before the bus is armed.

use vstd::prelude::*;
use crate::frame::BROADCAST;

verus! {

/// How much deviation from the nominal bit timing the receiver tolerates.
#[derive(Clone, Copy, Debug, PartialEq, Eq, Structural)]
pub enum Tolerance {
    /// The tolerance of the CEC standard.
    Standard,
    /// The wider tolerance that the peripheral offers.
    Extended,
}

/// How long the line must stay free before the peripheral starts to send,
/// in nominal data-bit periods.
#[derive(Clone, Copy, Debug, PartialEq, Eq, Structural)]
pub enum SignalFreeTime {
    /// The peripheral picks the time the standard asks for: shorter for the
    /// retry of a failed frame, longer after a frame of its own that went
    /// through.
    Automatic,
    /// Half a period.
    Half,
    /// One and a half periods.
    OneAndHalf,
    /// Two and a half periods.
    TwoAndHalf,
    /// Three and a half periods.
    ThreeAndHalf,
    /// Four and a half periods.
    FourAndHalf,
    /// Five and a half periods.
    FiveAndHalf,
    /// Six and a half periods.
    SixAndHalf,
}

impl SignalFreeTime {
    /// The value of the three-bit `SFT` field for this choice.
    pub open spec fn code(self) -> u8 {
        match self {
            SignalFreeTime::Automatic => 0,
            SignalFreeTime::Half => 1,
            SignalFreeTime::OneAndHalf => 2,
            SignalFreeTime::TwoAndHalf => 3,
            SignalFreeTime::ThreeAndHalf => 4,
            SignalFreeTime::FourAndHalf => 5,
            SignalFreeTime::FiveAndHalf => 6,
            SignalFreeTime::SixAndHalf => 7,
        }
    }

    /// Computes the value of the `SFT` field.
    pub fn field(&self) -> (bits: u8)
        ensures
            bits == self.code(),
            bits <= 7,
    {
        match self {
            SignalFreeTime::Automatic => 0,
            SignalFreeTime::Half => 1,
            SignalFreeTime::OneAndHalf => 2,
            SignalFreeTime::TwoAndHalf => 3,
            SignalFreeTime::ThreeAndHalf => 4,
            SignalFreeTime::FourAndHalf => 5,
            SignalFreeTime::FiveAndHalf => 6,
            SignalFreeTime::SixAndHalf => 7,
        }
    }
}

/// Whether bit `address` of an address mask is set. Only the addresses 0 to
/// 14 have a bit: 15 is the broadcast address.
pub open spec fn mask_has(mask: u16, address: u8) -> bool {
    address < 15 && (mask >> (address as u16)) & 1 == 1
}

/// CEC configuration.
///
/// It is fixed while the bus is armed. A configuration is valid when its own
/// address, if it has one, is a logical address (0 to 15).
#[non_exhaustive]
#[derive(Clone, Copy, Debug)]
pub struct Config {
    /// The logical address of this device, or `None` while it has none.
    pub own_address: Option<u8>,
    /// Further logical addresses to accept frames for: bit `n` stands for
    /// address `n`, for `n` from 0 to 14. Bit 15 is ignored.
    pub monitored: u16,
    /// The tolerance of the receiver.
    pub tolerance: Tolerance,
    /// The signal free time before a transmission.
    pub signal_free_time: SignalFreeTime,
    /// Count the signal free time from the request to transmit instead of
    /// from the end of the last frame.
    pub sft_from_request: bool,
    /// Listen mode: take every frame, whatever its destination, without
    /// acknowledging those that are for others.
    pub listen: bool,
}

impl Config {
    /// The own address, if there is one, is a logical address.
    pub open spec fn valid(self) -> bool {
        match self.own_address {
            Some(address) => address <= 15,
            None => true,
        }
    }

    /// Whether `address` is one of the further addresses to accept.
    pub open spec fn monitors(self, address: u8) -> bool {
        mask_has(self.monitored, address)
    }

    /// Whether a frame sent to `destination` is for this device: in listen
    /// mode every frame is, and otherwise those sent to all, to the own
    /// address or to a monitored address.
    pub open spec fn accepts(self, destination: u8) -> bool {
        self.listen || destination == BROADCAST || self.own_address == Some(destination)
            || self.monitors(destination)
    }

    /// The bit of the own address in the address mask: none for the
    /// broadcast address and for a device without an address.
    pub open spec fn own_bit(self) -> u16 {
        match self.own_address {
            Some(address) => if address < 15 {
                1u16 << (address as u16)
            } else {
                0
            },
            None => 0,
        }
    }

    /// The value of the `OAR` field: one bit for the own address and one for
    /// each monitored address.
    pub open spec fn address_mask(self) -> u16 {
        self.own_bit() | (self.monitored & 0x7fff)
    }

    /// The configuration of a device with the logical address `address`
    /// that takes the frames sent to it and those sent to all: the standard
    /// tolerance and signal free time, no further address, no listen mode.
    pub fn with_own_address(address: u8) -> (config: Config)
        ensures
            config == (Config {
                own_address: Some(address),
                monitored: 0,
                tolerance: Tolerance::Standard,
                signal_free_time: SignalFreeTime::Automatic,
                sft_from_request: false,
                listen: false,
            }),
    {
        Config {
            own_address: Some(address),
            monitored: 0,
            tolerance: Tolerance::Standard,
            signal_free_time: SignalFreeTime::Automatic,
            sft_from_request: false,
            listen: false,
        }
    }

    /// Tells whether the configuration can be armed.
    pub fn is_valid(&self) -> (ok: bool)
        ensures
            ok == self.valid(),
    {
        match self.own_address {
            Some(address) => address <= 15,
            None => true,
        }
    }

    /// Tells whether a frame sent to `destination` is for this device.
    pub fn accepts_destination(&self, destination: u8) -> (yes: bool)
        ensures
            yes == self.accepts(destination),
    {
        if self.listen || destination == BROADCAST {
            return true;
        }
        let own = match self.own_address {
            Some(address) => address == destination,
            None => false,
        };
        own || (destination < 15 && (self.monitored >> (destination as u16)) & 1 == 1)
    }

    /// Computes the value of the `OAR` field.
    pub fn own_address_mask(&self) -> (mask: u16)
        ensures
            mask == self.address_mask(),
            mask <= 0x7fff,
    {
        let own: u16 = match self.own_address {
            Some(address) => if address < 15 {
                1u16 << (address as u16)
            } else {
                0
            },
            None => 0,
        };
        proof {
            self.address_mask_fits();
        }
        own | (self.monitored & 0x7fff)
    }

    /// A device that monitors no further address and does not listen accepts
    /// the frames sent to its own address and those sent to all, and no
    /// others.
    pub proof fn plain_device_accepts(self, destination: u8)
        requires
            !self.listen,
            self.monitored == 0,
        ensures
            self.accepts(destination) == (destination == BROADCAST || self.own_address == Some(
                destination,
            )),
    {
        let a = destination as u16;
        assert((0u16 >> a) & 1 == 0) by (bit_vector);
    }

    /// The address mask has fifteen bits.
    pub proof fn address_mask_fits(self)
        ensures
            self.address_mask() <= 0x7fff,
    {
        let own = self.own_bit();
        let monitored = self.monitored;
        match self.own_address {
            Some(address) => {
                if address < 15 {
                    let a = address as u16;
                    assert(((1u16 << a) | (monitored & 0x7fff)) <= 0x7fff) by (bit_vector)
                        requires
                            a < 15,
                    ;
                } else {
                    assert((0u16 | (monitored & 0x7fff)) <= 0x7fff) by (bit_vector);
                }
            },
            None => {
                assert((0u16 | (monitored & 0x7fff)) <= 0x7fff) by (bit_vector);
            },
        }
    }

    /// The address mask has the bit of an address exactly when the address
    /// is the own address or a monitored one.
    pub proof fn address_mask_bits(self, address: u8)
        requires
            address < 15,
        ensures
            mask_has(self.address_mask(), address) <==> (self.own_address == Some(address)
                || self.monitors(address)),
    {
        let monitored = self.monitored;
        let a = address as u16;
        let own = self.own_bit();
        match self.own_address {
            Some(o) => {
                if o < 15 {
                    let ob = o as u16;
                    assert((((1u16 << ob) | (monitored & 0x7fff)) >> a) & 1 == 1 <==> (ob == a || (
                    monitored >> a) & 1 == 1)) by (bit_vector)
                        requires
                            a < 15,
                            ob < 15,
                    ;
                } else {
                    assert(((0u16 | (monitored & 0x7fff)) >> a) & 1 == (monitored >> a) & 1)
                        by (bit_vector)
                        requires
                            a < 15,
                    ;
                }
            },
            None => {
                assert(((0u16 | (monitored & 0x7fff)) >> a) & 1 == (monitored >> a) & 1)
                    by (bit_vector)
                    requires
                        a < 15,
                ;
            },
        }
    }
}

impl Default for Config {
    /// A device without an address in listen mode, with the standard
    /// tolerance and signal free time.
    fn default() -> (config: Config)
        ensures
            config.own_address.is_none(),
            config.monitored == 0,
            config.tolerance == Tolerance::Standard,
            config.signal_free_time == SignalFreeTime::Automatic,
            !config.sft_from_request,
            config.listen,
    {
        Config {
            own_address: None,
            monitored: 0,
            tolerance: Tolerance::Standard,
            signal_free_time: SignalFreeTime::Automatic,
            sft_from_request: false,
            listen: true,
        }
    }
}

} // verus!
