//! The registers of the controller as typed words.
//!
//! Each register is a 32-bit word with named fields. A field is read with
//! the accessor of its name and replaced with `set_` and its name; the word
//! itself is the public field `0`. Nothing here reads or writes the
//! peripheral: a `RegisterWrite` names a register and the word to store in
//! it, and the caller performs it.

use vstd::prelude::*;

verus! {

/// Bit `n` of a word.
pub open spec fn bit_of(word: u32, n: u32) -> bool {
    (word >> n) & 1 != 0
}

/// The word with bit `n` replaced.
pub open spec fn put_bit(word: u32, n: u32, on: bool) -> u32 {
    (word & !(1u32 << n)) | ((if on {
        1u32
    } else {
        0u32
    }) << n)
}

/// The field of a word that starts at bit `shift` and is as wide as `mask`.
pub open spec fn bits_of(word: u32, shift: u32, mask: u32) -> u32 {
    (word >> shift) & mask
}

/// The word with that field replaced by the low bits of `value`.
pub open spec fn put_bits(word: u32, shift: u32, mask: u32, value: u32) -> u32 {
    (word & !(mask << shift)) | ((value & mask) << shift)
}

/// Replacing a bit changes that bit and no other.
pub proof fn put_bit_then_read(word: u32, n: u32, on: bool, m: u32)
    requires
        n < 32,
        m < 32,
    ensures
        bit_of(put_bit(word, n, on), m) == if m == n {
            on
        } else {
            bit_of(word, m)
        },
{
    let v: u32 = if on {
        1
    } else {
        0
    };
    assert((((word & !(1u32 << n)) | (v << n)) >> m) & 1 == if m == n {
        v
    } else {
        (word >> m) & 1
    }) by (bit_vector)
        requires
            n < 32,
            m < 32,
            v <= 1,
    ;
}

fn read_bit(word: u32, n: u32) -> (on: bool)
    requires
        n < 32,
    ensures
        on == bit_of(word, n),
{
    (word >> n) & 1 != 0
}

fn write_bit(word: u32, n: u32, on: bool) -> (out: u32)
    requires
        n < 32,
    ensures
        out == put_bit(word, n, on),
{
    let v: u32 = if on {
        1
    } else {
        0
    };
    (word & !(1u32 << n)) | (v << n)
}

/// The registers that the driver writes.
#[derive(Clone, Copy, Debug, PartialEq, Eq, Structural)]
pub enum Register {
    /// Control register.
    Cr,
    /// Configuration register.
    Cfgr,
    /// Transmit data register.
    Txdr,
    /// Interrupt and status register; a one written to a flag clears it.
    Isr,
    /// Interrupt enable register.
    Ier,
}

/// One store to a register of the peripheral.
#[derive(Clone, Copy, Debug, PartialEq, Eq, Structural)]
pub struct RegisterWrite {
    /// The register to write.
    pub register: Register,
    /// The whole word to store.
    pub value: u32,
}

/// Control register.
#[derive(Clone, Copy, Debug, PartialEq, Eq, Structural)]
pub struct Cr(pub u32);

impl Cr {
    /// The peripheral is enabled: bit 0.
    pub open spec fn spec_cecen(&self) -> bool {
        bit_of(self.0, 0)
    }

    /// A message is to be started with the byte in the data register: bit 1.
    pub open spec fn spec_txsom(&self) -> bool {
        bit_of(self.0, 1)
    }

    /// The byte in the data register is the last of its message: bit 2.
    pub open spec fn spec_txeom(&self) -> bool {
        bit_of(self.0, 2)
    }

    /// Reads `CECEN`.
    #[verifier::when_used_as_spec(spec_cecen)]
    pub fn cecen(&self) -> (on: bool)
        ensures
            on == self.spec_cecen(),
    {
        read_bit(self.0, 0)
    }

    /// Replaces `CECEN`.
    pub fn set_cecen(&mut self, val: bool)
        ensures
            final(self).0 == put_bit(old(self).0, 0, val),
    {
        self.0 = write_bit(self.0, 0, val);
    }

    /// Reads `TXSOM`.
    #[verifier::when_used_as_spec(spec_txsom)]
    pub fn txsom(&self) -> (on: bool)
        ensures
            on == self.spec_txsom(),
    {
        read_bit(self.0, 1)
    }

    /// Replaces `TXSOM`.
    pub fn set_txsom(&mut self, val: bool)
        ensures
            final(self).0 == put_bit(old(self).0, 1, val),
    {
        self.0 = write_bit(self.0, 1, val);
    }

    /// Reads `TXEOM`.
    #[verifier::when_used_as_spec(spec_txeom)]
    pub fn txeom(&self) -> (on: bool)
        ensures
            on == self.spec_txeom(),
    {
        read_bit(self.0, 2)
    }

    /// Replaces `TXEOM`.
    pub fn set_txeom(&mut self, val: bool)
        ensures
            final(self).0 == put_bit(old(self).0, 2, val),
    {
        self.0 = write_bit(self.0, 2, val);
    }

    /// The control word with the given flags and nothing else:
    /// `CECEN` is worth 1, `TXSOM` 2 and `TXEOM` 4.
    pub open spec fn word(cecen: bool, txsom: bool, txeom: bool) -> u32 {
        ((if cecen {
            1int
        } else {
            0int
        }) + (if txsom {
            2int
        } else {
            0int
        }) + (if txeom {
            4int
        } else {
            0int
        })) as u32
    }

    /// Builds a control word from its three flags.
    pub fn with(cecen: bool, txsom: bool, txeom: bool) -> (cr: Cr)
        ensures
            cr.0 == Cr::word(cecen, txsom, txeom),
            cr.cecen() == cecen,
            cr.txsom() == txsom,
            cr.txeom() == txeom,
    {
        let mut cr = Cr(0);
        cr.set_cecen(cecen);
        cr.set_txsom(txsom);
        cr.set_txeom(txeom);
        proof {
            let a: u32 = if cecen {
                1
            } else {
                0
            };
            let b: u32 = if txsom {
                1
            } else {
                0
            };
            let c: u32 = if txeom {
                1
            } else {
                0
            };
            let w0: u32 = (0u32 & !(1u32 << 0u32)) | (a << 0u32);
            let w1: u32 = (w0 & !(1u32 << 1u32)) | (b << 1u32);
            let w2: u32 = (w1 & !(1u32 << 2u32)) | (c << 2u32);
            assert(cr.0 == w2);
            assert(w2 == a + 2 * b + 4 * c && ((w2 >> 0u32) & 1 != 0) == (a == 1) && ((w2 >> 1u32)
                & 1 != 0) == (b == 1) && ((w2 >> 2u32) & 1 != 0) == (c == 1)) by (bit_vector)
                requires
                    a <= 1,
                    b <= 1,
                    c <= 1,
                    w0 == (0u32 & !(1u32 << 0u32)) | (a << 0u32),
                    w1 == (w0 & !(1u32 << 1u32)) | (b << 1u32),
                    w2 == (w1 & !(1u32 << 2u32)) | (c << 2u32),
            ;
        }
        cr
    }
}

/// Configuration register. It may be written only while the peripheral is
/// disabled.
#[derive(Clone, Copy, Debug, PartialEq, Eq, Structural)]
pub struct Cfgr(pub u32);

impl Cfgr {
    /// The signal free time: bits 0 to 2.
    pub open spec fn spec_sft(&self) -> u8 {
        bits_of(self.0, 0, 0x07) as u8
    }

    /// Reads `SFT`.
    #[verifier::when_used_as_spec(spec_sft)]
    pub fn sft(&self) -> (val: u8)
        ensures
            val == self.spec_sft(),
            val <= 7,
    {
        let word = self.0;
        assert((word >> 0u32) & 0x07 <= 7) by (bit_vector);
        ((word >> 0u32) & 0x07) as u8
    }

    /// Replaces `SFT` by the low three bits of `val`.
    pub fn set_sft(&mut self, val: u8)
        ensures
            final(self).0 == put_bits(old(self).0, 0, 0x07, val as u32),
    {
        self.0 = (self.0 & !(0x07u32 << 0u32)) | (((val as u32) & 0x07) << 0u32);
    }

    /// The receiver uses the extended tolerance: bit 3.
    pub open spec fn spec_rxtol(&self) -> bool {
        bit_of(self.0, 3)
    }

    /// Reads `RXTOL`.
    #[verifier::when_used_as_spec(spec_rxtol)]
    pub fn rxtol(&self) -> (on: bool)
        ensures
            on == self.spec_rxtol(),
    {
        read_bit(self.0, 3)
    }

    /// Replaces `RXTOL`.
    pub fn set_rxtol(&mut self, val: bool)
        ensures
            final(self).0 == put_bit(old(self).0, 3, val),
    {
        self.0 = write_bit(self.0, 3, val);
    }

    /// A bit rising error stops the reception: bit 4.
    pub open spec fn spec_brestp(&self) -> bool {
        bit_of(self.0, 4)
    }

    /// Reads `BRESTP`.
    #[verifier::when_used_as_spec(spec_brestp)]
    pub fn brestp(&self) -> (on: bool)
        ensures
            on == self.spec_brestp(),
    {
        read_bit(self.0, 4)
    }

    /// Replaces `BRESTP`.
    pub fn set_brestp(&mut self, val: bool)
        ensures
            final(self).0 == put_bit(old(self).0, 4, val),
    {
        self.0 = write_bit(self.0, 4, val);
    }

    /// A bit rising error puts an error bit on the line: bit 5.
    pub open spec fn spec_bregen(&self) -> bool {
        bit_of(self.0, 5)
    }

    /// Reads `BREGEN`.
    #[verifier::when_used_as_spec(spec_bregen)]
    pub fn bregen(&self) -> (on: bool)
        ensures
            on == self.spec_bregen(),
    {
        read_bit(self.0, 5)
    }

    /// Replaces `BREGEN`.
    pub fn set_bregen(&mut self, val: bool)
        ensures
            final(self).0 == put_bit(old(self).0, 5, val),
    {
        self.0 = write_bit(self.0, 5, val);
    }

    /// A long bit period error puts an error bit on the line: bit 6.
    pub open spec fn spec_lbpegen(&self) -> bool {
        bit_of(self.0, 6)
    }

    /// Reads `LBPEGEN`.
    #[verifier::when_used_as_spec(spec_lbpegen)]
    pub fn lbpegen(&self) -> (on: bool)
        ensures
            on == self.spec_lbpegen(),
    {
        read_bit(self.0, 6)
    }

    /// Replaces `LBPEGEN`.
    pub fn set_lbpegen(&mut self, val: bool)
        ensures
            final(self).0 == put_bit(old(self).0, 6, val),
    {
        self.0 = write_bit(self.0, 6, val);
    }

    /// No error bit is put on the line for a faulty broadcast frame: bit 7.
    pub open spec fn spec_brdnogen(&self) -> bool {
        bit_of(self.0, 7)
    }

    /// Reads `BRDNOGEN`.
    #[verifier::when_used_as_spec(spec_brdnogen)]
    pub fn brdnogen(&self) -> (on: bool)
        ensures
            on == self.spec_brdnogen(),
    {
        read_bit(self.0, 7)
    }

    /// Replaces `BRDNOGEN`.
    pub fn set_brdnogen(&mut self, val: bool)
        ensures
            final(self).0 == put_bit(old(self).0, 7, val),
    {
        self.0 = write_bit(self.0, 7, val);
    }

    /// The signal free time is counted from the request to transmit: bit 8.
    pub open spec fn spec_sftopt(&self) -> bool {
        bit_of(self.0, 8)
    }

    /// Reads `SFTOPT`.
    #[verifier::when_used_as_spec(spec_sftopt)]
    pub fn sftopt(&self) -> (on: bool)
        ensures
            on == self.spec_sftopt(),
    {
        read_bit(self.0, 8)
    }

    /// Replaces `SFTOPT`.
    pub fn set_sftopt(&mut self, val: bool)
        ensures
            final(self).0 == put_bit(old(self).0, 8, val),
    {
        self.0 = write_bit(self.0, 8, val);
    }

    /// The own address mask, one bit for each of the addresses 0 to 14:
    /// bits 16 to 30.
    pub open spec fn spec_oar(&self) -> u16 {
        bits_of(self.0, 16, 0x7fff) as u16
    }

    /// Reads `OAR`.
    #[verifier::when_used_as_spec(spec_oar)]
    pub fn oar(&self) -> (val: u16)
        ensures
            val == self.spec_oar(),
            val <= 0x7fff,
    {
        let word = self.0;
        assert((word >> 16u32) & 0x7fff <= 0x7fff) by (bit_vector);
        ((word >> 16u32) & 0x7fff) as u16
    }

    /// Replaces `OAR` by the low fifteen bits of `val`.
    pub fn set_oar(&mut self, val: u16)
        ensures
            final(self).0 == put_bits(old(self).0, 16, 0x7fff, val as u32),
    {
        self.0 = (self.0 & !(0x7fffu32 << 16u32)) | (((val as u32) & 0x7fff) << 16u32);
    }

    /// Listen mode: frames for other devices are received too: bit 31.
    pub open spec fn spec_lstn(&self) -> bool {
        bit_of(self.0, 31)
    }

    /// Reads `LSTN`.
    #[verifier::when_used_as_spec(spec_lstn)]
    pub fn lstn(&self) -> (on: bool)
        ensures
            on == self.spec_lstn(),
    {
        read_bit(self.0, 31)
    }

    /// Replaces `LSTN`.
    pub fn set_lstn(&mut self, val: bool)
        ensures
            final(self).0 == put_bit(old(self).0, 31, val),
    {
        self.0 = write_bit(self.0, 31, val);
    }
}

/// Interrupt enable register: one enable bit for each flag of the status
/// register, at the same position.
#[derive(Clone, Copy, Debug, PartialEq, Eq, Structural)]
pub struct Ier(pub u32);

/// The thirteen flags of the status register, and their enable bits.
pub const ALL_FLAGS: u32 = 0x1fff;

impl Ier {
    /// Every interrupt source enabled.
    pub fn all() -> (ier: Ier)
        ensures
            ier.0 == ALL_FLAGS,
    {
        Ier(ALL_FLAGS)
    }

    /// Every interrupt source masked.
    pub fn none() -> (ier: Ier)
        ensures
            ier.0 == 0,
    {
        Ier(0)
    }
}

/// Interrupt and status register. Reading it changes nothing; a flag is
/// cleared by writing a one to it.
#[derive(Clone, Copy, Debug, PartialEq, Eq, Structural)]
pub struct Isr(pub u32);

impl Isr {
    /// A byte was received and waits in the receive data register: bit 0.
    pub open spec fn spec_rxbr(&self) -> bool {
        bit_of(self.0, 0)
    }

    /// Reads `RXBR`.
    #[verifier::when_used_as_spec(spec_rxbr)]
    pub fn rxbr(&self) -> (on: bool)
        ensures
            on == self.spec_rxbr(),
    {
        read_bit(self.0, 0)
    }

    /// The byte received was the last of its message: bit 1.
    pub open spec fn spec_rxend(&self) -> bool {
        bit_of(self.0, 1)
    }

    /// Reads `RXEND`.
    #[verifier::when_used_as_spec(spec_rxend)]
    pub fn rxend(&self) -> (on: bool)
        ensures
            on == self.spec_rxend(),
    {
        read_bit(self.0, 1)
    }

    /// A byte arrived before the previous one was taken: bit 2.
    pub open spec fn spec_rxovr(&self) -> bool {
        bit_of(self.0, 2)
    }

    /// Reads `RXOVR`.
    #[verifier::when_used_as_spec(spec_rxovr)]
    pub fn rxovr(&self) -> (on: bool)
        ensures
            on == self.spec_rxovr(),
    {
        read_bit(self.0, 2)
    }

    /// A data bit rose at the wrong time: bit 3.
    pub open spec fn spec_bre(&self) -> bool {
        bit_of(self.0, 3)
    }

    /// Reads `BRE`.
    #[verifier::when_used_as_spec(spec_bre)]
    pub fn bre(&self) -> (on: bool)
        ensures
            on == self.spec_bre(),
    {
        read_bit(self.0, 3)
    }

    /// A data bit ended too early: bit 4.
    pub open spec fn spec_sbpe(&self) -> bool {
        bit_of(self.0, 4)
    }

    /// Reads `SBPE`.
    #[verifier::when_used_as_spec(spec_sbpe)]
    pub fn sbpe(&self) -> (on: bool)
        ensures
            on == self.spec_sbpe(),
    {
        read_bit(self.0, 4)
    }

    /// A data bit lasted too long: bit 5.
    pub open spec fn spec_lbpe(&self) -> bool {
        bit_of(self.0, 5)
    }

    /// Reads `LBPE`.
    #[verifier::when_used_as_spec(spec_lbpe)]
    pub fn lbpe(&self) -> (on: bool)
        ensures
            on == self.spec_lbpe(),
    {
        read_bit(self.0, 5)
    }

    /// No acknowledge was seen for a received byte: bit 6.
    pub open spec fn spec_rxacke(&self) -> bool {
        bit_of(self.0, 6)
    }

    /// Reads `RXACKE`.
    #[verifier::when_used_as_spec(spec_rxacke)]
    pub fn rxacke(&self) -> (on: bool)
        ensures
            on == self.spec_rxacke(),
    {
        read_bit(self.0, 6)
    }

    /// Another initiator won the bus: bit 7.
    pub open spec fn spec_arblst(&self) -> bool {
        bit_of(self.0, 7)
    }

    /// Reads `ARBLST`.
    #[verifier::when_used_as_spec(spec_arblst)]
    pub fn arblst(&self) -> (on: bool)
        ensures
            on == self.spec_arblst(),
    {
        read_bit(self.0, 7)
    }

    /// The next byte to send is wanted in the transmit data register: bit 8.
    pub open spec fn spec_txbr(&self) -> bool {
        bit_of(self.0, 8)
    }

    /// Reads `TXBR`.
    #[verifier::when_used_as_spec(spec_txbr)]
    pub fn txbr(&self) -> (on: bool)
        ensures
            on == self.spec_txbr(),
    {
        read_bit(self.0, 8)
    }

    /// The last byte of the message was sent and acknowledged: bit 9.
    pub open spec fn spec_txend(&self) -> bool {
        bit_of(self.0, 9)
    }

    /// Reads `TXEND`.
    #[verifier::when_used_as_spec(spec_txend)]
    pub fn txend(&self) -> (on: bool)
        ensures
            on == self.spec_txend(),
    {
        read_bit(self.0, 9)
    }

    /// The next byte to send was not supplied in time: bit 10.
    pub open spec fn spec_txudr(&self) -> bool {
        bit_of(self.0, 10)
    }

    /// Reads `TXUDR`.
    #[verifier::when_used_as_spec(spec_txudr)]
    pub fn txudr(&self) -> (on: bool)
        ensures
            on == self.spec_txudr(),
    {
        read_bit(self.0, 10)
    }

    /// The line was held low while the transmitter had released it: bit 11.
    pub open spec fn spec_txerr(&self) -> bool {
        bit_of(self.0, 11)
    }

    /// Reads `TXERR`.
    #[verifier::when_used_as_spec(spec_txerr)]
    pub fn txerr(&self) -> (on: bool)
        ensures
            on == self.spec_txerr(),
    {
        read_bit(self.0, 11)
    }

    /// A byte that was sent was not acknowledged: bit 12.
    pub open spec fn spec_txacke(&self) -> bool {
        bit_of(self.0, 12)
    }

    /// Reads `TXACKE`.
    #[verifier::when_used_as_spec(spec_txacke)]
    pub fn txacke(&self) -> (on: bool)
        ensures
            on == self.spec_txacke(),
    {
        read_bit(self.0, 12)
    }

    /// The flags that are set, without the reserved bits of the word.
    pub open spec fn spec_flags(&self) -> u32 {
        self.0 & ALL_FLAGS
    }

    /// The flags that are set: the word to write back to clear exactly what
    /// was read.
    #[verifier::when_used_as_spec(spec_flags)]
    pub fn flags(&self) -> (word: u32)
        ensures
            word == self.spec_flags(),
    {
        self.0 & ALL_FLAGS
    }
}

} // verus!
