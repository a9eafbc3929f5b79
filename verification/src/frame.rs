//! CEC frames: a header byte and up to fifteen bytes of payload.

use vstd::prelude::*;

verus! {

/// The longest frame the bus carries, header included.
pub const MAX_FRAME_LEN: usize = 16;

/// The logical address that every device listens to.
pub const BROADCAST: u8 = 15;

/// A frame has its header and at most `MAX_FRAME_LEN` bytes in all.
pub open spec fn frame_len_ok(bytes: Seq<u8>) -> bool {
    1 <= bytes.len() <= MAX_FRAME_LEN
}

/// The logical address of the sender: the high nibble of the header.
pub open spec fn source_of(header: u8) -> u8 {
    (header / 16) as u8
}

/// The logical address the frame is sent to: the low nibble of the header.
pub open spec fn destination_of(header: u8) -> u8 {
    (header % 16) as u8
}

/// The header that names `source` and `destination`, each taken modulo 16.
pub open spec fn header_of(source: u8, destination: u8) -> u8 {
    ((source % 16) * 16 + destination % 16) as u8
}

/// Reads the sender's address from a header byte.
pub fn header_source(header: u8) -> (address: u8)
    ensures
        address == source_of(header),
        address <= 15,
{
    assert(header >> 4 == header / 16) by (bit_vector);
    header >> 4
}

/// Reads the destination address from a header byte.
pub fn header_destination(header: u8) -> (address: u8)
    ensures
        address == destination_of(header),
        address <= 15,
{
    assert(header & 0x0f == header % 16) by (bit_vector);
    header & 0x0f
}

/// Builds the header byte for a sender and a destination. Only the low
/// nibble of each address is used.
pub fn header_byte(source: u8, destination: u8) -> (header: u8)
    ensures
        header == header_of(source, destination),
{
    assert(((source & 0x0f) << 4) | (destination & 0x0f) == (source % 16) * 16 + destination % 16)
        by (bit_vector);
    ((source & 0x0f) << 4) | (destination & 0x0f)
}

/// A header built from two logical addresses gives both back.
pub proof fn header_round_trip(source: u8, destination: u8)
    requires
        source <= 15,
        destination <= 15,
    ensures
        source_of(header_of(source, destination)) == source,
        destination_of(header_of(source, destination)) == destination,
{
}

/// One CEC message as it travels on the bus.
///
/// The bytes are public and unchecked: a frame is valid when it holds one to
/// sixteen bytes, and `transmit` refuses the others. Frames that the
/// controller hands out are always valid.
#[derive(Clone, Debug, PartialEq, Eq)]
pub struct Frame {
    /// The header, then opcode and operands.
    pub bytes: Vec<u8>,
}

impl View for Frame {
    type V = Seq<u8>;

    open spec fn view(&self) -> Seq<u8> {
        self.bytes@
    }
}

impl Frame {
    /// Wraps the bytes of a message.
    pub fn new(bytes: Vec<u8>) -> (frame: Frame)
        ensures
            frame@ == bytes@,
    {
        Frame { bytes }
    }

    /// Tells whether the frame has a header and fits the bus.
    pub fn is_valid(&self) -> (ok: bool)
        ensures
            ok == frame_len_ok(self@),
    {
        1 <= self.bytes.len() && self.bytes.len() <= MAX_FRAME_LEN
    }

    /// The sender's logical address, if the frame has a header.
    pub fn source(&self) -> (address: Option<u8>)
        ensures
            address == if self@.len() > 0 {
                Some(source_of(self@[0]))
            } else {
                None
            },
    {
        if self.bytes.len() > 0 {
            Some(header_source(self.bytes[0]))
        } else {
            None
        }
    }

    /// The destination's logical address, if the frame has a header.
    pub fn destination(&self) -> (address: Option<u8>)
        ensures
            address == if self@.len() > 0 {
                Some(destination_of(self@[0]))
            } else {
                None
            },
    {
        if self.bytes.len() > 0 {
            Some(header_destination(self.bytes[0]))
        } else {
            None
        }
    }
}

} // verus!
