use crate::checksum::{checksum_of, lemma_checksum_pair};
use vstd::prelude::*;
use vstd::slice::slice_to_vec;

verus! {

/// A short frame: start byte, control and address fields, checksum and stop
/// byte.
///
/// The checksum is computed by [`ShortFrame::new`] and then emitted as stored
/// by [`ShortFrame::to_bytes`]; it is never re-derived.
#[derive(Debug, Clone, PartialEq, Eq, Structural)]
pub struct ShortFrame {
    /// The start byte of the short frame.
    pub start_byte: u8,
    /// The control field of the short frame.
    pub control: u8,
    /// The address field of the short frame.
    pub address: u8,
    /// The checksum of the short frame.
    pub checksum: u8,
    /// The stop byte of the short frame.
    pub stop_byte: u8,
}

impl ShortFrame {
    /// The length of a short frame in bytes.
    pub const BYTE_LEN: usize = 5;

    /// The start byte constant of a short frame.
    pub const START_BYTE: u8 = 0x10;

    /// The stop byte constant of a short frame.
    pub const STOP_BYTE: u8 = 0x16;

    /// The frame holds the fields that [`ShortFrame::new`] derives from its
    /// control and address.
    pub open spec fn well_formed(self) -> bool {
        &&& self.start_byte == Self::START_BYTE
        &&& self.stop_byte == Self::STOP_BYTE
        &&& self.checksum == checksum_of(seq![self.control, self.address])
    }

    /// The wire bytes of the frame, built from its stored fields.
    pub open spec fn encoded(self) -> Seq<u8> {
        seq![self.start_byte, self.control, self.address, self.checksum, self.stop_byte]
    }

    /// Create a new short frame.
    ///
    /// Create a new short frame with the given control and address fields.
    ///
    /// The checksum is calculated automatically.
    pub fn new(control: u8, address: u8) -> (r: Self)
        ensures
            r.control == control,
            r.address == address,
            r.checksum == control.wrapping_add(address),
            r.well_formed(),
    {
        let checksum = control.wrapping_add(address);
        proof {
            lemma_checksum_pair(control, address);
        }
        ShortFrame {
            start_byte: Self::START_BYTE,
            control,
            address,
            checksum,
            stop_byte: Self::STOP_BYTE,
        }
    }

    /// Convert the short frame to a byte array.
    pub fn to_bytes(&self) -> (r: [u8; 5])
        ensures
            r@ == self.encoded(),
    {
        let r = [self.start_byte, self.control, self.address, self.checksum, self.stop_byte];
        assert(r@ =~= self.encoded());
        r
    }
}

/// Convert a short frame into a byte vector.
impl From<ShortFrame> for Vec<u8> {
    fn from(frame: ShortFrame) -> (r: Vec<u8>)
        ensures
            r@ == frame.encoded(),
    {
        slice_to_vec(&frame.to_bytes())
    }
}

/// Convert a reference to a short frame into a byte vector.
impl<'a> From<&'a ShortFrame> for Vec<u8> {
    fn from(frame: &'a ShortFrame) -> (r: Vec<u8>)
        ensures
            r@ == frame.encoded(),
    {
        slice_to_vec(&frame.to_bytes())
    }
}

impl vstd::std_specs::convert::FromSpecImpl<ShortFrame> for Vec<u8> {
    open spec fn obeys_from_spec() -> bool {
        false
    }

    open spec fn from_spec(v: ShortFrame) -> Vec<u8> {
        vstd::pervasive::arbitrary()
    }
}

impl<'a> vstd::std_specs::convert::FromSpecImpl<&'a ShortFrame> for Vec<u8> {
    open spec fn obeys_from_spec() -> bool {
        false
    }

    open spec fn from_spec(v: &'a ShortFrame) -> Vec<u8> {
        vstd::pervasive::arbitrary()
    }
}

/// A short frame made from a control and an address byte carries their
/// wrapping sum as checksum and encodes to exactly start marker, control,
/// address, checksum and stop marker.
pub proof fn lemma_short_frame_encoding(control: u8, address: u8, f: ShortFrame)
    requires
        f.control == control,
        f.address == address,
        f.well_formed(),
    ensures
        f.checksum == control.wrapping_add(address),
        f.encoded() == seq![0x10u8, control, address, control.wrapping_add(address), 0x16u8],
{
    lemma_checksum_pair(control, address);
}

/// Every well-formed short frame encodes with its start marker as the first
/// byte and its stop marker as the last byte.
pub proof fn lemma_short_frame_markers(f: ShortFrame)
    requires
        f.well_formed(),
    ensures
        f.encoded()[0] == ShortFrame::START_BYTE,
        f.encoded().last() == ShortFrame::STOP_BYTE,
{
}

} // verus!
