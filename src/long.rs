use crate::checksum::{
    checksum_of, lemma_checksum_is_wrapping_sum, lemma_checksum_pair, lemma_checksum_push,
    wrapping_sum,
};
use vstd::arithmetic::div_mod::lemma_add_mod_noop;
use vstd::prelude::*;

verus! {

/// A long frame: a header with a declared length, control and address
/// fields, a variable payload, a checksum and a stop byte.
///
/// The checksum and length fields are computed by [`LongFrame::new`] and then
/// emitted as stored by [`LongFrame::to_bytes`]; they are never re-derived.
#[derive(Debug, Clone)]
pub struct LongFrame {
    /// The start byte of the long frame.
    pub start_byte: u8,
    /// The length field of the long frame.
    pub length: u8,
    /// The repeated length field of the long frame.
    pub length_repeat: u8,
    /// The repeated start byte of the long frame.
    pub start_byte_repeat: u8,
    /// The control field of the long frame.
    pub control: u8,
    /// The address field of the long frame.
    pub address: u8,
    /// The payload of the long frame.
    pub payload: Vec<u8>,
    /// The checksum of the long frame.
    pub checksum: u8,
    /// The stop byte of the long frame.
    pub stop_byte: u8,
}

impl LongFrame {
    /// The base length of a long frame without payload.
    pub const BASE_LEN: usize = 8;

    /// The start byte constant of a long frame.
    pub const START_BYTE: u8 = 0x68;

    /// The stop byte constant of a long frame.
    pub const STOP_BYTE: u8 = 0x16;

    /// The length field for a payload of `payload_len` bytes: the payload
    /// plus the control and address fields, kept to its low byte.
    pub open spec fn length_field(payload_len: nat) -> u8 {
        ((payload_len + 2) % 256) as u8
    }

    /// The bytes that the checksum of a long frame covers.
    pub open spec fn covered(control: u8, address: u8, payload: Seq<u8>) -> Seq<u8> {
        seq![control, address] + payload
    }

    /// The frame holds the fields that [`LongFrame::new`] derives from its
    /// control, address and payload.
    pub open spec fn well_formed(self) -> bool {
        &&& self.start_byte == Self::START_BYTE
        &&& self.start_byte_repeat == Self::START_BYTE
        &&& self.stop_byte == Self::STOP_BYTE
        &&& self.length == Self::length_field(self.payload@.len())
        &&& self.length_repeat == self.length
        &&& self.checksum == checksum_of(Self::covered(self.control, self.address, self.payload@))
    }

    /// The fixed six header bytes, in wire order.
    pub open spec fn header(self) -> Seq<u8> {
        seq![
            self.start_byte,
            self.length,
            self.length_repeat,
            self.start_byte_repeat,
            self.control,
            self.address,
        ]
    }

    /// The wire bytes of the frame, built from its stored fields.
    pub open spec fn encoded(self) -> Seq<u8> {
        self.header() + self.payload@ + seq![self.checksum, self.stop_byte]
    }

    /// Create a new long frame.
    ///
    /// Create a new long frame with the given control and address fields, and payload.
    ///
    /// The length and checksum are calculated automatically. The length field
    /// holds a single byte: a payload longer than 253 bytes does not fit it,
    /// and the field then keeps the low byte of the count.
    pub fn new(control: u8, address: u8, payload: Vec<u8>) -> (r: Self)
        ensures
            r.control == control,
            r.address == address,
            r.payload@ == payload@,
            r.well_formed(),
    {
        let length = ((payload.len() % 256) as u8).wrapping_add(2);
        proof {
            lemma_add_mod_noop(payload@.len() as int, 2, 256);
        }
        let mut checksum = control.wrapping_add(address);
        proof {
            lemma_checksum_pair(control, address);
            assert(Self::covered(control, address, payload@.take(0)) =~= seq![control, address]);
        }
        let mut i: usize = 0;
        while i < payload.len()
            invariant
                i <= payload@.len(),
                checksum == checksum_of(Self::covered(control, address, payload@.take(i as int))),
            decreases payload@.len() - i,
        {
            proof {
                let before = Self::covered(control, address, payload@.take(i as int));
                lemma_checksum_push(before, payload@[i as int]);
                assert(before.push(payload@[i as int]) =~= Self::covered(
                    control,
                    address,
                    payload@.take(i + 1),
                ));
            }
            checksum = checksum.wrapping_add(payload[i]);
            i = i + 1;
        }
        assert(payload@.take(i as int) =~= payload@);
        LongFrame {
            start_byte: Self::START_BYTE,
            length,
            length_repeat: length,
            start_byte_repeat: Self::START_BYTE,
            control,
            address,
            payload,
            checksum,
            stop_byte: Self::STOP_BYTE,
        }
    }

    /// Convert the long frame to a byte vector.
    pub fn to_bytes(&self) -> (r: Vec<u8>)
        ensures
            r@ == self.encoded(),
    {
        let mut out: Vec<u8> = Vec::with_capacity(Self::BASE_LEN.saturating_add(self.payload.len()));
        out.push(self.start_byte);
        out.push(self.length);
        out.push(self.length_repeat);
        out.push(self.start_byte_repeat);
        out.push(self.control);
        out.push(self.address);
        assert(out@ =~= self.header());
        let mut i: usize = 0;
        while i < self.payload.len()
            invariant
                i <= self.payload@.len(),
                out@ == self.header() + self.payload@.take(i as int),
            decreases self.payload@.len() - i,
        {
            out.push(self.payload[i]);
            i = i + 1;
            assert(out@ =~= self.header() + self.payload@.take(i as int));
        }
        assert(self.payload@.take(i as int) =~= self.payload@);
        out.push(self.checksum);
        out.push(self.stop_byte);
        assert(out@ =~= self.encoded());
        out
    }
}

/// Convert a long frame into a byte vector.
impl From<LongFrame> for Vec<u8> {
    fn from(frame: LongFrame) -> (r: Vec<u8>)
        ensures
            r@ == frame.encoded(),
    {
        frame.to_bytes()
    }
}

/// Convert a reference to a long frame into a byte vector.
impl<'a> From<&'a LongFrame> for Vec<u8> {
    fn from(frame: &'a LongFrame) -> (r: Vec<u8>)
        ensures
            r@ == frame.encoded(),
    {
        frame.to_bytes()
    }
}

impl vstd::std_specs::convert::FromSpecImpl<LongFrame> for Vec<u8> {
    open spec fn obeys_from_spec() -> bool {
        false
    }

    open spec fn from_spec(v: LongFrame) -> Vec<u8> {
        vstd::pervasive::arbitrary()
    }
}

impl<'a> vstd::std_specs::convert::FromSpecImpl<&'a LongFrame> for Vec<u8> {
    open spec fn obeys_from_spec() -> bool {
        false
    }

    open spec fn from_spec(v: &'a LongFrame) -> Vec<u8> {
        vstd::pervasive::arbitrary()
    }
}

/// Two long frames are equal when all their fields are.
impl PartialEq for LongFrame {
    fn eq(&self, other: &LongFrame) -> (r: bool) {
        let same_payload = self.payload == other.payload;
        proof {
            if same_payload {
                assert(self.payload@ =~= other.payload@);
            }
        }
        let same_header = self.start_byte == other.start_byte
            && self.length == other.length
            && self.length_repeat == other.length_repeat
            && self.start_byte_repeat == other.start_byte_repeat
            && self.control == other.control
            && self.address == other.address;
        let same_trailer = self.checksum == other.checksum && self.stop_byte == other.stop_byte;
        same_header && same_payload && same_trailer
    }
}

impl vstd::std_specs::cmp::PartialEqSpecImpl for LongFrame {
    open spec fn obeys_eq_spec() -> bool {
        true
    }

    open spec fn eq_spec(&self, other: &LongFrame) -> bool {
        &&& self.start_byte == other.start_byte
        &&& self.length == other.length
        &&& self.length_repeat == other.length_repeat
        &&& self.start_byte_repeat == other.start_byte_repeat
        &&& self.control == other.control
        &&& self.address == other.address
        &&& self.payload@ == other.payload@
        &&& self.checksum == other.checksum
        &&& self.stop_byte == other.stop_byte
    }
}

impl Eq for LongFrame {

}

/// A long frame made from a control byte, an address byte and a payload of at
/// most 253 bytes declares the payload length plus two in both length fields,
/// carries as checksum the wrapping sum of control, address and every payload
/// byte, and encodes to eight bytes more than its payload.
pub proof fn lemma_long_frame_fields(control: u8, address: u8, payload: Seq<u8>, f: LongFrame)
    requires
        f.control == control,
        f.address == address,
        f.payload@ == payload,
        f.well_formed(),
        payload.len() <= 253,
    ensures
        f.length == payload.len() + 2,
        f.length_repeat == f.length,
        f.checksum == wrapping_sum(0, seq![control, address] + payload),
        f.encoded().len() == 8 + payload.len(),
        f.encoded()[1] == f.length,
        f.encoded()[2] == f.length,
{
    lemma_checksum_is_wrapping_sum(seq![control, address] + payload);
}

/// Every well-formed long frame encodes with its start marker as the first and
/// the fourth byte and its stop marker as the last byte.
pub proof fn lemma_long_frame_markers(f: LongFrame)
    requires
        f.well_formed(),
    ensures
        f.encoded()[0] == LongFrame::START_BYTE,
        f.encoded()[3] == LongFrame::START_BYTE,
        f.encoded().last() == LongFrame::STOP_BYTE,
{
}

} // verus!
