use vstd::prelude::*;
use vstd::slice::slice_to_vec;

verus! {

/// The single-byte negative acknowledgment frame.
#[derive(Debug, Clone, PartialEq, Eq, Structural)]
pub struct NackFrame;

impl NackFrame {
    /// The length of a negative acknowledgment frame in bytes.
    pub const BYTE_LEN: usize = 1;

    /// The byte value representing a negative acknowledgment.
    pub const NACK_BYTE: u8 = 0xA2;

    /// The wire bytes of a negative acknowledgment frame.
    pub open spec fn encoded(self) -> Seq<u8> {
        seq![Self::NACK_BYTE]
    }

    /// Create a new negative acknowledgment frame.
    pub fn new() -> (r: Self)
        ensures
            r == (NackFrame {}),
    {
        NackFrame
    }

    /// Convert the negative acknowledgment frame to a byte array.
    pub fn to_bytes(&self) -> (r: [u8; 1])
        ensures
            r@ == self.encoded(),
    {
        let r = [NackFrame::NACK_BYTE];
        assert(r@ =~= self.encoded());
        r
    }
}

impl Default for NackFrame {
    fn default() -> (r: Self)
        ensures
            r == (NackFrame {}),
    {
        Self::new()
    }
}

/// Convert a negative acknowledgment frame into a byte vector.
impl From<NackFrame> for Vec<u8> {
    fn from(frame: NackFrame) -> (r: Vec<u8>)
        ensures
            r@ == frame.encoded(),
    {
        slice_to_vec(&frame.to_bytes())
    }
}

/// Convert a reference to a negative acknowledgment frame into a byte vector.
impl<'a> From<&'a NackFrame> for Vec<u8> {
    fn from(frame: &'a NackFrame) -> (r: Vec<u8>)
        ensures
            r@ == frame.encoded(),
    {
        slice_to_vec(&frame.to_bytes())
    }
}

impl vstd::std_specs::convert::FromSpecImpl<NackFrame> for Vec<u8> {
    open spec fn obeys_from_spec() -> bool {
        false
    }

    open spec fn from_spec(v: NackFrame) -> Vec<u8> {
        vstd::pervasive::arbitrary()
    }
}

impl<'a> vstd::std_specs::convert::FromSpecImpl<&'a NackFrame> for Vec<u8> {
    open spec fn obeys_from_spec() -> bool {
        false
    }

    open spec fn from_spec(v: &'a NackFrame) -> Vec<u8> {
        vstd::pervasive::arbitrary()
    }
}

} // verus!
