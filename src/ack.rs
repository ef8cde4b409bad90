use vstd::prelude::*;
use vstd::slice::slice_to_vec;

verus! {

/// The single-byte acknowledgment frame.
#[derive(Debug, Clone, PartialEq, Eq, Structural)]
pub struct AckFrame;

impl AckFrame {
    /// The length of an acknowledgment frame in bytes.
    pub const BYTE_LEN: usize = 1;

    /// The byte value representing an acknowledgment.
    pub const ACK_BYTE: u8 = 0xE5;

    /// The wire bytes of an acknowledgment frame.
    pub open spec fn encoded(self) -> Seq<u8> {
        seq![Self::ACK_BYTE]
    }

    /// Create a new acknowledgment frame.
    pub fn new() -> (r: Self)
        ensures
            r == (AckFrame {}),
    {
        AckFrame
    }

    /// Convert the acknowledgment frame to a byte array.
    pub fn to_bytes(&self) -> (r: [u8; 1])
        ensures
            r@ == self.encoded(),
    {
        let r = [AckFrame::ACK_BYTE];
        assert(r@ =~= self.encoded());
        r
    }
}

impl Default for AckFrame {
    fn default() -> (r: Self)
        ensures
            r == (AckFrame {}),
    {
        Self::new()
    }
}

/// Convert an acknowledgment frame into a byte vector.
impl From<AckFrame> for Vec<u8> {
    fn from(frame: AckFrame) -> (r: Vec<u8>)
        ensures
            r@ == frame.encoded(),
    {
        slice_to_vec(&frame.to_bytes())
    }
}

/// Convert a reference to an acknowledgment frame into a byte vector.
impl<'a> From<&'a AckFrame> for Vec<u8> {
    fn from(frame: &'a AckFrame) -> (r: Vec<u8>)
        ensures
            r@ == frame.encoded(),
    {
        slice_to_vec(&frame.to_bytes())
    }
}

impl vstd::std_specs::convert::FromSpecImpl<AckFrame> for Vec<u8> {
    open spec fn obeys_from_spec() -> bool {
        false
    }

    open spec fn from_spec(v: AckFrame) -> Vec<u8> {
        vstd::pervasive::arbitrary()
    }
}

impl<'a> vstd::std_specs::convert::FromSpecImpl<&'a AckFrame> for Vec<u8> {
    open spec fn obeys_from_spec() -> bool {
        false
    }

    open spec fn from_spec(v: &'a AckFrame) -> Vec<u8> {
        vstd::pervasive::arbitrary()
    }
}

} // verus!
