use vstd::prelude::*;

verus! {

/// Least number of bytes a well-formed frame holds: a 4-byte interface
/// metadata prefix followed by the 6-byte destination and 6-byte source
/// link-layer address fields.
pub const FRAME_MIN_LEN: usize = 16;

/// Length of a link-layer (MAC) address in bytes.
pub const MAC_LEN: usize = 6;

/// The destination link-layer address field of a raw frame: bytes [4, 10).
pub open spec fn dest_field(bytes: Seq<u8>) -> Seq<u8> {
    bytes.subrange(4, 10)
}

/// The source link-layer address field of a raw frame: bytes [10, 16).
pub open spec fn source_field(bytes: Seq<u8>) -> Seq<u8> {
    bytes.subrange(10, 16)
}

/// A captured frame was shorter than the minimum header length.
#[derive(Clone, Copy, Debug, PartialEq, Eq, Structural)]
pub struct UndersizedFrameError;

/// One raw link-layer frame, interface metadata prefix included.
///
/// Structurally valid by construction: every value holds at least
/// `FRAME_MIN_LEN` bytes, so its address fields are always present.
#[derive(Debug)]
pub struct Frame {
    bytes: Vec<u8>,
}

impl View for Frame {
    type V = Seq<u8>;

    closed spec fn view(&self) -> Seq<u8> {
        self.bytes@
    }
}

impl Frame {
    /// Structural invariant: the frame is long enough to carry the interface
    /// prefix and both address fields.
    pub open spec fn wf(self) -> bool {
        self@.len() >= FRAME_MIN_LEN
    }

    /// Accepts the captured bytes as a frame, or rejects an undersized read.
    pub fn from_bytes(bytes: Vec<u8>) -> (r: Result<Frame, UndersizedFrameError>)
        ensures
            match r {
                Ok(f) => f@ == bytes@ && f.wf(),
                Err(_) => bytes@.len() < FRAME_MIN_LEN,
            },
    {
        if bytes.len() >= FRAME_MIN_LEN {
            Ok(Frame { bytes })
        } else {
            Err(UndersizedFrameError)
        }
    }

    /// The raw bytes of the frame, verbatim.
    pub fn as_bytes(&self) -> (r: &Vec<u8>)
        ensures
            r@ == self@,
    {
        &self.bytes
    }

    /// Gives the raw bytes up, verbatim.
    pub fn into_bytes(self) -> (r: Vec<u8>)
        ensures
            r@ == self@,
    {
        self.bytes
    }
}

/// The 6-byte link-layer address of the local interface, resolved once at
/// startup and used only as a comparison key by the loop filter.
pub struct NodeIdentity {
    bytes: [u8; 6],
}

impl View for NodeIdentity {
    type V = Seq<u8>;

    closed spec fn view(&self) -> Seq<u8> {
        self.bytes@
    }
}

impl NodeIdentity {
    pub fn new(bytes: [u8; 6]) -> (r: NodeIdentity)
        ensures
            r@ == bytes@,
    {
        NodeIdentity { bytes }
    }

    /// An address is always exactly `MAC_LEN` bytes.
    pub proof fn lemma_len(&self)
        ensures
            self@.len() == MAC_LEN,
    {
    }

    /// The address byte at the given position.
    pub fn byte_at(&self, i: usize) -> (r: u8)
        requires
            i < MAC_LEN,
        ensures
            r == self@[i as int],
    {
        self.bytes[i]
    }
}

} // verus!
