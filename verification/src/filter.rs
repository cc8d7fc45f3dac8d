use vstd::prelude::*;

use crate::frame::Frame;
use crate::frame::NodeIdentity;
use crate::frame::FRAME_MIN_LEN;
use crate::frame::MAC_LEN;
use crate::frame::dest_field;
use crate::frame::source_field;

verus! {

/// The two directions a frame can travel through the bridge.
#[derive(Clone, Copy, Debug, PartialEq, Eq, Structural)]
pub enum Direction {
    /// Captured on the local interface, bound for the backhaul.
    LocalToBackhaul,
    /// Delivered by the backhaul, bound for the local interface.
    BackhaulToLocal,
}

/// Whether a frame should be forwarded in the given direction.
///
/// Toward the backhaul, a frame already addressed to the local node has no
/// reason to leave the segment; toward the local interface, a frame that
/// originated locally and was echoed back by the broker must not be
/// re-injected, which would create a forwarding loop.
pub open spec fn spec_should_forward(frame: Seq<u8>, own: Seq<u8>, direction: Direction) -> bool {
    match direction {
        Direction::LocalToBackhaul => dest_field(frame) != own,
        Direction::BackhaulToLocal => source_field(frame) != own,
    }
}

/// Compares the `MAC_LEN` frame bytes starting at `offset` with the node's
/// own address.
fn field_matches(frame: &Frame, offset: usize, own: &NodeIdentity) -> (r: bool)
    requires
        offset + MAC_LEN <= frame@.len(),
    ensures
        r == (frame@.subrange(offset as int, offset + MAC_LEN) == own@),
{
    proof {
        own.lemma_len();
    }
    let bytes = frame.as_bytes();
    let n: usize = bytes.len();
    let mut i: usize = 0;
    while i < MAC_LEN
        invariant
            i <= MAC_LEN,
            offset + MAC_LEN <= n,
            n == bytes@.len(),
            bytes@ == frame@,
            own@.len() == MAC_LEN,
            forall|j: int| 0 <= j < i ==> bytes@[offset + j] == own@[j],
        decreases MAC_LEN - i,
    {
        if bytes[offset + i] != own.byte_at(i) {
            proof {
                assert(frame@.subrange(offset as int, offset + MAC_LEN)[i as int]
                    == frame@[offset + i]);
            }
            return false;
        }
        i += 1;
    }
    proof {
        assert(frame@.subrange(offset as int, offset + MAC_LEN) =~= own@);
    }
    true
}

/// The per-frame loop-suppression predicate, evaluated on every pass through
/// either pump.
pub fn should_forward(frame: &Frame, own: &NodeIdentity, direction: Direction) -> (r: bool)
    requires
        frame.wf(),
    ensures
        r == spec_should_forward(frame@, own@, direction),
{
    match direction {
        Direction::LocalToBackhaul => !field_matches(frame, 4, own),
        Direction::BackhaulToLocal => !field_matches(frame, 10, own),
    }
}

/// Destination self-suppression: a frame whose destination field is the
/// node's own address is never forwarded toward the backhaul.
pub proof fn lemma_destination_self_suppression(frame: Seq<u8>, own: Seq<u8>)
    requires
        frame.len() >= FRAME_MIN_LEN,
        dest_field(frame) == own,
    ensures
        !spec_should_forward(frame, own, Direction::LocalToBackhaul),
{
}

/// Source self-suppression: a frame whose source field is the node's own
/// address, echoed back by the broker, is never forwarded to the local
/// interface.
pub proof fn lemma_source_self_suppression(frame: Seq<u8>, own: Seq<u8>)
    requires
        frame.len() >= FRAME_MIN_LEN,
        source_field(frame) == own,
    ensures
        !spec_should_forward(frame, own, Direction::BackhaulToLocal),
{
}

} // verus!
