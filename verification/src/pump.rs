use vstd::prelude::*;

use crate::codec::MalformedPayloadError;
use crate::codec::base64_encode;
use crate::codec::decode;
use crate::codec::spec_decode;
use crate::codec::transport_text_of;
use crate::fabric::FrameQueue;
use crate::fabric::queue_frames;
use crate::filter::Direction;
use crate::filter::should_forward;
use crate::filter::spec_should_forward;
use crate::frame::Frame;
use crate::frame::NodeIdentity;
use crate::frame::UndersizedFrameError;
use crate::frame::FRAME_MIN_LEN;

verus! {

/// What the loop filter decided about one accepted frame.
#[derive(Clone, Copy, Debug, PartialEq, Eq, Structural)]
pub enum ForwardDecision {
    /// The frame passed the filter and was pushed onto the queue.
    Forwarded,
    /// The frame was the node's own traffic and was dropped.
    Suppressed,
}

/// Capture side of the local interface pump: takes the bytes of one read
/// from the local interface, rejects an undersized read, evaluates the loop
/// filter toward the backhaul, and pushes a passing frame onto the
/// local-to-backhaul queue.
///
/// An undersized or suppressed frame never reaches the queue.
pub fn accept_captured(
    queue: &mut FrameQueue,
    bytes: Vec<u8>,
    own: &NodeIdentity,
) -> (r: Result<ForwardDecision, UndersizedFrameError>)
    ensures
        match r {
            Ok(ForwardDecision::Forwarded) => {
                &&& bytes@.len() >= FRAME_MIN_LEN
                &&& spec_should_forward(bytes@, own@, Direction::LocalToBackhaul)
                &&& queue_frames(*final(queue)) == queue_frames(*old(queue)).push(bytes@)
            },
            Ok(ForwardDecision::Suppressed) => {
                &&& bytes@.len() >= FRAME_MIN_LEN
                &&& !spec_should_forward(bytes@, own@, Direction::LocalToBackhaul)
                &&& queue_frames(*final(queue)) == queue_frames(*old(queue))
            },
            Err(_) => {
                &&& bytes@.len() < FRAME_MIN_LEN
                &&& queue_frames(*final(queue)) == queue_frames(*old(queue))
            },
        },
{
    match Frame::from_bytes(bytes) {
        Ok(frame) => {
            if should_forward(&frame, own, Direction::LocalToBackhaul) {
                queue.push(frame.into_bytes());
                Ok(ForwardDecision::Forwarded)
            } else {
                Ok(ForwardDecision::Suppressed)
            }
        },
        Err(e) => Err(e),
    }
}

/// Receive side of the backhaul pump: takes one payload delivered on a
/// subscribed topic, decodes it, evaluates the loop filter toward the local
/// interface, and pushes a passing frame onto the backhaul-to-local queue.
///
/// A malformed payload is dropped without touching the queue; the caller's
/// loop goes on with the next delivery.
pub fn accept_delivery(
    queue: &mut FrameQueue,
    payload: &str,
    own: &NodeIdentity,
) -> (r: Result<ForwardDecision, MalformedPayloadError>)
    ensures
        match r {
            Ok(ForwardDecision::Forwarded) => {
                &&& spec_decode(payload@) matches Ok(f)
                    && spec_should_forward(f, own@, Direction::BackhaulToLocal)
                    && queue_frames(*final(queue)) == queue_frames(*old(queue)).push(f)
            },
            Ok(ForwardDecision::Suppressed) => {
                &&& spec_decode(payload@) matches Ok(f)
                    && !spec_should_forward(f, own@, Direction::BackhaulToLocal)
                &&& queue_frames(*final(queue)) == queue_frames(*old(queue))
            },
            Err(e) => {
                &&& spec_decode(payload@) == Err::<Seq<u8>, MalformedPayloadError>(e)
                &&& queue_frames(*final(queue)) == queue_frames(*old(queue))
            },
        },
{
    match decode(payload) {
        Ok(frame) => {
            if should_forward(&frame, own, Direction::BackhaulToLocal) {
                queue.push(frame.into_bytes());
                Ok(ForwardDecision::Forwarded)
            } else {
                Ok(ForwardDecision::Suppressed)
            }
        },
        Err(e) => Err(e),
    }
}

/// Publish side of the backhaul pump: pops the oldest frame from the
/// local-to-backhaul queue and encodes it into the payload to publish on the
/// segment topic, or reports the queue empty.
///
/// The last clause carries the round trip across the backhaul: whenever the
/// popped frame was well-formed, decoding the produced payload gives back
/// exactly that frame.
pub fn next_publish_payload(queue: &mut FrameQueue) -> (r: Option<String>)
    ensures
        match r {
            Some(payload) => {
                &&& queue_frames(*old(queue)).len() > 0
                &&& payload@ == transport_text_of(queue_frames(*old(queue)).first())
                &&& queue_frames(*final(queue)) == queue_frames(*old(queue)).drop_first()
                &&& queue_frames(*old(queue)).first().len() >= FRAME_MIN_LEN
                    ==> spec_decode(payload@)
                        == Ok::<Seq<u8>, MalformedPayloadError>(queue_frames(*old(queue)).first())
            },
            None => {
                &&& queue_frames(*old(queue)).len() == 0
                &&& queue_frames(*final(queue)) == queue_frames(*old(queue))
            },
        },
{
    match queue.try_pop() {
        Some(bytes) => Some(base64_encode(&bytes)),
        None => None,
    }
}

/// Injection side of the local interface pump: pops the oldest frame from
/// the backhaul-to-local queue, to be written verbatim to the local
/// interface. The loop filter is not applied again here: it was already
/// applied once, when the frame entered this queue.
pub fn next_injection(queue: &mut FrameQueue) -> (r: Option<Vec<u8>>)
    ensures
        match r {
            Some(bytes) => {
                &&& queue_frames(*old(queue)).len() > 0
                &&& bytes@ == queue_frames(*old(queue)).first()
                &&& queue_frames(*final(queue)) == queue_frames(*old(queue)).drop_first()
            },
            None => {
                &&& queue_frames(*old(queue)).len() == 0
                &&& queue_frames(*final(queue)) == queue_frames(*old(queue))
            },
        },
{
    queue.try_pop()
}

} // verus!
