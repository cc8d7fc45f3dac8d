use vstd::prelude::*;

verus! {

/// One unbounded, ordered, in-process queue of raw frames.
///
/// Holds both ends of a crossbeam_channel unbounded channel: keeping the
/// receiving end alive means a push can never fail, and exclusive access
/// through `&mut self` keeps the observed contents sequential.
#[verifier::external_body]
pub struct FrameQueue {
    sender: crossbeam_channel::Sender<Vec<u8>>,
    receiver: crossbeam_channel::Receiver<Vec<u8>>,
}

/// The frames sitting in the queue, oldest first.
pub uninterp spec fn queue_frames(q: FrameQueue) -> Seq<Seq<u8>>;

impl FrameQueue {
    /// Relies on crossbeam_channel::unbounded: a freshly created channel
    /// holds no messages.
    #[verifier::external_body]
    pub fn new() -> (q: FrameQueue)
        ensures
            queue_frames(q) == Seq::<Seq<u8>>::empty(),
    {
        let (sender, receiver) = crossbeam_channel::unbounded();
        FrameQueue { sender, receiver }
    }

    /// Relies on crossbeam_channel::Sender::send: on an unbounded channel the
    /// message joins the back of the queue, and sending only fails when the
    /// receiving end is gone, which this value rules out by holding it.
    #[verifier::external_body]
    pub(crate) fn push(&mut self, frame: Vec<u8>)
        ensures
            queue_frames(*final(self)) == queue_frames(*old(self)).push(frame@),
    {
        let _ = self.sender.send(frame);
    }

    /// Relies on crossbeam_channel::Receiver::try_recv: messages leave the
    /// channel in the order they were sent, and an empty channel yields
    /// nothing (the sending end is alive in this value, so the channel is
    /// never reported disconnected).
    #[verifier::external_body]
    pub(crate) fn try_pop(&mut self) -> (r: Option<Vec<u8>>)
        ensures
            match r {
                Some(frame) => {
                    &&& queue_frames(*old(self)).len() > 0
                    &&& frame@ == queue_frames(*old(self)).first()
                    &&& queue_frames(*final(self)) == queue_frames(*old(self)).drop_first()
                },
                None => {
                    &&& queue_frames(*old(self)).len() == 0
                    &&& queue_frames(*final(self)) == queue_frames(*old(self))
                },
            },
    {
        self.receiver.try_recv().ok()
    }
}

/// FIFO preservation: frames pushed by one producer in order land behind
/// whatever was already queued, still in that order, and the consumer —
/// which always pops the oldest frame first — meets them in push order once
/// the earlier content is drained.
pub proof fn lemma_fifo_preservation(q0: Seq<Seq<u8>>, f1: Seq<u8>, f2: Seq<u8>, f3: Seq<u8>)
    ensures
        ({
            let rest = q0.push(f1).push(f2).push(f3).skip(q0.len() as int);
            &&& rest.first() == f1
            &&& rest.drop_first().first() == f2
            &&& rest.drop_first().drop_first().first() == f3
            &&& rest.drop_first().drop_first().drop_first() =~= Seq::<Seq<u8>>::empty()
        }),
{
    let rest = q0.push(f1).push(f2).push(f3).skip(q0.len() as int);
    assert(rest =~= seq![f1, f2, f3]);
    assert(rest.drop_first() =~= seq![f2, f3]);
    assert(rest.drop_first().drop_first() =~= seq![f3]);
}

} // verus!
