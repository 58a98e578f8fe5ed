use vstd::prelude::*;
use std::collections::HashMap;

verus! {

broadcast use vstd::std_specs::hash::group_hash_axioms;

/// Holds frames that finished out of order, keyed by sequence number, and hands
/// them out strictly in sequence.
pub struct FrameQueue {
    next_frame: u64,
    frames: HashMap<u64, Vec<u8>>,
    max_len: usize,
}

impl FrameQueue {
    /// Sequence number of the next frame to hand out.
    pub closed spec fn next(&self) -> u64 {
        self.next_frame
    }

    /// Frames waiting, by sequence number.
    pub closed spec fn pending(&self) -> Map<u64, Vec<u8>> {
        self.frames@
    }

    /// Most distinct sequence numbers that may wait at once.
    pub closed spec fn capacity(&self) -> usize {
        self.max_len
    }

    /// Capacity is positive, never exceeded, and nothing waits that was already handed out.
    pub open spec fn wf(&self) -> bool {
        &&& self.capacity() > 0
        &&& self.pending().len() <= self.capacity()
        &&& forall|k: u64| #[trigger] self.pending().contains_key(k) ==> k >= self.next()
    }

    /// Whether `push(frame_no, _)` takes the frame: it is not stale, and it either
    /// replaces a waiting frame or finds room.
    pub open spec fn accepts(&self, frame_no: u64) -> bool {
        &&& frame_no >= self.next()
        &&& (self.pending().contains_key(frame_no) || self.pending().len() < self.capacity())
    }

    /// An empty queue expecting frame 0 and holding at most `max_len` frames.
    pub fn new(max_len: usize) -> (r: FrameQueue)
        requires
            max_len > 0,
        ensures
            r.wf(),
            r.next() == 0,
            r.pending() == Map::<u64, Vec<u8>>::empty(),
            r.capacity() == max_len,
    {
        FrameQueue { next_frame: 0, frames: HashMap::new(), max_len }
    }

    /// Sequence number of the next frame to hand out.
    pub fn next_frame_number(&self) -> (r: u64)
        ensures
            r == self.next(),
    {
        self.next_frame
    }

    /// Offers frame `frame_no`; returns whether it was taken. A taken frame replaces
    /// any waiting frame of that number; a refused one leaves the queue as it was.
    pub fn push(&mut self, frame_no: u64, frame: Vec<u8>) -> (accepted: bool)
        requires
            old(self).wf(),
        ensures
            final(self).wf(),
            accepted == old(self).accepts(frame_no),
            accepted ==> final(self).pending() == old(self).pending().insert(frame_no, frame),
            accepted ==> final(self).next() == old(self).next(),
            accepted ==> final(self).capacity() == old(self).capacity(),
            !accepted ==> *final(self) == *old(self),
    {
        if frame_no < self.next_frame {
            return false;
        }
        if self.frames.len() >= self.max_len && !self.frames.contains_key(&frame_no) {
            return false;
        }
        self.frames.insert(frame_no, frame);
        true
    }

    /// Hands out the frame numbered `next_frame_number()` if it has arrived, and then
    /// expects the following number; otherwise returns `None` and changes nothing.
    pub fn pop_ready(&mut self) -> (r: Option<Vec<u8>>)
        requires
            old(self).wf(),
            old(self).pending().contains_key(old(self).next()) ==> old(self).next() < u64::MAX,
        ensures
            final(self).wf(),
            final(self).capacity() == old(self).capacity(),
            old(self).pending().contains_key(old(self).next()) ==> {
                &&& r == Some(old(self).pending()[old(self).next()])
                &&& final(self).pending() == old(self).pending().remove(old(self).next())
                &&& final(self).next() == old(self).next() + 1
            },
            !old(self).pending().contains_key(old(self).next()) ==> {
                &&& r is None
                &&& final(self).pending() == old(self).pending()
                &&& final(self).next() == old(self).next()
            },
    {
        let key = self.next_frame;
        let removed = self.frames.remove(&key);
        proof {
            if removed is None {
                assert(self.frames@ =~= old(self).frames@);
            }
        }
        match removed {
            Some(frame) => {
                self.next_frame = self.next_frame + 1;
                Some(frame)
            },
            None => None,
        }
    }
}

/// A frame numbered below the next expected number is refused, and the queue is
/// left exactly as it was.
pub proof fn lemma_stale_frame_refused(q: FrameQueue, frame_no: u64)
    requires
        q.wf(),
        frame_no < q.next(),
    ensures
        !q.accepts(frame_no),
{
}

} // verus!
