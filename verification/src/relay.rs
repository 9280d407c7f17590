//! Bounded buffer in which the relay keeps DATA until its slot comes.

use vstd::prelude::*;

use crate::protocol::{Frame, FrameView};

verus! {

/// Most DATA frames that the relay keeps.
pub const RELAY_FORWARD_CAPACITY: usize = 4;

/// Double-ended queue of at most `N` items, stored inline.
#[verifier::external_type_specification]
#[verifier::external_body]
#[verifier::reject_recursive_types(T)]
pub struct ExHeaplessDeque<T, const N: usize>(heapless::Deque<T, N>);

type FrameQueue = heapless::Deque<Frame, RELAY_FORWARD_CAPACITY>;

/// What the frames in a queue say, from front to back.
pub uninterp spec fn queued(queue: heapless::Deque<Frame, RELAY_FORWARD_CAPACITY>) -> Seq<
    FrameView,
>;

/// `heapless::Deque::new` for frames: the new queue is empty.
#[verifier::external_body]
fn queue_new() -> (queue: FrameQueue)
    ensures
        queued(queue) == Seq::<FrameView>::empty(),
{
    heapless::Deque::new()
}

/// `heapless::Deque::len` for frames: how many there are in the queue, which is
/// no more than it has room for.
#[verifier::external_body]
fn queue_len(queue: &FrameQueue) -> (len: usize)
    ensures
        len == queued(*queue).len(),
        len <= RELAY_FORWARD_CAPACITY,
{
    queue.len()
}

/// `heapless::Deque::is_empty` for frames: there is no frame in the queue.
#[verifier::external_body]
fn queue_is_empty(queue: &FrameQueue) -> (empty: bool)
    ensures
        empty == (queued(*queue).len() == 0),
{
    queue.is_empty()
}

/// `heapless::Deque::is_full` for frames: there are as many frames in the queue
/// as it has room for. Otherwise there are fewer.
#[verifier::external_body]
fn queue_is_full(queue: &FrameQueue) -> (full: bool)
    ensures
        full ==> queued(*queue).len() == RELAY_FORWARD_CAPACITY,
        !full ==> queued(*queue).len() < RELAY_FORWARD_CAPACITY,
{
    queue.is_full()
}

/// `heapless::Deque::pop_front` for frames: takes out the frame at the front, if
/// there is one.
#[verifier::external_body]
fn queue_pop_front(queue: &mut FrameQueue) -> (front: Option<Frame>)
    ensures
        queued(*old(queue)).len() == 0 ==> front is None && queued(*final(queue)) == queued(
            *old(queue),
        ),
        queued(*old(queue)).len() > 0 ==> (front matches Some(frame) && frame@ == queued(
            *old(queue),
        )[0]) && queued(*final(queue)) == queued(*old(queue)).skip(1),
{
    queue.pop_front()
}

/// `heapless::Deque::push_back` for frames: puts the frame at the back while
/// there is room, and otherwise hands it back and changes nothing.
#[verifier::external_body]
fn queue_push_back(queue: &mut FrameQueue, frame: Frame) -> (pushed: Result<(), Frame>)
    ensures
        queued(*old(queue)).len() < RELAY_FORWARD_CAPACITY ==> pushed is Ok && queued(
            *final(queue),
        ) == queued(*old(queue)).push(frame@),
        queued(*old(queue)).len() >= RELAY_FORWARD_CAPACITY ==> (pushed matches Err(back) && back@
            == frame@) && queued(*final(queue)) == queued(*old(queue)),
{
    queue.push_back(frame)
}

/// DATA frames that wait for the relay slot, oldest first.
#[derive(Debug)]
pub struct RelayForwardBuffer {
    frames: FrameQueue,
}

impl View for RelayForwardBuffer {
    type V = Seq<FrameView>;

    /// What the frames say, oldest first.
    closed spec fn view(&self) -> Seq<FrameView> {
        queued(self.frames)
    }
}

/// The newest frames of `frames`, as many as the buffer keeps.
pub open spec fn newest(frames: Seq<FrameView>) -> Seq<FrameView> {
    if frames.len() <= RELAY_FORWARD_CAPACITY {
        frames
    } else {
        frames.skip(frames.len() - RELAY_FORWARD_CAPACITY)
    }
}

impl RelayForwardBuffer {
    /// An empty buffer.
    pub fn new() -> (buffer: RelayForwardBuffer)
        ensures
            buffer@ == Seq::<FrameView>::empty(),
    {
        RelayForwardBuffer { frames: queue_new() }
    }

    /// Whether a frame waits.
    pub fn has_pending(&self) -> (pending: bool)
        ensures
            pending == (self@.len() > 0),
    {
        !queue_is_empty(&self.frames)
    }

    /// How many frames wait.
    pub fn len(&self) -> (len: usize)
        ensures
            len == self@.len(),
            len <= RELAY_FORWARD_CAPACITY,
    {
        queue_len(&self.frames)
    }

    /// Whether no frame waits.
    pub fn is_empty(&self) -> (empty: bool)
        ensures
            empty == (self@.len() == 0),
    {
        queue_is_empty(&self.frames)
    }

    /// Keep a copy of a frame. Where the buffer is full, the oldest frame makes
    /// room for it.
    pub fn remember(&mut self, frame: &Frame)
        ensures
            final(self)@ == newest(old(self)@.push(frame@)),
    {
        if queue_is_full(&self.frames) {
            let _ = queue_pop_front(&mut self.frames);
        }
        let _ = queue_push_back(&mut self.frames, frame.clone());
    }

    /// Take out the oldest frame.
    pub fn take(&mut self) -> (oldest: Option<Frame>)
        ensures
            match oldest {
                Some(frame) => old(self)@.len() > 0 && frame@ == old(self)@[0] && final(self)@
                    == old(self)@.skip(1),
                None => old(self)@.len() == 0 && final(self)@ == old(self)@,
            },
    {
        queue_pop_front(&mut self.frames)
    }
}

impl Default for RelayForwardBuffer {
    fn default() -> (buffer: RelayForwardBuffer)
        ensures
            buffer@ == Seq::<FrameView>::empty(),
    {
        RelayForwardBuffer::new()
    }
}

/// What a buffer that held `kept` holds after `frames` were remembered one after
/// another.
pub open spec fn after_remembering(kept: Seq<FrameView>, frames: Seq<FrameView>) -> Seq<FrameView>
    decreases frames.len(),
{
    if frames.len() == 0 {
        kept
    } else {
        newest(after_remembering(kept, frames.drop_last()).push(frames.last()))
    }
}

/// However many frames are remembered, the buffer holds the newest of them in
/// the order in which they came.
pub proof fn law_newest_frames_survive(kept: Seq<FrameView>, frames: Seq<FrameView>)
    requires
        kept.len() <= RELAY_FORWARD_CAPACITY,
    ensures
        after_remembering(kept, frames) == newest(kept + frames),
        after_remembering(kept, frames).len() <= RELAY_FORWARD_CAPACITY,
    decreases frames.len(),
{
    if frames.len() == 0 {
        assert(kept + frames =~= kept);
    } else {
        law_newest_frames_survive(kept, frames.drop_last());
        assert((kept + frames.drop_last()).push(frames.last()) =~= kept + frames);
        assert(newest(newest(kept + frames.drop_last()).push(frames.last())) =~= newest(
            kept + frames,
        ));
    }
}

/// A frame that is kept goes behind the others, and of more than four the oldest is
/// dropped.
pub proof fn law_fifth_frame_drops_the_oldest(kept: Seq<FrameView>, frame: FrameView)
    requires
        kept.len() <= 4,
    ensures
        kept.len() < 4 ==> newest(kept.push(frame)) == kept.push(frame),
        kept.len() == 4 ==> newest(kept.push(frame)) == seq![kept[1], kept[2], kept[3], frame],
{
    if kept.len() == 4 {
        assert(kept.push(frame).skip(1) =~= seq![kept[1], kept[2], kept[3], frame]);
    }
}

} // verus!
