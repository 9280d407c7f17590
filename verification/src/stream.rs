//! Incremental decoder for a noisy byte stream.

use vstd::prelude::*;

use crate::buffers;
use crate::buffers::{
    rx_clear, rx_extend, rx_new, rx_set, rx_slice, rx_truncate, RxBuffer, CRC_LEN, HEADER_LEN,
    MAX_PAYLOAD_LEN, RX_BUFFER_LEN,
};
use crate::protocol::{DecodeError, Frame, FrameView, MAGIC, VERSION};
use crate::protocol;

verus! {

/// Failure while feeding or draining the stream decoder.
#[derive(Debug, Clone, Copy, PartialEq, Eq, Structural)]
pub enum StreamDecodeError {
    BufferOverflow,
    Decode(DecodeError),
}

impl StreamDecodeError {
    pub open spec fn spec_message(self) -> Seq<char> {
        match self {
            StreamDecodeError::BufferOverflow => "RX frame stream buffer overflow"@,
            StreamDecodeError::Decode(source) => "stream frame decode failed: "@
                + source.spec_message(),
        }
    }

    /// What a log line says of this error.
    pub fn message(self) -> (text: String)
        ensures
            text@ == self.spec_message(),
    {
        match self {
            StreamDecodeError::BufferOverflow => String::from_str(
                "RX frame stream buffer overflow",
            ),
            StreamDecodeError::Decode(source) => String::from_str(
                "stream frame decode failed: ",
            ).concat(source.message()),
        }
    }
}

/// The shortest frame lies wholly in `stream` from position `i` on.
pub open spec fn header_complete(stream: Seq<u8>, i: int) -> bool {
    i + HEADER_LEN + CRC_LEN <= stream.len()
}

/// Length that a frame at position `i` claims to have.
pub open spec fn claimed_len(stream: Seq<u8>, i: int) -> int {
    HEADER_LEN + stream[i + 20] + CRC_LEN
}

/// The frame that position `i` claims to start lies wholly in `stream`.
pub open spec fn frame_complete(stream: Seq<u8>, i: int) -> bool {
    header_complete(stream, i) && i + claimed_len(stream, i) <= stream.len()
}

/// No frame starts at position `i`, whatever bytes may follow: the byte is not
/// the first of a frame, or the header announces something else, or the whole
/// frame is there and does not decode.
pub open spec fn rejected_at(stream: Seq<u8>, i: int) -> bool {
    ||| stream[i] != MAGIC
    ||| header_complete(stream, i) && (stream[i + 1] != VERSION || stream[i + 20]
        > MAX_PAYLOAD_LEN)
    ||| frame_complete(stream, i) && protocol::parse(
        stream.subrange(i, i + claimed_len(stream, i)),
    ) is Err
}

/// The first position from `i` on that is not rejected, or the end.
pub open spec fn first_candidate(stream: Seq<u8>, i: int) -> int
    decreases stream.len() - i,
{
    if i < 0 || i >= stream.len() {
        stream.len() as int
    } else if rejected_at(stream, i) {
        first_candidate(stream, i + 1)
    } else {
        i
    }
}

/// What a receiver makes of `stream`: the first frame in it, if a whole one is
/// there, and the bytes to keep for later. What precedes the first position that
/// may still start a frame is dropped.
pub open spec fn scan(stream: Seq<u8>) -> (Option<FrameView>, Seq<u8>) {
    let i = first_candidate(stream, 0);
    if frame_complete(stream, i) {
        let end = i + claimed_len(stream, i);
        (Some(protocol::parse(stream.subrange(i, end))->Ok_0), stream.skip(end))
    } else {
        (None, stream.skip(i))
    }
}

/// Incremental decoder for a noisy byte stream.
///
/// Bytes can arrive in arbitrary chunks. `next_frame` returns complete frames
/// one at a time and discards invalid prefixes, so the stream resynchronizes
/// after corrupted bytes, bad checksums or partial frames.
#[derive(Debug)]
pub struct FrameStreamDecoder {
    buffer: RxBuffer,
}

impl View for FrameStreamDecoder {
    type V = Seq<u8>;

    /// The bytes that are not yet decoded.
    closed spec fn view(&self) -> Seq<u8> {
        buffers::rx_bytes(self.buffer)
    }
}

impl FrameStreamDecoder {
    /// A decoder that has received nothing.
    pub fn new() -> (decoder: FrameStreamDecoder)
        ensures
            decoder@ == Seq::<u8>::empty(),
    {
        FrameStreamDecoder { buffer: rx_new() }
    }

    /// Append received bytes. Where they do not fit, everything buffered is
    /// dropped along with them.
    pub fn push_bytes(&mut self, bytes: &[u8]) -> (pushed: Result<(), StreamDecodeError>)
        ensures
            old(self)@.len() + bytes@.len() <= RX_BUFFER_LEN ==> pushed is Ok && final(self)@ == old(
                self,
            )@ + bytes@,
            old(self)@.len() + bytes@.len() > RX_BUFFER_LEN ==> pushed == Result::<
                (),
                StreamDecodeError,
            >::Err(StreamDecodeError::BufferOverflow) && final(self)@ == Seq::<u8>::empty(),
    {
        let buffered: usize = rx_slice(&self.buffer).len();
        if bytes.len() > RX_BUFFER_LEN - buffered {
            rx_clear(&mut self.buffer);
            return Err(StreamDecodeError::BufferOverflow);
        }
        match rx_extend(&mut self.buffer, bytes) {
            Ok(()) => Ok(()),
            Err(()) => Err(StreamDecodeError::BufferOverflow),
        }
    }

    /// Take the next complete frame out of the buffered bytes, if there is one.
    pub fn next_frame(&mut self) -> (next: Result<Option<Frame>, StreamDecodeError>)
        ensures
            final(self)@ == scan(old(self)@).1,
            match scan(old(self)@).0 {
                Some(view) => next matches Ok(Some(frame)) && frame@ == view,
                None => next == Result::<Option<Frame>, StreamDecodeError>::Ok(None),
            },
    {
        let ghost stream = self@;
        let ghost mut dropped: int = 0;
        assert(stream.skip(0) =~= stream);
        loop
            invariant
                0 <= dropped <= stream.len(),
                self@ == stream.skip(dropped),
                forall|j: int| 0 <= j < dropped ==> rejected_at(stream, j),
                stream == old(self)@,
            decreases self@.len(),
        {
            let ghost before = self@;
            self.discard_before_magic();
            proof {
                let skipped = before.len() - self@.len();
                assert forall|j: int| dropped <= j < dropped + skipped implies rejected_at(
                    stream,
                    j,
                ) by {
                    assert(stream[j] == before[j - dropped]);
                }
                dropped = dropped + skipped;
                assert(self@ =~= stream.skip(dropped));
            }
            let buffered = rx_slice(&self.buffer);
            if buffered.len() < HEADER_LEN + CRC_LEN {
                proof {
                    lemma_first_candidate(stream, 0, dropped);
                }
                return Ok(None);
            }
            let payload_len: usize = buffered[20] as usize;
            if buffered[1] != VERSION || payload_len > MAX_PAYLOAD_LEN {
                self.discard(1);
                proof {
                    dropped = dropped + 1;
                    assert(self@ =~= stream.skip(dropped));
                }
                continue;
            }
            let frame_len: usize = HEADER_LEN + payload_len + CRC_LEN;
            if buffered.len() < frame_len {
                proof {
                    lemma_first_candidate(stream, 0, dropped);
                }
                return Ok(None);
            }
            proof {
                assert(buffered@.subrange(0, frame_len as int) =~= stream.subrange(
                    dropped,
                    dropped + frame_len,
                ));
            }
            match Frame::decode(&buffered[0..frame_len]) {
                Ok(frame) => {
                    self.discard(frame_len);
                    proof {
                        lemma_first_candidate(stream, 0, dropped);
                        assert(self@ =~= stream.skip(dropped + frame_len));
                    }
                    return Ok(Some(frame));
                },
                Err(_) => {
                    self.discard(1);
                    proof {
                        dropped = dropped + 1;
                        assert(self@ =~= stream.skip(dropped));
                    }
                },
            }
        }
    }

    /// Number of bytes that are not yet decoded.
    pub fn buffered_len(&self) -> (len: usize)
        ensures
            len == self@.len(),
    {
        rx_slice(&self.buffer).len()
    }

    /// Drop the bytes before the first one that can start a frame.
    fn discard_before_magic(&mut self)
        ensures
            final(self)@.len() <= old(self)@.len(),
            final(self)@ == old(self)@.skip(old(self)@.len() - final(self)@.len()),
            forall|j: int|
                0 <= j < old(self)@.len() - final(self)@.len() ==> old(self)@[j] != MAGIC,
            final(self)@.len() > 0 ==> final(self)@[0] == MAGIC,
    {
        let buffered = rx_slice(&self.buffer);
        let len: usize = buffered.len();
        let mut index: usize = 0;
        while index < len && buffered[index] != MAGIC
            invariant
                index <= len,
                len == buffered@.len(),
                buffered@ == self@,
                forall|j: int| 0 <= j < index ==> self@[j] != MAGIC,
            decreases len - index,
        {
            index = index + 1;
        }
        self.discard(index);
    }

    /// Drop the first `count` bytes.
    fn discard(&mut self, count: usize)
        requires
            count <= old(self)@.len(),
        ensures
            final(self)@ == old(self)@.skip(count as int),
    {
        let ghost start = self@;
        if count == 0 {
            assert(start.skip(0) =~= start);
            return;
        }
        let len: usize = rx_slice(&self.buffer).len();
        if count >= len {
            rx_clear(&mut self.buffer);
            assert(start.skip(count as int) =~= Seq::<u8>::empty());
            return;
        }
        let remaining: usize = len - count;
        for index in 0..remaining
            invariant
                remaining + count == start.len(),
                self@.len() == start.len(),
                start.len() <= RX_BUFFER_LEN,
                forall|j: int| 0 <= j < index ==> self@[j] == start[j + count],
                forall|j: int| index <= j < start.len() ==> self@[j] == start[j],
        {
            let byte: u8 = rx_slice(&self.buffer)[index + count];
            rx_set(&mut self.buffer, index, byte);
        }
        rx_truncate(&mut self.buffer, remaining);
        assert(self@ =~= start.skip(count as int));
    }
}

impl Default for FrameStreamDecoder {
    fn default() -> (decoder: FrameStreamDecoder)
        ensures
            decoder@ == Seq::<u8>::empty(),
    {
        FrameStreamDecoder::new()
    }
}

/// Where everything from `i` to `k` is rejected and `k` is not, `k` is the first
/// candidate from `i` on.
pub proof fn lemma_first_candidate(stream: Seq<u8>, i: int, k: int)
    requires
        0 <= i <= k <= stream.len(),
        forall|j: int| i <= j < k ==> rejected_at(stream, j),
        k < stream.len() ==> !rejected_at(stream, k),
    ensures
        first_candidate(stream, i) == k,
    decreases k - i,
{
    if i < k {
        lemma_first_candidate(stream, i + 1, k);
    }
}

} // verus!
