//! What the stream decoder guarantees whatever way the bytes arrive.

use vstd::prelude::*;

use crate::buffers::{CRC_LEN, HEADER_LEN};
use crate::protocol::{FrameView, MAGIC};
use crate::{protocol, stream};

verus! {

/// All the frames that draining the decoder gives, and the bytes that stay
/// buffered.
pub open spec fn drain(bytes: Seq<u8>) -> (Seq<FrameView>, Seq<u8>)
    decreases bytes.len(),
{
    match stream::scan(bytes) {
        (Some(frame), rest) => {
            proof {
                lemma_scan_shrinks(bytes);
            }
            let later = drain(rest);
            (seq![frame] + later.0, later.1)
        },
        (None, rest) => (Seq::empty(), rest),
    }
}

/// Frames one after another on the air.
pub open spec fn wires(frames: Seq<FrameView>) -> Seq<u8>
    decreases frames.len(),
{
    if frames.len() == 0 {
        Seq::empty()
    } else {
        frames[0].wire() + wires(frames.skip(1))
    }
}

/// The first candidate from `i` on is where everything before it is rejected.
proof fn lemma_candidate(bytes: Seq<u8>, i: int)
    requires
        0 <= i <= bytes.len(),
    ensures
        i <= stream::first_candidate(bytes, i) <= bytes.len(),
        forall|j: int|
            i <= j < stream::first_candidate(bytes, i) ==> stream::rejected_at(bytes, j),
        stream::first_candidate(bytes, i) < bytes.len() ==> !stream::rejected_at(
            bytes,
            stream::first_candidate(bytes, i),
        ),
    decreases bytes.len() - i,
{
    if i < bytes.len() && stream::rejected_at(bytes, i) {
        lemma_candidate(bytes, i + 1);
    }
}

/// Taking a frame out leaves fewer bytes.
pub proof fn lemma_scan_shrinks(bytes: Seq<u8>)
    ensures
        stream::scan(bytes).0 is Some ==> stream::scan(bytes).1.len() < bytes.len(),
{
    lemma_candidate(bytes, 0);
}

/// More bytes behind do not change what was decided at a position.
proof fn lemma_decided_stays(a: Seq<u8>, b: Seq<u8>, i: int)
    requires
        0 <= i < a.len(),
    ensures
        stream::rejected_at(a, i) ==> stream::rejected_at(a + b, i),
        stream::frame_complete(a, i) ==> stream::frame_complete(a + b, i)
            && stream::rejected_at(a, i) == stream::rejected_at(a + b, i),
{
    if stream::frame_complete(a, i) {
        let end = i + stream::claimed_len(a, i);
        assert((a + b).subrange(i, end) =~= a.subrange(i, end));
    }
}

/// Dropping bytes in front does not change what holds of the rest.
proof fn lemma_shift(bytes: Seq<u8>, k: int, i: int)
    requires
        0 <= k,
        0 <= i,
        k + i < bytes.len(),
    ensures
        stream::rejected_at(bytes.skip(k), i) == stream::rejected_at(bytes, k + i),
        stream::frame_complete(bytes.skip(k), i) == stream::frame_complete(bytes, k + i),
{
    let tail = bytes.skip(k);
    if stream::frame_complete(tail, i) {
        let len = stream::claimed_len(tail, i);
        assert(tail.subrange(i, i + len) =~= bytes.subrange(k + i, k + i + len));
    }
}

/// A frame in the stream is found and returned once everything before it is
/// known to be no frame, and what follows it stays.
pub proof fn law_frame_behind_rejected_bytes(noise: Seq<u8>, frame: FrameView, rest: Seq<u8>)
    requires
        frame.fits(),
        forall|j: int|
            0 <= j < noise.len() ==> stream::rejected_at(noise + frame.wire() + rest, j),
    ensures
        stream::scan(noise + frame.wire() + rest) == (Some(frame), rest),
{
    let bytes = noise + frame.wire() + rest;
    let k = noise.len() as int;
    protocol::law_decode_undoes_encode(frame);
    let wire = frame.wire();
    assert(bytes.subrange(k, k + wire.len()) =~= wire);
    assert(bytes[k] == wire[0] && bytes[k + 1] == wire[1] && bytes[k + 20] == wire[20]);
    stream::lemma_first_candidate(bytes, 0, k);
    assert(bytes.skip(k + wire.len()) =~= rest);
}

/// Noise that holds no start byte does not hide the frame behind it.
pub proof fn law_noise_before_frame(noise: Seq<u8>, frame: FrameView, rest: Seq<u8>)
    requires
        frame.fits(),
        forall|j: int| 0 <= j < noise.len() ==> noise[j] != MAGIC,
    ensures
        stream::scan(noise + frame.wire() + rest) == (Some(frame), rest),
{
    let bytes = noise + frame.wire() + rest;
    assert forall|j: int| 0 <= j < noise.len() implies stream::rejected_at(bytes, j) by {
        assert(bytes[j] == noise[j]);
    }
    law_frame_behind_rejected_bytes(noise, frame, rest);
}

/// A whole frame that does not decode, and in which no other byte looks like a
/// start, does not hide the frame behind it.
pub proof fn law_resync_after_bad_frame(bad: Seq<u8>, frame: FrameView, rest: Seq<u8>)
    requires
        frame.fits(),
        bad.len() >= HEADER_LEN + CRC_LEN,
        bad.len() == stream::claimed_len(bad, 0),
        protocol::parse(bad) is Err,
        forall|j: int| 1 <= j < bad.len() ==> bad[j] != MAGIC,
    ensures
        stream::scan(bad + frame.wire() + rest) == (Some(frame), rest),
{
    let bytes = bad + frame.wire() + rest;
    assert forall|j: int| 0 <= j < bad.len() implies stream::rejected_at(bytes, j) by {
        if j == 0 {
            assert(bytes.subrange(0, bad.len() as int) =~= bad);
            assert(stream::frame_complete(bytes, 0));
        } else {
            assert(bytes[j] == bad[j]);
        }
    }
    law_frame_behind_rejected_bytes(bad, frame, rest);
}

/// A frame of which only the front has arrived is waited for, and none of it is
/// dropped.
pub proof fn law_partial_frame_is_kept(frame: FrameView, k: int)
    requires
        frame.fits(),
        0 <= k < frame.wire().len(),
    ensures
        stream::scan(frame.wire().take(k)) == (None::<FrameView>, frame.wire().take(k)),
{
    let wire = frame.wire();
    let part = wire.take(k);
    protocol::law_decode_undoes_encode(frame);
    if k > 0 {
        assert(part[0] == wire[0]);
        if stream::header_complete(part, 0) {
            assert(part[1] == wire[1] && part[20] == wire[20]);
        }
    }
    stream::lemma_first_candidate(part, 0, 0);
    assert(part.skip(0) =~= part);
}

/// Once no frame is left, looking again finds none and drops nothing more.
pub proof fn law_nothing_left_stays_so(bytes: Seq<u8>)
    requires
        stream::scan(bytes).0 is None,
    ensures
        stream::scan(stream::scan(bytes).1) == stream::scan(bytes),
{
    let k = stream::first_candidate(bytes, 0);
    let rest = bytes.skip(k);
    lemma_candidate(bytes, 0);
    if k < bytes.len() {
        lemma_shift(bytes, k, 0);
    }
    stream::lemma_first_candidate(rest, 0, 0);
    assert(rest.skip(0) =~= rest);
}

/// Rejected bytes in front may as well not be there.
proof fn lemma_scan_skips_rejected(bytes: Seq<u8>, k: int)
    requires
        0 <= k <= bytes.len(),
        forall|j: int| 0 <= j < k ==> stream::rejected_at(bytes, j),
    ensures
        stream::scan(bytes) == stream::scan(bytes.skip(k)),
{
    let rest = bytes.skip(k);
    let m = stream::first_candidate(rest, 0);
    lemma_candidate(rest, 0);
    assert forall|j: int| k <= j < k + m implies stream::rejected_at(bytes, j) by {
        lemma_shift(bytes, k, j - k);
    }
    if m < rest.len() {
        lemma_shift(bytes, k, m);
    }
    stream::lemma_first_candidate(bytes, 0, k + m);
    assert(bytes.skip(k + m) =~= rest.skip(m));
    if stream::frame_complete(rest, m) {
        let len = stream::claimed_len(rest, m);
        assert(bytes.subrange(k + m, k + m + len) =~= rest.subrange(m, m + len));
        assert(bytes.skip(k + m + len) =~= rest.skip(m + len));
    }
}

/// A whole frame at the first candidate is found again when more bytes follow.
proof fn lemma_frame_found_again(a: Seq<u8>, b: Seq<u8>)
    requires
        stream::scan(a).0 is Some,
    ensures
        stream::scan(a + b) == (stream::scan(a).0, stream::scan(a).1 + b),
{
    let both = a + b;
    let k = stream::first_candidate(a, 0);
    let end = k + stream::claimed_len(a, k);
    lemma_candidate(a, 0);
    assert forall|j: int| 0 <= j < k implies stream::rejected_at(both, j) by {
        lemma_decided_stays(a, b, j);
    }
    lemma_decided_stays(a, b, k);
    stream::lemma_first_candidate(both, 0, k);
    assert(both.subrange(k, end) =~= a.subrange(k, end));
    assert(both.skip(end) =~= a.skip(end) + b);
}

/// Receiving bytes in two chunks and looking after the first is the same as
/// receiving them at once: a frame found early is the frame found late, and where
/// none was found the kept bytes stand for all that arrived.
pub proof fn law_two_chunks(a: Seq<u8>, b: Seq<u8>)
    ensures
        match stream::scan(a) {
            (Some(frame), rest) => stream::scan(a + b) == (Some(frame), rest + b),
            (None, rest) => stream::scan(a + b) == stream::scan(rest + b),
        },
{
    if stream::scan(a).0 is Some {
        lemma_frame_found_again(a, b);
    } else {
        let k = stream::first_candidate(a, 0);
        lemma_candidate(a, 0);
        assert forall|j: int| 0 <= j < k implies stream::rejected_at(a + b, j) by {
            lemma_decided_stays(a, b, j);
        }
        lemma_scan_skips_rejected(a + b, k);
        assert((a + b).skip(k) =~= a.skip(k) + b);
    }
}

/// Bytes can arrive in arbitrary chunks: draining after each chunk gives the same
/// frames, in the same order, and leaves the same bytes as draining once at the
/// end.
pub proof fn law_chunks_do_not_matter(a: Seq<u8>, b: Seq<u8>)
    ensures
        drain(a + b).0 == drain(a).0 + drain(drain(a).1 + b).0,
        drain(a + b).1 == drain(drain(a).1 + b).1,
    decreases a.len(),
{
    law_two_chunks(a, b);
    match stream::scan(a) {
        (Some(frame), rest) => {
            lemma_scan_shrinks(a);
            lemma_scan_shrinks(a + b);
            law_chunks_do_not_matter(rest, b);
            let later = drain(rest);
            assert(drain(a + b).0 =~= seq![frame] + drain(rest + b).0);
            assert(drain(a + b).0 =~= drain(a).0 + drain(drain(a).1 + b).0);
        },
        (None, rest) => {
            assert(drain(a).0 =~= Seq::<FrameView>::empty());
            assert(drain(a + b) == drain(rest + b));
            assert(drain(a + b).0 =~= drain(a).0 + drain(drain(a).1 + b).0);
        },
    }
}

/// Frames sent one after another come out one at a time, all of them and in
/// order, and nothing is left.
pub proof fn law_frames_in_a_row(frames: Seq<FrameView>)
    requires
        forall|i: int| 0 <= i < frames.len() ==> (#[trigger] frames[i]).fits(),
    ensures
        drain(wires(frames)) == (frames, Seq::<u8>::empty()),
    decreases frames.len(),
{
    if frames.len() == 0 {
        let none = Seq::<u8>::empty();
        stream::lemma_first_candidate(none, 0, 0);
        assert(none.skip(0) =~= none);
        assert(drain(none).0 =~= frames);
    } else {
        let later = frames.skip(1);
        let none = Seq::<u8>::empty();
        assert forall|i: int| 0 <= i < later.len() implies (#[trigger] later[i]).fits() by {
            assert(later[i] == frames[i + 1]);
        }
        law_frames_in_a_row(later);
        law_noise_before_frame(none, frames[0], wires(later));
        assert(none + frames[0].wire() + wires(later) =~= wires(frames));
        lemma_scan_shrinks(wires(frames));
        assert(seq![frames[0]] + later =~= frames);
    }
}

} // verus!
