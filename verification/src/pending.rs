//! The one ALARM that a node has sent and that its parent has not acknowledged.

use vstd::prelude::*;

use crate::buffers::payload_slice;
use crate::payload;
use crate::protocol::{decode_data_payload, Frame, FrameType, FrameView};

verus! {

pub open spec fn spec_is_ack_required(frame_type: FrameType) -> bool {
    frame_type == FrameType::Alarm
}

/// Whether a frame is repeated until it is acknowledged. Only an ALARM is; DATA
/// and HEARTBEAT are periodic, and one may be lost.
#[verifier::when_used_as_spec(spec_is_ack_required)]
pub fn is_ack_required(frame_type: FrameType) -> (required: bool)
    ensures
        required == spec_is_ack_required(frame_type),
{
    match frame_type {
        FrameType::Alarm => true,
        _ => false,
    }
}

/// The origin sequence number in a DATA or ALARM, or else the frame's own
/// sequence number.
pub open spec fn origin_seq_of(frame: FrameView) -> u16 {
    match payload::read_data(frame.payload) {
        Some((_, origin_seq, _, _)) => origin_seq,
        None => frame.seq,
    }
}

/// The origin sequence number in a DATA or ALARM, or else the frame's own
/// sequence number.
pub fn origin_seq(frame: &Frame) -> (seq: u16)
    ensures
        seq == origin_seq_of(frame@),
{
    match decode_data_payload(payload_slice(&frame.payload)) {
        Some((_, origin_seq, _, _)) => origin_seq,
        None => frame.seq,
    }
}

/// A frame that waits for its ACK, how often it was sent, and when it was sent
/// last.
#[derive(Debug)]
pub struct PendingAck {
    frame: Option<Frame>,
    attempts: u8,
    last_sent_ms: u64,
}

/// What a `PendingAck` holds.
pub struct PendingView {
    pub frame: Option<FrameView>,
    pub attempts: u8,
    pub last_sent_ms: u64,
}

impl View for PendingAck {
    type V = PendingView;

    closed spec fn view(&self) -> PendingView {
        PendingView {
            frame: match self.frame {
                Some(frame) => Some(frame@),
                None => None,
            },
            attempts: self.attempts,
            last_sent_ms: self.last_sent_ms,
        }
    }
}

impl PendingView {
    /// Nothing waits.
    pub open spec fn initial() -> PendingView {
        PendingView { frame: None, attempts: 0, last_sent_ms: 0 }
    }

    /// What holds of every `PendingAck`: only an ALARM waits, and it was sent at
    /// least once and no more than the allowed number of times.
    pub open spec fn is_valid(self) -> bool {
        self.frame matches Some(frame) ==> is_ack_required(frame.frame_type) && 1 <= self.attempts
            <= PendingAck::MAX_ATTEMPTS
    }

    /// After a frame was sent for the first time.
    pub open spec fn after_sending(self, frame: FrameView, now_ms: u64) -> PendingView {
        if is_ack_required(frame.frame_type) {
            PendingView { frame: Some(frame), attempts: 1, last_sent_ms: now_ms }
        } else {
            self
        }
    }

    /// The last attempt was long enough ago.
    pub open spec fn is_overdue(self, now_ms: u64) -> bool {
        now_ms - self.last_sent_ms >= PendingAck::RETRY_DELAY_MS
    }

    /// The frame is to be sent once more.
    pub open spec fn may_retry(self, now_ms: u64) -> bool {
        self.frame is Some && self.attempts < PendingAck::MAX_ATTEMPTS && self.is_overdue(now_ms)
    }

    /// The last allowed attempt is overdue.
    pub open spec fn is_exhausted(self, now_ms: u64) -> bool {
        self.frame is Some && self.attempts >= PendingAck::MAX_ATTEMPTS && self.is_overdue(now_ms)
    }

    /// After the chance to send once more.
    pub open spec fn after_retry(self, now_ms: u64) -> PendingView {
        if self.may_retry(now_ms) {
            PendingView {
                frame: self.frame,
                attempts: (self.attempts + 1) as u8,
                last_sent_ms: now_ms,
            }
        } else {
            self
        }
    }

    /// An ACK for this sequence number and type is for the frame that waits.
    pub open spec fn is_acked_by(self, seq: u16, frame_type: FrameType) -> bool {
        self.frame matches Some(frame) && frame.seq == seq && frame.frame_type == frame_type
    }

    /// A frame of this type waits.
    pub open spec fn holds(self, frame_type: FrameType) -> bool {
        self.frame matches Some(frame) && frame.frame_type == frame_type
    }

    /// The same with nothing waiting.
    pub open spec fn emptied(self) -> PendingView {
        PendingView { frame: None, ..self }
    }

    /// After an ACK.
    pub open spec fn after_ack(self, seq: u16, frame_type: FrameType) -> PendingView {
        if self.is_acked_by(seq, frame_type) {
            self.emptied()
        } else {
            self
        }
    }
}

impl PendingAck {
    /// How often an ALARM is sent at most, counting the first time.
    pub const MAX_ATTEMPTS: u8 = 3;

    /// How long an attempt waits for its ACK.
    pub const RETRY_DELAY_MS: u64 = 2_000;

    /// What holds of every `PendingAck`.
    #[verifier::type_invariant]
    pub open spec fn is_valid(self) -> bool {
        self@.is_valid()
    }

    /// Nothing waits.
    pub fn new() -> (pending: PendingAck)
        ensures
            pending@ == PendingView::initial(),
    {
        PendingAck { frame: None, attempts: 0, last_sent_ms: 0 }
    }

    /// Whether a frame waits.
    pub fn has_pending(&self) -> (pending: bool)
        ensures
            pending == self@.frame is Some,
    {
        self.frame.is_some()
    }

    /// Take note of a frame that was sent for the first time.
    pub fn remember(&mut self, frame: &Frame, now_ms: u64)
        ensures
            final(self)@ == old(self)@.after_sending(frame@, now_ms),
    {
        if is_ack_required(frame.frame_type) {
            *self = PendingAck { frame: Some(frame.clone()), attempts: 1, last_sent_ms: now_ms };
        }
    }

    /// The frame that is to be sent once more, and the number of the attempt, if
    /// the last one is overdue and was not the last that is allowed.
    pub fn next_retry(&mut self, now_ms: u64) -> (retry: Option<(Frame, u8)>)
        ensures
            final(self)@ == old(self)@.after_retry(now_ms),
            match retry {
                Some((frame, attempt)) => old(self)@.may_retry(now_ms) && old(self)@.frame == Some(
                    frame@,
                ) && attempt == old(self)@.attempts + 1,
                None => !old(self)@.may_retry(now_ms),
            },
    {
        proof {
            use_type_invariant(&*self);
        }
        let frame = match &self.frame {
            Some(frame) => frame.clone(),
            None => return None,
        };
        if self.attempts >= Self::MAX_ATTEMPTS {
            return None;
        }
        if now_ms.saturating_sub(self.last_sent_ms) < Self::RETRY_DELAY_MS {
            return None;
        }
        self.attempts = self.attempts + 1;
        self.last_sent_ms = now_ms;
        Some((frame, self.attempts))
    }

    /// Whether the last allowed attempt is overdue.
    pub fn is_exhausted(&self, now_ms: u64) -> (exhausted: bool)
        ensures
            exhausted == self@.is_exhausted(now_ms),
    {
        self.frame.is_some() && self.attempts >= Self::MAX_ATTEMPTS && now_ms.saturating_sub(
            self.last_sent_ms,
        ) >= Self::RETRY_DELAY_MS
    }

    /// Give up waiting; return sequence number and type of the frame that waited.
    pub fn drop_exhausted(&mut self) -> (dropped: Option<(u16, FrameType)>)
        ensures
            final(self)@ == old(self)@.emptied(),
            match dropped {
                Some((seq, frame_type)) => old(self)@.is_acked_by(seq, frame_type),
                None => old(self)@.frame is None,
            },
    {
        let dropped = match &self.frame {
            Some(frame) => Some((frame.seq, frame.frame_type)),
            None => None,
        };
        self.frame = None;
        dropped
    }

    /// Stop waiting if the ACK is for the frame that waits; return whether it is.
    pub fn clear_if_matches(&mut self, seq: u16, frame_type: FrameType) -> (cleared: bool)
        ensures
            cleared == old(self)@.is_acked_by(seq, frame_type),
            final(self)@ == old(self)@.after_ack(seq, frame_type),
    {
        let matches = match &self.frame {
            Some(frame) => frame.seq == seq && frame.frame_type == frame_type,
            None => false,
        };
        if matches {
            self.frame = None;
        }
        matches
    }

    /// Stop waiting if a frame of this type waits; return whether one did.
    pub fn cancel_if_matches(&mut self, frame_type: FrameType) -> (cancelled: bool)
        ensures
            cancelled == old(self)@.holds(frame_type),
            final(self)@ == (if cancelled {
                old(self)@.emptied()
            } else {
                old(self)@
            }),
    {
        let matches = match &self.frame {
            Some(frame) => frame.frame_type == frame_type,
            None => false,
        };
        if matches {
            self.frame = None;
        }
        matches
    }
}

impl Default for PendingAck {
    fn default() -> (pending: PendingAck)
        ensures
            pending@ == PendingView::initial(),
    {
        PendingAck::new()
    }
}

/// How often a waiting frame is sent once more if there is a chance to at each
/// of `times_ms`.
pub open spec fn retries(pending: PendingView, times_ms: Seq<u64>) -> nat
    decreases times_ms.len(),
{
    if times_ms.len() == 0 {
        0
    } else {
        let now_ms = times_ms[0];
        (if pending.may_retry(now_ms) {
            1nat
        } else {
            0nat
        }) + retries(pending.after_retry(now_ms), times_ms.skip(1))
    }
}

/// However many chances there are, an ALARM is not sent more often than allowed.
pub proof fn law_retries_are_bounded(pending: PendingView, times_ms: Seq<u64>)
    requires
        pending.is_valid(),
    ensures
        pending.frame is Some ==> pending.attempts + retries(pending, times_ms)
            <= PendingAck::MAX_ATTEMPTS,
        pending.frame is None ==> retries(pending, times_ms) == 0,
    decreases times_ms.len(),
{
    if times_ms.len() > 0 {
        law_retries_are_bounded(pending.after_retry(times_ms[0]), times_ms.skip(1));
    }
}

/// Two attempts lie apart by the time that an attempt waits for its ACK.
pub proof fn law_retries_are_spaced(pending: PendingView, earlier_ms: u64, later_ms: u64)
    requires
        pending.may_retry(earlier_ms),
        pending.after_retry(earlier_ms).may_retry(later_ms),
    ensures
        later_ms - earlier_ms >= PendingAck::RETRY_DELAY_MS,
        earlier_ms - pending.last_sent_ms >= PendingAck::RETRY_DELAY_MS,
{
}

/// Once its ACK has come, an ALARM is never sent again, nor is it given up.
pub proof fn law_ack_ends_retries(
    pending: PendingView,
    frame: FrameView,
    sent_ms: u64,
    now_ms: u64,
)
    requires
        is_ack_required(frame.frame_type),
    ensures
        ({
            let acked = pending.after_sending(frame, sent_ms).after_ack(
                frame.seq,
                frame.frame_type,
            );
            acked.frame is None && !acked.may_retry(now_ms) && !acked.is_exhausted(now_ms)
        }),
{
}

/// DATA and HEARTBEAT never wait for an ACK.
pub proof fn law_best_effort_frames_do_not_wait(
    pending: PendingView,
    frame: FrameView,
    now_ms: u64,
)
    requires
        frame.frame_type != FrameType::Alarm,
    ensures
        pending.after_sending(frame, now_ms) == pending,
{
}

/// A frame that was sent waits for its ACK exactly if it is an ALARM; it then takes
/// the place of what waited before.
pub proof fn law_alarms_wait_for_their_ack(pending: PendingView, frame: FrameView, now_ms: u64)
    ensures
        frame.frame_type == FrameType::Alarm ==> pending.after_sending(frame, now_ms) == (
        PendingView { frame: Some(frame), attempts: 1, last_sent_ms: now_ms }),
        frame.frame_type != FrameType::Alarm ==> pending.after_sending(frame, now_ms) == pending,
{
}

/// When a waiting ALARM is due: at least two seconds after its last send. It is then
/// sent once more if it was sent once or twice, and it is given up if it was sent
/// three times.
pub proof fn law_overdue_alarm_is_repeated_or_given_up(
    pending: PendingView,
    alarm: FrameView,
    now_ms: u64,
)
    requires
        pending.is_valid(),
        pending.frame == Some(alarm),
    ensures
        ({
            let overdue = now_ms >= pending.last_sent_ms + 2_000;
            &&& pending.may_retry(now_ms) == (overdue && (pending.attempts == 1 || pending.attempts
                == 2))
            &&& pending.is_exhausted(now_ms) == (overdue && pending.attempts == 3)
            &&& pending.may_retry(now_ms) ==> pending.after_retry(now_ms) == PendingView {
                frame: Some(alarm),
                attempts: (pending.attempts + 1) as u8,
                last_sent_ms: now_ms,
            }
            &&& !pending.may_retry(now_ms) ==> pending.after_retry(now_ms) == pending
            &&& pending.emptied().frame is None
        }),
{
}

/// An ACK ends the wait of the frame whose sequence number and type it names, and
/// of no other.
pub proof fn law_ack_is_for_one_frame(pending: PendingView, seq: u16, frame_type: FrameType)
    ensures
        ({
            let after = pending.after_ack(seq, frame_type);
            match pending.frame {
                Some(frame) => {
                    &&& frame.seq == seq && frame.frame_type == frame_type ==> after.frame is None
                        && pending.is_acked_by(seq, frame_type)
                    &&& frame.seq != seq || frame.frame_type != frame_type ==> after == pending
                        && !pending.is_acked_by(seq, frame_type)
                    &&& pending.holds(frame_type) == (frame.frame_type == frame_type)
                },
                None => after == pending && !pending.is_acked_by(seq, frame_type)
                    && !pending.holds(frame_type),
            }
        }),
{
}

} // verus!
