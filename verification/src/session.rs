//! The detection handshake as a verified state machine.
//!
//! One `detect` operation sends the detect request, then polls the receive
//! path up to [`MAX_ATTEMPTS`] times for a frame whose EtherType is the
//! detect response.  The caller owns the transport: it performs one receive
//! per attempt and hands the outcome to [`DetectionSession::handle_attempt`],
//! which decides whether the handshake has matched, may keep polling, or has
//! timed out.  On a match the caller must send the detect acknowledge; the
//! handshake only succeeds if that send succeeds.

use vstd::prelude::*;

use crate::codec::parse_response_spec;
use crate::codec::parse_detect_receiver_response;
use crate::codec::ReceiverCardInfo;
use crate::codec::ETH_DETECT_RSP;
use vstd::slice::slice_subrange;

verus! {

/// Number of receive attempts one detection makes before giving up.
pub const MAX_ATTEMPTS: u32 = 100;

/// The EtherType carried at bytes 12-13 of a frame, big-endian.
pub open spec fn ethertype_of(frame: Seq<u8>) -> int
    recommends
        frame.len() >= 14,
{
    frame[12] * 256 + frame[13]
}

/// Whether a received frame is a detect response: at least a full Ethernet
/// header, and the detect-response EtherType.  Nothing else is checked; the
/// first such frame wins.
pub open spec fn is_detect_response(frame: Seq<u8>) -> bool {
    frame.len() >= 14 && ethertype_of(frame) == ETH_DETECT_RSP
}

/// What one receive attempt yields when it does not match: keep polling
/// while attempts remain, otherwise the handshake has failed.
pub open spec fn missed_outcome(attempts_used: u32) -> DetectOutcome {
    if attempts_used == MAX_ATTEMPTS {
        DetectOutcome::TimedOut
    } else {
        DetectOutcome::Pending
    }
}

/// Verdict of one receive attempt.
#[derive(Debug, Clone, Copy, PartialEq, Eq, Structural)]
pub enum DetectOutcome {
    /// No matching frame yet; attempts remain, so poll again.
    Pending,
    /// A detect response arrived; its payload parsed to this card info.
    /// The caller must now send the detect acknowledge.
    Matched(ReceiverCardInfo),
    /// Every attempt is spent without a matching frame.  Terminal: the
    /// caller fails with a timeout and must not send an acknowledge.
    TimedOut,
}

/// Transient state of one detection handshake, created after the detect
/// request has been sent.  It only counts the receive attempts consumed;
/// it never outlives the `detect` call it serves.
pub struct DetectionSession {
    attempts_used: u32,
}

impl DetectionSession {
    /// How many receive attempts this session has consumed.
    pub closed spec fn attempts(self) -> u32 {
        self.attempts_used
    }

    /// A session never consumes more than [`MAX_ATTEMPTS`] attempts.
    pub open spec fn wf(self) -> bool {
        self.attempts() <= MAX_ATTEMPTS
    }

    /// Whether every attempt is spent.
    pub open spec fn exhausted(self) -> bool {
        self.attempts() == MAX_ATTEMPTS
    }

    /// Starts a handshake: no attempt consumed yet.  To be created right
    /// after the detect request frame has been sent.
    pub fn new() -> (session: Self)
        ensures
            session.attempts() == 0,
            session.wf(),
    {
        DetectionSession { attempts_used: 0 }
    }

    /// How many receive attempts have been consumed so far.
    pub fn attempts_made(&self) -> (n: u32)
        ensures
            n == self.attempts(),
    {
        self.attempts_used
    }

    /// Consumes one receive attempt.  `received` is what the transport's
    /// receive call yielded: a frame, or `None` for a receive error, which
    /// is discarded silently like any non-matching frame.
    ///
    /// The first frame with the detect-response EtherType (and a complete
    /// 14-byte header) matches: its payload is parsed and returned, even on
    /// the last attempt.  Anything else consumes the attempt; when all
    /// attempts are spent the handshake times out.
    pub fn handle_attempt(&mut self, received: Option<&[u8]>) -> (out: DetectOutcome)
        requires
            old(self).wf(),
            !old(self).exhausted(),
        ensures
            final(self).wf(),
            final(self).attempts() == old(self).attempts() + 1,
            (match received {
                Option::Some(frame) => (
                    if is_detect_response(frame@) {
                        out == DetectOutcome::Matched(parse_response_spec(frame@.skip(14)))
                    } else {
                        out == missed_outcome(final(self).attempts())
                    }
                ),
                Option::None => out == missed_outcome(final(self).attempts()),
            }),
    {
        self.attempts_used = self.attempts_used + 1;
        if let Some(frame) = received {
            if frame.len() >= 14 {
                let ethertype: u16 = (frame[12] as u16) * 256 + (frame[13] as u16);
                if ethertype == ETH_DETECT_RSP {
                    let payload = slice_subrange(frame, 14, frame.len());
                    let info = parse_detect_receiver_response(payload);
                    return DetectOutcome::Matched(info);
                }
            }
        }
        if self.attempts_used == MAX_ATTEMPTS {
            DetectOutcome::TimedOut
        } else {
            DetectOutcome::Pending
        }
    }
}

} // verus!
