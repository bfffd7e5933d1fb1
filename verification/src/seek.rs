//! The seek calibrator: decides, per request, whether the remote player
//! consumes a seek offset as microseconds or as milliseconds.
//!
//! The unit is not discoverable from the interface, so it is inferred
//! behaviorally: seek under the microsecond hypothesis, wait a fixed settle
//! delay, and read how far the position actually moved (positions are always
//! microseconds). A move of at least the acceptance threshold confirms the
//! hypothesis; anything less means the offset was read as milliseconds, so
//! the move is undone and the seek reissued in millisecond units, accepted
//! without re-verification. The driver performs the remote calls and feeds
//! every observation to `step`.

use vstd::prelude::*;
use crate::error::ApiError;
use crate::text::{parse_i64, parsed_i64};

verus! {

/// The fixed grace period, in milliseconds, between the first seek and the
/// position re-read, letting the remote player apply the seek.
pub const SEEK_SETTLE_MILLIS: u64 = 100;

/// How many whole seconds the position must have moved for the microsecond
/// hypothesis to be accepted: an empirically chosen jitter tolerance for the
/// skip sizes clients issue, a tunable heuristic rather than an exact rule.
pub const SEEK_ACCEPT_THRESHOLD_SECS: u64 = 4;

/// Largest magnitude of a whole-second offset whose microsecond form still
/// fits the remote call's signed 64-bit argument.
pub const MAX_OFFSET_SECS: i64 = 9223372036854;

/// A whole-second offset in the microsecond unit.
pub open spec fn micro_offset(secs: int) -> int {
    secs * 1000000
}

/// A whole-second offset in the millisecond unit.
pub open spec fn milli_offset(secs: int) -> int {
    secs * 1000
}

/// How many whole seconds lie between two positions, positions being
/// microseconds whatever unit the seek call consumed.
pub open spec fn moved_seconds(before: int, after: int) -> int {
    (if after >= before {
        after - before
    } else {
        before - after
    }) / 1000000
}

fn moved_seconds_exec(before: i64, after: i64) -> (r: u64)
    ensures
        r as int == moved_seconds(before as int, after as int),
{
    let diff: u64 = if after >= before {
        proof {
            assert(0 <= (after as int - before as int) && (after as int - before as int) < 0x10000000000000000);
        }
        (after as i128 - before as i128) as u64
    } else {
        proof {
            assert(0 <= (before as int - after as int) && (before as int - after as int) < 0x10000000000000000);
        }
        (before as i128 - after as i128) as u64
    };
    diff / 1000000
}

/// Where the calibration stands: which observation it is waiting for.
pub enum SeekPhase {
    /// Awaiting the position read before the first attempt.
    ReadingPosBefore,
    /// Awaiting completion of the microsecond-hypothesis seek.
    SeekingMicro,
    /// Awaiting the settle delay.
    Settling,
    /// Awaiting the position read after the settle delay.
    ReadingPosAfter,
    /// Awaiting completion of the compensating reversal.
    Reverting,
    /// Awaiting completion of the millisecond-hypothesis seek.
    SeekingMilli,
    /// Calibration is over.
    Done,
}

/// What the driver must do next.
pub enum SeekAction {
    /// Read the player's position.
    ReadPosition,
    /// Issue a seek with this raw offset argument.
    IssueSeek(i64),
    /// Wait the settle delay; nothing comes back from it.
    Settle,
    /// Calibration succeeded; answer the request.
    Succeed,
    /// A remote call failed; answer the request with this message.
    Fail(String),
}

/// What the driver observed for the action it was asked to perform.
pub enum SeekObs {
    /// The position a requested read returned.
    Position(i64),
    /// A requested seek completed.
    SeekDone,
    /// The settle delay elapsed.
    SettleDone,
    /// The pending remote call failed with this message.
    Failed(String),
}

/// The observation kinds a phase can be fed: the answer to the action the
/// phase is waiting for, or the failure of that call. The settle delay
/// itself cannot fail.
pub open spec fn expects(phase: SeekPhase, obs: SeekObs) -> bool {
    match phase {
        SeekPhase::ReadingPosBefore => obs is Position || obs is Failed,
        SeekPhase::ReadingPosAfter => obs is Position || obs is Failed,
        SeekPhase::SeekingMicro => obs is SeekDone || obs is Failed,
        SeekPhase::Reverting => obs is SeekDone || obs is Failed,
        SeekPhase::SeekingMilli => obs is SeekDone || obs is Failed,
        SeekPhase::Settling => obs is SettleDone,
        SeekPhase::Done => false,
    }
}

/// One calibration in progress: its phase, the requested whole-second
/// offset, and the position recorded before the first attempt.
pub struct SeekCalibrator {
    pub phase: SeekPhase,
    pub offset_secs: i64,
    pub pos_before: i64,
}

impl SeekCalibrator {
    /// The stored offset keeps its microsecond form inside the remote
    /// call's range.
    pub open spec fn offset_in_range(&self) -> bool {
        -MAX_OFFSET_SECS <= self.offset_secs <= MAX_OFFSET_SECS
    }

    /// Calibration for one request of `offset_secs` whole seconds. The
    /// driver begins by reading the position and feeding it to `step`.
    pub fn new(offset_secs: i64) -> (c: SeekCalibrator)
        requires
            -MAX_OFFSET_SECS <= offset_secs <= MAX_OFFSET_SECS,
        ensures
            c.phase is ReadingPosBefore,
            c.offset_secs == offset_secs,
            c.offset_in_range(),
    {
        SeekCalibrator { phase: SeekPhase::ReadingPosBefore, offset_secs, pos_before: 0 }
    }

    /// Advance the calibration on one observation and say what to do next.
    ///
    /// Any failed remote call aborts the whole calibration at once. The
    /// decision sits in the position re-read: a move of at least the
    /// acceptance threshold confirms the microsecond hypothesis; a smaller
    /// move sends the compensating reversal, then the millisecond-unit seek,
    /// whose completion succeeds without re-verification.
    pub fn step(&mut self, obs: SeekObs) -> (act: SeekAction)
        requires
            old(self).offset_in_range(),
            expects(old(self).phase, obs),
        ensures
            final(self).offset_secs == old(self).offset_secs,
            final(self).offset_in_range(),
            obs matches SeekObs::Failed(m) ==> (final(self).phase is Done && (act
                matches SeekAction::Fail(fm) && fm == m)),
            old(self).phase is ReadingPosBefore ==> (obs matches SeekObs::Position(p) ==> (final(
                self).phase is SeekingMicro && final(self).pos_before == p && (act
                matches SeekAction::IssueSeek(o) && o as int == micro_offset(
                old(self).offset_secs as int,
            )))),
            (old(self).phase is SeekingMicro && obs is SeekDone) ==> (final(
                self).phase is Settling && act is Settle && final(self).pos_before == old(
                self).pos_before),
            (old(self).phase is Settling && obs is SettleDone) ==> (final(
                self).phase is ReadingPosAfter && act is ReadPosition && final(self).pos_before
                == old(self).pos_before),
            old(self).phase is ReadingPosAfter ==> (obs matches SeekObs::Position(q) ==> (if
                moved_seconds(old(self).pos_before as int, q as int)
                >= SEEK_ACCEPT_THRESHOLD_SECS as int {
                final(self).phase is Done && act is Succeed
            } else {
                final(self).phase is Reverting && (act matches SeekAction::IssueSeek(o) && o as int
                    == -micro_offset(old(self).offset_secs as int))
            })),
            (old(self).phase is Reverting && obs is SeekDone) ==> (final(
                self).phase is SeekingMilli && (act matches SeekAction::IssueSeek(o) && o as int
                == milli_offset(old(self).offset_secs as int))),
            (old(self).phase is SeekingMilli && obs is SeekDone) ==> (final(
                self).phase is Done && act is Succeed),
    {
        match obs {
            SeekObs::Failed(m) => {
                self.phase = SeekPhase::Done;
                SeekAction::Fail(m)
            },
            SeekObs::Position(p) => {
                match self.phase {
                    SeekPhase::ReadingPosBefore => {
                        self.pos_before = p;
                        self.phase = SeekPhase::SeekingMicro;
                        SeekAction::IssueSeek(self.offset_secs * 1000000)
                    },
                    SeekPhase::ReadingPosAfter => {
                        let moved = moved_seconds_exec(self.pos_before, p);
                        if moved >= SEEK_ACCEPT_THRESHOLD_SECS {
                            self.phase = SeekPhase::Done;
                            SeekAction::Succeed
                        } else {
                            self.phase = SeekPhase::Reverting;
                            let micro = self.offset_secs * 1000000;
                            SeekAction::IssueSeek(-micro)
                        }
                    },
                    _ => {
                        proof {
                            assert(false);
                        }
                        SeekAction::Succeed
                    },
                }
            },
            SeekObs::SeekDone => {
                match self.phase {
                    SeekPhase::SeekingMicro => {
                        self.phase = SeekPhase::Settling;
                        SeekAction::Settle
                    },
                    SeekPhase::Reverting => {
                        self.phase = SeekPhase::SeekingMilli;
                        SeekAction::IssueSeek(self.offset_secs * 1000)
                    },
                    SeekPhase::SeekingMilli => {
                        self.phase = SeekPhase::Done;
                        SeekAction::Succeed
                    },
                    _ => {
                        proof {
                            assert(false);
                        }
                        SeekAction::Succeed
                    },
                }
            },
            SeekObs::SettleDone => {
                match self.phase {
                    SeekPhase::Settling => {
                        self.phase = SeekPhase::ReadingPosAfter;
                        SeekAction::ReadPosition
                    },
                    _ => {
                        proof {
                            assert(false);
                        }
                        SeekAction::Succeed
                    },
                }
            },
        }
    }
}

/// Validate the seek route's `offset` query parameter and set up
/// calibration. A missing parameter, a non-numeric one, and one whose
/// microsecond form would leave the remote call's signed 64-bit range are
/// rejected here, before any remote call.
pub fn plan_seek(offset_param: Option<&str>) -> (r: Result<SeekCalibrator, ApiError>)
    ensures
        offset_param is None ==> (r matches Err(e) && e is MissingOffset),
        offset_param matches Some(s) ==> (match parsed_i64(s@) {
            None => r matches Err(e) && e is InvalidOffset,
            Some(v) => if -MAX_OFFSET_SECS <= v <= MAX_OFFSET_SECS {
                r matches Ok(c) && c.offset_secs == v && c.phase is ReadingPosBefore
            } else {
                r matches Err(e) && e is InvalidOffset
            },
        }),
{
    match offset_param {
        None => Err(ApiError::MissingOffset),
        Some(s) => match parse_i64(s) {
            None => Err(ApiError::InvalidOffset),
            Some(v) => {
                if v >= -MAX_OFFSET_SECS && v <= MAX_OFFSET_SECS {
                    Ok(SeekCalibrator::new(v))
                } else {
                    Err(ApiError::InvalidOffset)
                }
            },
        },
    }
}

} // verus!
