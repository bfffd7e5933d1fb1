//! The position poller: a single-purpose session that reads the position on
//! a fixed tick, emits one progress event per tick, and ends the stream the
//! moment the position reaches the track length.
//!
//! The I/O shell owns the timers and the remote reads; it hands every
//! observation to this state machine and sends whatever event comes back.

use vstd::prelude::*;
use crate::error::RemoteError;
use crate::event::{Event, SessionState};
use crate::text::{dec_int, format_i64};

verus! {

/// One position-polling session: its lifecycle state and the track length
/// read once when the session started.
pub struct PositionSession {
    pub state: SessionState,
    pub length: i64,
}

impl PositionSession {
    /// Enter the streaming state once the track length was read. A failed
    /// read means the session never starts: the caller answers with the
    /// single error event returned instead.
    pub fn start(length_read: Result<i64, RemoteError>) -> (r: Result<PositionSession, Event>)
        ensures
            length_read matches Ok(l) ==> (r matches Ok(s) && s.state is Streaming && s.length
                == l),
            length_read matches Err(e) ==> (r matches Err(ev) && ev matches Event::Error(m) && m@
                == e.message@),
    {
        match length_read {
            Ok(l) => Ok(PositionSession { state: SessionState::Streaming, length: l }),
            Err(e) => Err(Event::Error(e.message)),
        }
    }

    /// One polling tick. Exactly one event comes back: the error that ends
    /// the session, the end-of-stream marker when the position reached the
    /// length, or the position itself in decimal.
    pub fn on_tick(&mut self, position_read: Result<i64, RemoteError>) -> (e: Event)
        requires
            old(self).state is Streaming,
        ensures
            final(self).length == old(self).length,
            position_read matches Err(err) ==> ((e matches Event::Error(m) && m@ == err.message@)
                && final(self).state is Failed),
            position_read matches Ok(p) ==> (if p == old(self).length {
                e is EndOfStream && final(self).state is Ended
            } else {
                (e matches Event::Position(s) && s@ == dec_int(p as int)) && final(
                    self).state is Streaming
            }),
    {
        match position_read {
            Err(err) => {
                self.state = SessionState::Failed;
                Event::Error(err.message)
            },
            Ok(p) => {
                if p == self.length {
                    self.state = SessionState::Ended;
                    Event::EndOfStream
                } else {
                    Event::Position(format_i64(p))
                }
            },
        }
    }

    /// A send was refused because the consumer is gone: the session
    /// disconnects and polls no further.
    pub fn on_send_failed(&mut self)
        requires
            old(self).state is Streaming,
        ensures
            final(self).state is Disconnected,
            final(self).length == old(self).length,
    {
        self.state = SessionState::Disconnected;
    }
}

} // verus!
