//! The state-diff poller: the general player session. On a short tick it
//! re-reads metadata and playback status and emits an event only for what
//! changed; on a long tick it emits a keepalive so idle intermediaries keep
//! the connection open.
//!
//! The session is primed with one synchronous snapshot before streaming, so
//! the first tick never reports a change the client already received.

use vstd::prelude::*;
use crate::error::RemoteError;
use crate::event::{Event, SessionState};
use crate::json::{json_of_metadata, metadata_json};
use crate::metadata::{Metadata, MetadataView};

verus! {

/// Whether a fresh metadata snapshot makes the poller emit: emission is
/// change-gated, never time-gated.
pub open spec fn metadata_emits(last: MetadataView, new: MetadataView) -> bool {
    new != last
}

/// Whether a fresh playback status makes the poller emit.
pub open spec fn status_emits(last: Seq<char>, new: Seq<char>) -> bool {
    new != last
}

/// One state-diff session: its lifecycle state and the last snapshot the
/// client has seen of each polled property.
pub struct DiffSession {
    pub state: SessionState,
    pub last_metadata: Metadata,
    pub last_status: String,
}

impl DiffSession {
    /// A session primed with the initial synchronous snapshot.
    pub fn start(initial_metadata: Metadata, initial_status: String) -> (s: DiffSession)
        ensures
            s.state is Streaming,
            s.last_metadata == initial_metadata,
            s.last_status == initial_status,
    {
        DiffSession {
            state: SessionState::Streaming,
            last_metadata: initial_metadata,
            last_status: initial_status,
        }
    }

    /// The keepalive tick: one empty frame, purely time-gated, changing
    /// nothing.
    pub fn on_keepalive(&self) -> (e: Event)
        ensures
            e is Keepalive,
    {
        Event::Keepalive
    }

    /// The diff tick's metadata half: a changed snapshot emits one metadata
    /// event carrying the new record as JSON and becomes the last seen; an
    /// identical snapshot emits nothing. A failed read emits the error that
    /// ends the session.
    pub fn on_metadata(&mut self, read: Result<Metadata, RemoteError>) -> (e: Option<Event>)
        requires
            old(self).state is Streaming,
        ensures
            final(self).last_status == old(self).last_status,
            read matches Err(err) ==> ((e matches Some(Event::Error(m)) && m@ == err.message@)
                && final(self).state is Failed && final(self).last_metadata == old(
                self).last_metadata),
            read matches Ok(m) ==> ({
                &&& final(self).state is Streaming
                &&& final(self).last_metadata == m
                &&& if metadata_emits(old(self).last_metadata@, m@) {
                    e matches Some(Event::Metadata(p)) && p@ == json_of_metadata(m@)
                } else {
                    e is None
                }
            }),
    {
        match read {
            Err(err) => {
                self.state = SessionState::Failed;
                Some(Event::Error(err.message))
            },
            Ok(m) => {
                let changed = !(self.last_metadata == m);
                let e = if changed {
                    Some(Event::Metadata(metadata_json(&m)))
                } else {
                    None
                };
                self.last_metadata = m;
                e
            },
        }
    }

    /// The diff tick's status half: a changed status string emits one status
    /// event carrying it and becomes the last seen; an identical status
    /// emits nothing. A failed read emits the error that ends the session.
    pub fn on_status(&mut self, read: Result<String, RemoteError>) -> (e: Option<Event>)
        requires
            old(self).state is Streaming,
        ensures
            final(self).last_metadata == old(self).last_metadata,
            read matches Err(err) ==> ((e matches Some(Event::Error(m)) && m@ == err.message@)
                && final(self).state is Failed && final(self).last_status == old(self).last_status),
            read matches Ok(s) ==> ({
                &&& final(self).state is Streaming
                &&& final(self).last_status == s
                &&& if status_emits(old(self).last_status@, s@) {
                    e matches Some(Event::Status(p)) && p@ == s@
                } else {
                    e is None
                }
            }),
    {
        match read {
            Err(err) => {
                self.state = SessionState::Failed;
                Some(Event::Error(err.message))
            },
            Ok(s) => {
                let changed = !(self.last_status == s);
                let e = if changed {
                    Some(Event::Status(s.clone()))
                } else {
                    None
                };
                self.last_status = s;
                e
            },
        }
    }

    /// A send was refused because the consumer is gone: the session
    /// disconnects and polls no further.
    pub fn on_send_failed(&mut self)
        requires
            old(self).state is Streaming,
        ensures
            final(self).state is Disconnected,
            final(self).last_metadata == old(self).last_metadata,
            final(self).last_status == old(self).last_status,
    {
        self.state = SessionState::Disconnected;
    }
}

/// Law: metadata emission is change-gated. After a snapshot is polled it is
/// the session's last-seen record (the `on_metadata` contract), so of two
/// consecutive polls the second emits no metadata event when its snapshot
/// equals the first, and emits exactly one — carrying the second snapshot —
/// when the two differ.
pub proof fn lemma_metadata_diff_gating(s1: MetadataView, s2: MetadataView)
    ensures
        s2 == s1 ==> !metadata_emits(s1, s2),
        s2 != s1 ==> metadata_emits(s1, s2),
{
}

} // verus!
