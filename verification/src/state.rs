//! Shared session state: connection phase, media flag, clamped bandwidth
//! estimate, and the one-shot "started" notification.
//!
//! The session driver writes this record and the frame pump reads it; the
//! embedding program keeps it behind a mutex and forwards the returned
//! `signal` flags to its notification primitive. The start notification is
//! signalled exactly once, when the connection is established and a media
//! track has been added, in either order. A closed session is terminal.

use vstd::prelude::*;

verus! {

/// Ceiling applied to stored bandwidth estimates: 20 Mbit/s.
pub const MAX_ESTIMATED_BITRATE: u64 = 20_000_000;

/// The connection phase of a session.
#[derive(Clone, Copy, PartialEq, Eq, Structural, Debug)]
pub enum ConnectionState {
    New,
    Connected,
    Closed,
}

/// The transitions the shared record reacts to.
#[derive(Clone, Copy, PartialEq, Eq, Structural, Debug)]
pub enum SessionEvent {
    MediaAdded,
    IceConnected,
    IceDisconnected,
}

/// The record shared between the session driver and the frame pump.
pub struct SharedSession {
    pub media_added: bool,
    pub state: ConnectionState,
    pub estimated_bitrate: u64,
    pub started: bool,
    pub started_signals: u32,
}

impl SharedSession {
    /// The state a fresh session starts in.
    pub open spec fn spec_init() -> SharedSession {
        SharedSession {
            media_added: false,
            state: ConnectionState::New,
            estimated_bitrate: 0,
            started: false,
            started_signals: 0,
        }
    }

    /// Well-formedness: the start notification fires at most once, only
    /// after the media track was added and the connection left `New`, and
    /// certainly by the time both conditions hold.
    pub open spec fn wf(&self) -> bool {
        &&& self.started_signals == if self.started {
            1int
        } else {
            0int
        }
        &&& self.started ==> self.media_added && !(self.state is New)
        &&& (self.state is Connected && self.media_added) ==> self.started
    }

    /// One transition of the shared record.
    pub open spec fn spec_step(s: SharedSession, ev: SessionEvent) -> SharedSession {
        match ev {
            SessionEvent::MediaAdded => {
                if s.state is Connected && !s.started {
                    SharedSession {
                        media_added: true,
                        started: true,
                        started_signals: (s.started_signals + 1) as u32,
                        ..s
                    }
                } else {
                    SharedSession { media_added: true, ..s }
                }
            },
            SessionEvent::IceConnected => {
                if s.state is Closed {
                    s
                } else if s.media_added && !s.started {
                    SharedSession {
                        state: ConnectionState::Connected,
                        started: true,
                        started_signals: (s.started_signals + 1) as u32,
                        ..s
                    }
                } else {
                    SharedSession { state: ConnectionState::Connected, ..s }
                }
            },
            SessionEvent::IceDisconnected => {
                SharedSession { state: ConnectionState::Closed, ..s }
            },
        }
    }

    /// The record after a whole sequence of transitions from the initial
    /// state.
    pub open spec fn spec_run(events: Seq<SessionEvent>) -> SharedSession
        decreases events.len(),
    {
        if events.len() == 0 {
            SharedSession::spec_init()
        } else {
            SharedSession::spec_step(SharedSession::spec_run(events.drop_last()), events.last())
        }
    }

    /// Create the shared record for a fresh session.
    pub fn new() -> (s: Self)
        ensures
            s == SharedSession::spec_init(),
            s.wf(),
    {
        SharedSession {
            media_added: false,
            state: ConnectionState::New,
            estimated_bitrate: 0,
            started: false,
            started_signals: 0,
        }
    }

    /// Record that a media track was added. Returns whether the start
    /// notification must be signalled now.
    pub fn on_media_added(&mut self) -> (signal: bool)
        requires
            old(self).wf(),
        ensures
            *final(self) == SharedSession::spec_step(*old(self), SessionEvent::MediaAdded),
            final(self).wf(),
            signal == (old(self).state is Connected && !old(self).started),
    {
        self.media_added = true;
        if matches!(self.state, ConnectionState::Connected) && !self.started {
            self.started = true;
            self.started_signals = self.started_signals + 1;
            true
        } else {
            false
        }
    }

    /// Record that the connectivity exchange completed. Returns whether the
    /// start notification must be signalled now. A closed session stays
    /// closed.
    pub fn on_ice_connected(&mut self) -> (signal: bool)
        requires
            old(self).wf(),
        ensures
            *final(self) == SharedSession::spec_step(*old(self), SessionEvent::IceConnected),
            final(self).wf(),
            signal == (!(old(self).state is Closed) && old(self).media_added && !old(
                self,
            ).started),
    {
        if matches!(self.state, ConnectionState::Closed) {
            return false;
        }
        self.state = ConnectionState::Connected;
        if self.media_added && !self.started {
            self.started = true;
            self.started_signals = self.started_signals + 1;
            true
        } else {
            false
        }
    }

    /// Record that connectivity was lost. The session is closed for good.
    pub fn on_ice_disconnected(&mut self)
        requires
            old(self).wf(),
        ensures
            *final(self) == SharedSession::spec_step(*old(self), SessionEvent::IceDisconnected),
            final(self).wf(),
    {
        self.state = ConnectionState::Closed;
    }

    /// Store a new bandwidth estimate, clamped to the ceiling.
    pub fn set_estimated_bitrate(&mut self, bitrate: u64)
        ensures
            *final(self) == (SharedSession {
                estimated_bitrate: if bitrate <= MAX_ESTIMATED_BITRATE {
                    bitrate
                } else {
                    MAX_ESTIMATED_BITRATE
                },
                ..*old(self)
            }),
    {
        self.estimated_bitrate = if bitrate <= MAX_ESTIMATED_BITRATE {
            bitrate
        } else {
            MAX_ESTIMATED_BITRATE
        };
    }

    /// The last stored bandwidth estimate; never above the ceiling when the
    /// record only ever saw `set_estimated_bitrate`.
    pub fn estimated_bitrate(&self) -> (r: u64)
        ensures
            r == self.estimated_bitrate,
    {
        self.estimated_bitrate
    }
}

/// Every transition preserves well-formedness.
pub proof fn lemma_step_preserves_wf(s: SharedSession, ev: SessionEvent)
    requires
        s.wf(),
    ensures
        SharedSession::spec_step(s, ev).wf(),
{
}

/// Law: under any sequence of session events, the start notification is
/// signalled at most once; and once the session is connected with a media
/// track added, it has been signalled exactly once.
pub proof fn lemma_started_signalled_once(events: Seq<SessionEvent>)
    ensures
        SharedSession::spec_run(events).wf(),
        SharedSession::spec_run(events).started_signals <= 1,
        (SharedSession::spec_run(events).state is Connected && SharedSession::spec_run(
            events,
        ).media_added) ==> SharedSession::spec_run(events).started_signals == 1,
    decreases events.len(),
{
    if events.len() > 0 {
        lemma_started_signalled_once(events.drop_last());
        lemma_step_preserves_wf(SharedSession::spec_run(events.drop_last()), events.last());
    }
}

} // verus!
