//! Decision core of the WebRTC session driver.
//!
//! The peer-state library is a pull-based state machine: each poll yields a
//! datagram to send, a protocol event, or a deadline. The embedding program
//! performs the I/O (socket reads and writes, the select over socket /
//! frame queue / deadline) and hands every event and every ready frame to
//! the functions here, which own all the decisions: event dispatch, the
//! session state transitions, the bandwidth figures pushed back to the
//! peer-state, and the track write with its media timestamp.

use crate::bitrate::NANOS_PER_SEC;
use crate::state::ConnectionState;
use crate::state::SessionEvent;
use crate::state::SharedSession;
use vstd::prelude::*;
use vstd::string::StringSliceAdditionalSpecFns;

verus! {

/// The standard video RTP timestamp clock, in ticks per second.
pub const RTP_CLOCK_HZ: u64 = 90_000;

/// Floor of the probing headroom added to the desired bitrate: 300 kbit/s.
pub const MIN_EXTRA_BITRATE: u64 = 300_000;

/// Ceiling of the probing headroom: 3 Mbit/s.
pub const MAX_EXTRA_BITRATE: u64 = 3_000_000;

/// Ceiling handed to the peer-state's bandwidth estimator: 100 Mbit/s.
pub const BWE_CEILING_BPS: u64 = 100_000_000;

/// How the peer-state library must be configured for a session.
pub struct PeerConfig {
    /// Run as the ICE-lite side of the exchange.
    pub ice_lite: bool,
    /// Clear all codecs and enable the single target video codec.
    pub single_video_codec: bool,
    /// Enable bandwidth estimation with this ceiling, in bits per second.
    pub bwe_ceiling: u64,
}

/// The configuration every session uses.
pub fn peer_config() -> (c: PeerConfig)
    ensures
        c.ice_lite,
        c.single_video_codec,
        c.bwe_ceiling == BWE_CEILING_BPS,
{
    PeerConfig { ice_lite: true, single_video_codec: true, bwe_ceiling: BWE_CEILING_BPS }
}

/// ICE connectivity notifications delivered by the peer-state library.
#[derive(Clone, Copy, PartialEq, Eq, Structural, Debug)]
pub enum IceConnectionState {
    New,
    Checking,
    Connected,
    Completed,
    Disconnected,
}

/// The bound media track: its section identifier, the negotiated payload
/// parameters, and the accumulated media time (nanoseconds) used to stamp
/// outgoing frames.
pub struct Track {
    pub mid: u64,
    pub params: u64,
    pub accumulated_time: u64,
}

/// A media-time value rebased to the 90 kHz RTP clock.
pub open spec fn rtp_from_nanos(t: u64) -> int {
    t * RTP_CLOCK_HZ / NANOS_PER_SEC as int
}

impl Track {
    /// Take the media timestamp for the next write and move the accumulated
    /// time forward by half the frame duration, keeping it non-decreasing.
    pub fn advance(&mut self, duration: u64) -> (rtp: u64)
        requires
            old(self).accumulated_time + duration / 2 <= u64::MAX,
        ensures
            rtp == rtp_from_nanos(old(self).accumulated_time),
            final(self).accumulated_time == old(self).accumulated_time + duration / 2,
            final(self).accumulated_time >= old(self).accumulated_time,
            final(self).mid == old(self).mid,
            final(self).params == old(self).params,
    {
        let t = self.accumulated_time;
        self.accumulated_time = t + duration / 2;
        let rtp128: u128 = (t as u128) * (RTP_CLOCK_HZ as u128) / (NANOS_PER_SEC as u128);
        proof {
            assert(t as int * RTP_CLOCK_HZ / NANOS_PER_SEC as int <= t as int) by (nonlinear_arith)
                requires
                    0 <= t as int,
            ;
        }
        rtp128 as u64
    }
}

/// What the accumulated media time becomes after stamping one frame: an
/// empty payload leaves it unchanged, any other advances it by half the
/// frame duration.
pub open spec fn spec_advance_time(acc: int, payload_len: nat, duration: u64) -> int {
    if payload_len == 0 {
        acc
    } else {
        acc + duration as int / 2
    }
}

/// The accumulated media time after stamping a sequence of
/// `(payload length, duration)` frames.
pub open spec fn spec_time_after(acc0: int, frames: Seq<(nat, u64)>) -> int
    decreases frames.len(),
{
    if frames.len() == 0 {
        acc0
    } else {
        spec_advance_time(
            spec_time_after(acc0, frames.drop_last()),
            frames.last().0,
            frames.last().1,
        )
    }
}

/// Law: across any sequence of track writes the accumulated media time is
/// monotonically non-decreasing, and each non-empty frame of duration `d`
/// moves it forward by exactly `d / 2`.
pub proof fn lemma_accumulated_time_monotonic(acc0: int, frames: Seq<(nat, u64)>, i: int, j: int)
    requires
        0 <= i <= j <= frames.len(),
    ensures
        spec_time_after(acc0, frames.take(i)) <= spec_time_after(acc0, frames.take(j)),
    decreases j - i,
{
    if i < j {
        lemma_accumulated_time_monotonic(acc0, frames, i, j - 1);
        assert(frames.take(j).drop_last() =~= frames.take(j - 1));
    }
}

/// The headroom added on top of the current bitrate when asking the
/// bandwidth estimator for more: a tenth of the current rate, kept between
/// the floor and the ceiling.
pub open spec fn spec_extra_bitrate(current: u64) -> u64 {
    if current / 10 < MIN_EXTRA_BITRATE {
        MIN_EXTRA_BITRATE
    } else if current / 10 > MAX_EXTRA_BITRATE {
        MAX_EXTRA_BITRATE
    } else {
        current / 10
    }
}

/// The desired bitrate pushed to the bandwidth estimator, saturating at the
/// top of the range.
pub open spec fn spec_desired_bitrate(current: u64) -> u64 {
    if current + spec_extra_bitrate(current) > u64::MAX {
        u64::MAX
    } else {
        (current + spec_extra_bitrate(current)) as u64
    }
}

/// What the driver does with one ready encoded frame.
pub struct FrameDecision {
    /// Pushed to the peer-state as the current bitrate.
    pub current_bitrate: u64,
    /// Pushed to the peer-state as the desired bitrate.
    pub desired_bitrate: u64,
    /// `Some(t)`: write the payload to the track at RTP time `t` (90 kHz);
    /// `None`: do not write.
    pub rtp_time: Option<u64>,
}

/// Whether a data-channel label names the events channel.
pub open spec fn is_events_label(bytes: Seq<u8>) -> bool {
    bytes == seq![101u8, 118u8, 101u8, 110u8, 116u8, 115u8]
}

/// A protocol event delivered by one poll of the peer-state library.
pub enum PeerEvent {
    IceStateChange { state: IceConnectionState },
    MediaAdded { mid: u64, params: u64, kind_is_video: bool, is_sending: bool },
    ChannelOpen { id: u64, label: String },
    ChannelData { id: u64 },
    EgressBitrateEstimate { bps: u64 },
    Other,
}

/// What the embedding loop must do after an event was dispatched.
pub struct EventOutcome {
    /// The session closed: leave the polling loop.
    pub exit: bool,
    /// Fire the one-shot start notification.
    pub signal_started: bool,
    /// The data arrived on the events channel: emit it as a trace.
    pub trace_channel_data: bool,
}

/// The driver's task-local state.
pub struct LocalPollingState {
    pub track: Option<Track>,
    pub events_channel: Option<u64>,
    pub state: ConnectionState,
    pub bwe: u64,
}

impl LocalPollingState {
    /// The driver state at session start.
    pub fn new() -> (s: Self)
        ensures
            s.track is None,
            s.events_channel is None,
            s.state is New,
            s.bwe == 0,
    {
        LocalPollingState {
            track: None,
            events_channel: None,
            state: ConnectionState::New,
            bwe: 0,
        }
    }

    /// Bind the media track announced by the peer-state, unless one is
    /// already bound: only one track is supported, a second announcement is
    /// ignored. Returns `(added, signal_started)`.
    pub fn add_media(&mut self, shared: &mut SharedSession, mid: u64, params: u64) -> (r: (
        bool,
        bool,
    ))
        requires
            old(shared).wf(),
        ensures
            final(shared).wf(),
            old(self).track is Some ==> *final(self) == *old(self) && *final(shared) == *old(shared) && r == (false, false),
            old(self).track is None ==> {
                &&& final(self).track == Some((Track { mid, params, accumulated_time: 0 }))
                &&& final(self).events_channel == old(self).events_channel
                &&& final(self).state == old(self).state
                &&& final(self).bwe == old(self).bwe
                &&& *final(shared) == SharedSession::spec_step(
                    *old(shared),
                    SessionEvent::MediaAdded,
                )
                &&& r.0
                &&& r.1 == (old(shared).state is Connected && !old(shared).started)
            },
    {
        if self.track.is_some() {
            return (false, false);
        }
        self.track = Some(Track { mid, params, accumulated_time: 0 });
        let signal = shared.on_media_added();
        (true, signal)
    }

    /// Remember the events data channel when it opens. A second channel, or
    /// one with any other label, is ignored.
    pub fn add_data_channel(&mut self, channel: u64, label: &str)
        ensures
            final(self).events_channel == (if old(self).events_channel is Some {
                old(self).events_channel
            } else if is_events_label(label.spec_bytes()) {
                Some(channel)
            } else {
                None
            }),
            final(self).track == old(self).track,
            final(self).state == old(self).state,
            final(self).bwe == old(self).bwe,
    {
        if self.events_channel.is_some() {
            return ;
        }
        let bytes = label.as_bytes();
        let is_events = bytes.len() == 6 && bytes[0] == 101 && bytes[1] == 118 && bytes[2] == 101
            && bytes[3] == 110 && bytes[4] == 116 && bytes[5] == 115;
        proof {
            assert(is_events == is_events_label(label.spec_bytes())) by {
                if is_events {
                    assert(label.spec_bytes() =~= seq![101u8, 118u8, 101u8, 110u8, 116u8, 115u8]);
                }
            }
        }
        if is_events {
            self.events_channel = Some(channel);
        }
    }

    /// Store a bandwidth estimate, clamped to the ceiling, in both the
    /// shared record and the task-local copy.
    pub fn set_estimated_bitrate(&mut self, shared: &mut SharedSession, bitrate: u64)
        ensures
            final(self).bwe == final(shared).estimated_bitrate,
            final(self).bwe == (if bitrate <= crate::state::MAX_ESTIMATED_BITRATE {
                bitrate
            } else {
                crate::state::MAX_ESTIMATED_BITRATE
            }),
            final(self).track == old(self).track,
            final(self).events_channel == old(self).events_channel,
            final(self).state == old(self).state,
            final(shared).media_added == old(shared).media_added,
            final(shared).state == old(shared).state,
            final(shared).started == old(shared).started,
            final(shared).started_signals == old(shared).started_signals,
    {
        let clamped = if bitrate <= crate::state::MAX_ESTIMATED_BITRATE {
            bitrate
        } else {
            crate::state::MAX_ESTIMATED_BITRATE
        };
        shared.set_estimated_bitrate(clamped);
        self.bwe = clamped;
    }

    /// Apply an ICE connectivity change to both the local and the shared
    /// state. Returns whether the start notification must be signalled.
    pub fn ice_state_changed(&mut self, shared: &mut SharedSession, new_state: IceConnectionState)
        -> (signal: bool)
        requires
            old(shared).wf(),
            old(self).state == old(shared).state,
        ensures
            final(shared).wf(),
            final(self).state == final(shared).state,
            final(self).track == old(self).track,
            final(self).events_channel == old(self).events_channel,
            final(self).bwe == old(self).bwe,
            new_state is Disconnected ==> *final(shared) == SharedSession::spec_step(
                *old(shared),
                SessionEvent::IceDisconnected,
            ) && !signal,
            (new_state is Connected || new_state is Completed) ==> *final(shared)
                == SharedSession::spec_step(*old(shared), SessionEvent::IceConnected) && signal
                == (!(old(shared).state is Closed) && old(shared).media_added && !old(shared).started),
            (new_state is New || new_state is Checking) ==> *final(self) == *old(self)
                && *final(shared) == *old(shared) && !signal,
    {
        match new_state {
            IceConnectionState::Disconnected => {
                self.state = ConnectionState::Closed;
                shared.on_ice_disconnected();
                false
            },
            IceConnectionState::Connected | IceConnectionState::Completed => {
                let signal = shared.on_ice_connected();
                self.state = shared.state;
                signal
            },
            _ => false,
        }
    }

    /// Whether the connection is established.
    pub fn is_connected(&self) -> (r: bool)
        ensures
            r == (self.state is Connected),
    {
        matches!(self.state, ConnectionState::Connected)
    }

    /// Whether the session is closed.
    pub fn is_closed(&self) -> (r: bool)
        ensures
            r == (self.state is Closed),
    {
        matches!(self.state, ConnectionState::Closed)
    }

    /// Whether the driver should wait for an encoded frame at all: only
    /// while the session is connected and a track is bound.
    pub fn wants_frame(&self) -> (r: bool)
        ensures
            r == (self.state is Connected && self.track is Some),
    {
        matches!(self.state, ConnectionState::Connected) && self.track.is_some()
    }

    /// Dispatch one protocol event. A media announcement must already have
    /// been checked to be outbound video: the protocol forbids any other,
    /// and the embedding loop fails on it.
    pub fn handle_event(&mut self, shared: &mut SharedSession, ev: PeerEvent) -> (o: EventOutcome)
        requires
            old(shared).wf(),
            old(self).state == old(shared).state,
            ev matches PeerEvent::MediaAdded { kind_is_video, is_sending, .. } ==> kind_is_video
                && is_sending,
        ensures
            final(shared).wf(),
            final(self).state == final(shared).state,
            o.exit == (ev is IceStateChange && final(self).state is Closed),
            o.trace_channel_data == (ev matches PeerEvent::ChannelData { id } && old(
                self,
            ).events_channel == Some(id)),
            ev matches PeerEvent::IceStateChange { state } ==> {
                &&& final(self).track == old(self).track
                &&& final(self).events_channel == old(self).events_channel
                &&& final(self).bwe == old(self).bwe
                &&& (state is Disconnected ==> *final(shared) == SharedSession::spec_step(
                    *old(shared),
                    SessionEvent::IceDisconnected,
                ) && !o.signal_started)
                &&& ((state is Connected || state is Completed) ==> *final(shared)
                    == SharedSession::spec_step(*old(shared), SessionEvent::IceConnected)
                    && o.signal_started == (!(old(shared).state is Closed) && old(
                    shared,
                ).media_added && !old(shared).started))
                &&& ((state is New || state is Checking) ==> *final(self) == *old(self)
                    && *final(shared) == *old(shared) && !o.signal_started)
            },
            ev matches PeerEvent::MediaAdded { mid, params, .. } ==> {
                &&& final(self).state == old(self).state
                &&& final(self).events_channel == old(self).events_channel
                &&& final(self).bwe == old(self).bwe
                &&& (old(self).track is None ==> final(self).track == Some(
                    (Track { mid, params, accumulated_time: 0 }),
                ) && *final(shared) == SharedSession::spec_step(
                    *old(shared),
                    SessionEvent::MediaAdded,
                ) && o.signal_started == (old(shared).state is Connected && !old(shared).started))
                &&& (old(self).track is Some ==> *final(self) == *old(self) && *final(shared)
                    == *old(shared) && !o.signal_started)
            },
            ev matches PeerEvent::ChannelOpen { id, label } ==> final(self).events_channel == (
            if old(self).events_channel is Some {
                old(self).events_channel
            } else if is_events_label(vstd::utf8::encode_utf8(label@)) {
                Some(id)
            } else {
                None
            }) && final(self).track == old(self).track && *final(shared) == *old(shared)
                && !o.signal_started,
            ev matches PeerEvent::EgressBitrateEstimate { bps } ==> {
                &&& *final(shared) == (SharedSession {
                    estimated_bitrate: if bps <= crate::state::MAX_ESTIMATED_BITRATE {
                        bps
                    } else {
                        crate::state::MAX_ESTIMATED_BITRATE
                    },
                    ..*old(shared)
                })
                &&& final(self).bwe == final(shared).estimated_bitrate
                &&& final(self).track == old(self).track
                &&& final(self).events_channel == old(self).events_channel
                &&& final(self).state == old(self).state
                &&& !o.signal_started
            },
            (ev is ChannelData || ev is Other) ==> *final(self) == *old(self) && *final(shared)
                == *old(shared) && !o.signal_started,
    {
        match ev {
            PeerEvent::IceStateChange { state } => {
                let signal = self.ice_state_changed(shared, state);
                let exit = self.is_closed();
                EventOutcome { exit, signal_started: signal, trace_channel_data: false }
            },
            PeerEvent::MediaAdded { mid, params, kind_is_video: _, is_sending: _ } => {
                let r = self.add_media(shared, mid, params);
                EventOutcome { exit: false, signal_started: r.1, trace_channel_data: false }
            },
            PeerEvent::ChannelOpen { id, label } => {
                self.add_data_channel(id, label.as_str());
                EventOutcome { exit: false, signal_started: false, trace_channel_data: false }
            },
            PeerEvent::ChannelData { id } => {
                let on_events = match self.events_channel {
                    Some(events_id) => events_id == id,
                    None => false,
                };
                EventOutcome { exit: false, signal_started: false, trace_channel_data: on_events }
            },
            PeerEvent::EgressBitrateEstimate { bps } => {
                self.set_estimated_bitrate(shared, bps);
                EventOutcome { exit: false, signal_started: false, trace_channel_data: false }
            },
            PeerEvent::Other => {
                EventOutcome { exit: false, signal_started: false, trace_channel_data: false }
            },
        }
    }

    /// Decide what to do with one ready encoded frame: the bandwidth
    /// figures pushed back to the peer-state, and whether (and at which
    /// media timestamp) the payload is written to the track. A write
    /// happens only while the session is connected and a track is bound,
    /// and never for an empty payload.
    pub fn handle_frame(&mut self, payload_len: usize, duration: u64, frame_bitrate: u64) -> (d:
        FrameDecision)
        requires
            old(self).track is Some ==> old(self).track->Some_0.accumulated_time + duration / 2
                <= u64::MAX,
        ensures
            d.current_bitrate == frame_bitrate,
            d.desired_bitrate == spec_desired_bitrate(frame_bitrate),
            d.rtp_time is Some <==> (old(self).state is Connected && old(self).track is Some
                && payload_len > 0),
            final(self).state == old(self).state,
            final(self).events_channel == old(self).events_channel,
            final(self).bwe == old(self).bwe,
            d.rtp_time is Some ==> {
                &&& d.rtp_time == Some((rtp_from_nanos(
                    old(self).track->Some_0.accumulated_time,
                ) as u64))
                &&& final(self).track is Some
                &&& final(self).track->Some_0.accumulated_time == spec_advance_time(
                    old(self).track->Some_0.accumulated_time as int,
                    payload_len as nat,
                    duration,
                )
                &&& final(self).track->Some_0.mid == old(self).track->Some_0.mid
                &&& final(self).track->Some_0.params == old(self).track->Some_0.params
            },
            d.rtp_time is None ==> final(self).track == old(self).track,
    {
        let extra = {
            let tenth = frame_bitrate / 10;
            if tenth < MIN_EXTRA_BITRATE {
                MIN_EXTRA_BITRATE
            } else if tenth > MAX_EXTRA_BITRATE {
                MAX_EXTRA_BITRATE
            } else {
                tenth
            }
        };
        let desired = if frame_bitrate > u64::MAX - extra {
            u64::MAX
        } else {
            frame_bitrate + extra
        };

        let write = matches!(self.state, ConnectionState::Connected) && payload_len > 0;
        let rtp_time = if write {
            match &mut self.track {
                Some(track) => Some(track.advance(duration)),
                None => None,
            }
        } else {
            None
        };
        FrameDecision { current_bitrate: frame_bitrate, desired_bitrate: desired, rtp_time }
    }
}

/// How long the driver may wait before polling the peer-state again:
/// a deadline already reached asks for an immediate timeout input, a
/// future one for a bounded wait.
pub fn deadline_wait(deadline: u64, now: u64) -> (r: Option<u64>)
    ensures
        r == (if deadline <= now {
            None::<u64>
        } else {
            Some((deadline - now) as u64)
        }),
{
    if deadline <= now {
        None
    } else {
        Some(deadline - now)
    }
}

} // verus!
