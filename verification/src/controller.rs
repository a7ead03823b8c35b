//! The command-driven capture supervisor.
//!
//! The controller holds at most one capture session at a time — the
//! `Option<u64>` session handle encodes that central invariant by
//! construction. Commands are processed strictly in arrival order by one
//! control thread: `SelectDevice` first tears the current session down and
//! resets the beat detector, then — only after the attempt to start the new
//! hardware stream has concluded — installs the new session; `Stop` tears
//! down and terminates the controller for good. Each session carries a fresh
//! identifier, never reused, so a frame attributable to a torn-down session
//! can never be accepted again.

use vstd::prelude::*;
use crate::detector::{initial_detector, BeatDetector};

verus! {

/// A command for the control thread, as enqueued by the control plane.
#[derive(Debug, PartialEq, Eq, Clone, Copy, Structural)]
pub enum AudioCommand {
    SelectDevice(usize),
    Stop,
}

/// The controller's lifecycle phase.
#[derive(Debug, PartialEq, Eq, Clone, Copy, Structural)]
pub enum Phase {
    Idle,
    Streaming,
    Terminated,
}

/// Which device a `SelectDevice` request resolves to.
#[derive(Debug, PartialEq, Eq, Clone, Copy, Structural)]
pub enum DeviceChoice {
    /// The requested index, valid against the fresh enumeration.
    Requested(usize),
    /// The backend's default input device, used when the index is out of
    /// range or the enumeration is empty.
    FallbackDefault,
}

/// Why starting a session failed; every failure leaves the controller Idle.
#[derive(Debug, PartialEq, Eq, Clone, Copy, Structural)]
pub enum StartFailure {
    /// Requested index invalid and no default device exists.
    NoDevice,
    /// The backend rejected the device's configuration query.
    ConfigQuery,
    /// The device's native sample representation is unsupported.
    UnsupportedFormat,
    /// The backend failed to build the stream.
    Build,
    /// The backend failed to start the built stream.
    Play,
}

/// Resolution of a requested device index against a fresh enumeration of
/// `device_count` devices: the index itself when in range, else the default
/// device when one exists, else nothing.
pub open spec fn spec_resolve_device(requested: usize, device_count: usize, has_default: bool) -> Option<DeviceChoice> {
    if requested < device_count {
        Option::Some(DeviceChoice::Requested(requested))
    } else if has_default {
        Option::Some(DeviceChoice::FallbackDefault)
    } else {
        Option::None
    }
}

/// Picks the device a `SelectDevice(requested)` command binds to, given the
/// fresh enumeration's size and whether a default input device exists.
pub fn resolve_device(requested: usize, device_count: usize, has_default: bool) -> (r: Option<DeviceChoice>)
    ensures
        r == spec_resolve_device(requested, device_count, has_default),
{
    if requested < device_count {
        Some(DeviceChoice::Requested(requested))
    } else if has_default {
        Some(DeviceChoice::FallbackDefault)
    } else {
        None
    }
}

/// The controller's control-plane state: its phase, the identifier of the
/// one live session if any, and the next identifier to hand out.
#[derive(Debug, Clone, Copy)]
pub struct ControlState {
    pub phase: Phase,
    pub active_session: Option<u64>,
    pub next_session_id: u64,
}

/// A step of the control protocol, as seen by the state machine.
#[derive(Debug, PartialEq, Eq, Clone, Copy, Structural)]
pub enum ControlEvent {
    /// A `SelectDevice` command arrived: tear down the current session.
    BeginSelect,
    /// The attempt to start the new session concluded, successfully or not.
    FinishSelect(bool),
    /// A `Stop` command arrived.
    Stop,
}

/// Whether the active session is the one identified by `sid`: only its
/// callback's frames are attributable to the controller's current stream.
pub open spec fn session_active(s: ControlState, sid: u64) -> bool {
    s.active_session == Option::Some(sid)
}

/// A session that existed once and is no longer the live one.
pub open spec fn session_retired(s: ControlState, sid: u64) -> bool {
    &&& sid < s.next_session_id
    &&& s.active_session != Option::Some(sid)
}

/// Whether the state machine accepts an event in a state; events arriving
/// out of protocol leave the state unchanged.
pub open spec fn event_allowed(s: ControlState, ev: ControlEvent) -> bool {
    match ev {
        ControlEvent::BeginSelect => s.phase != Phase::Terminated,
        ControlEvent::FinishSelect(_) => s.phase == Phase::Idle && s.next_session_id < u64::MAX,
        ControlEvent::Stop => true,
    }
}

/// The state after one protocol event. Teardown always precedes the start
/// of the next session: `BeginSelect` clears the live session, and only a
/// successful `FinishSelect` installs a new one, under a fresh identifier.
pub open spec fn control_step(s: ControlState, ev: ControlEvent) -> ControlState {
    if !event_allowed(s, ev) {
        s
    } else {
        match ev {
            ControlEvent::BeginSelect => ControlState {
                phase: Phase::Idle,
                active_session: Option::None,
                next_session_id: s.next_session_id,
            },
            ControlEvent::FinishSelect(started) => if started {
                ControlState {
                    phase: Phase::Streaming,
                    active_session: Option::Some(s.next_session_id),
                    next_session_id: (s.next_session_id + 1) as u64,
                }
            } else {
                s
            },
            ControlEvent::Stop => ControlState {
                phase: Phase::Terminated,
                active_session: Option::None,
                next_session_id: s.next_session_id,
            },
        }
    }
}

/// The state after a whole sequence of protocol events, applied in order.
pub open spec fn run_control(s: ControlState, evs: Seq<ControlEvent>) -> ControlState
    decreases evs.len(),
{
    if evs.len() == 0 {
        s
    } else {
        run_control(control_step(s, evs[0]), evs.skip(1))
    }
}

impl ControlState {
    /// The state invariant: a live session exists exactly in the Streaming
    /// phase, and every identifier ever issued is below the next one.
    pub open spec fn wf(self) -> bool {
        &&& (self.active_session matches Option::Some(id) ==> id < self.next_session_id)
        &&& ((self.phase == Phase::Streaming) <==> (self.active_session matches Option::Some(_)))
    }

    /// A fresh controller: Idle, with no session ever started.
    pub fn new() -> (s: ControlState)
        ensures
            s.wf(),
            s.phase == Phase::Idle,
            s.active_session == Option::<u64>::None,
            s.next_session_id == 0,
    {
        ControlState { phase: Phase::Idle, active_session: None, next_session_id: 0 }
    }

    /// First half of a `SelectDevice` command: tears down the current
    /// session (if any) and resets the beat detector, strictly before any
    /// new stream may be constructed. The torn-down session is retired for
    /// good; its identifier is returned for the caller's bookkeeping.
    pub fn begin_select(&mut self, detector: &mut BeatDetector) -> (prev: Option<u64>)
        requires
            old(self).wf(),
            old(self).phase != Phase::Terminated,
        ensures
            *final(self) == control_step(*old(self), ControlEvent::BeginSelect),
            final(self).wf(),
            prev == old(self).active_session,
            final(self).phase == Phase::Idle,
            final(self).active_session == Option::<u64>::None,
            (prev matches Option::Some(a) ==> session_retired(*final(self), a)),
            *final(detector) == initial_detector(),
    {
        let prev = self.active_session;
        self.active_session = None;
        self.phase = Phase::Idle;
        detector.reset();
        prev
    }

    /// Second half of a `SelectDevice` command, once the attempt to start
    /// the new hardware stream has concluded: on success the controller
    /// enters Streaming under a fresh session identifier; on any failure it
    /// remains Idle, with no live session.
    pub fn finish_select(&mut self, outcome: &Result<(), StartFailure>) -> (sid: Option<u64>)
        requires
            old(self).wf(),
            old(self).phase == Phase::Idle,
            old(self).next_session_id < u64::MAX,
        ensures
            *final(self) == control_step(
                *old(self),
                ControlEvent::FinishSelect(outcome matches Result::Ok(_)),
            ),
            final(self).wf(),
            (outcome matches Result::Ok(_) ==> {
                &&& sid == Option::Some(old(self).next_session_id)
                &&& final(self).active_session == sid
                &&& final(self).phase == Phase::Streaming
                &&& final(self).next_session_id == old(self).next_session_id + 1
            }),
            (outcome matches Result::Err(_) ==> {
                &&& sid == Option::<u64>::None
                &&& *final(self) == *old(self)
            }),
    {
        match outcome {
            Ok(()) => {
                let sid = self.next_session_id;
                self.active_session = Some(sid);
                self.next_session_id = self.next_session_id + 1;
                self.phase = Phase::Streaming;
                Some(sid)
            }
            Err(_) => None,
        }
    }

    /// A `Stop` command: tears down the current session (if any) and
    /// terminates the controller; a stopped controller never streams again.
    pub fn handle_stop(&mut self)
        requires
            old(self).wf(),
        ensures
            *final(self) == control_step(*old(self), ControlEvent::Stop),
            final(self).wf(),
            final(self).phase == Phase::Terminated,
            final(self).active_session == Option::<u64>::None,
    {
        self.active_session = None;
        self.phase = Phase::Terminated;
    }

    /// Whether frames carrying session identifier `sid` belong to the
    /// currently live stream; the emission path drops any others.
    pub fn is_session_active(&self, sid: u64) -> (r: bool)
        ensures
            r == session_active(*self, sid),
    {
        match self.active_session {
            Some(a) => a == sid,
            None => false,
        }
    }
}

/// One protocol step can never revive a retired session: identifiers are
/// issued fresh, strictly increasing.
pub proof fn lemma_retired_stays_retired(s: ControlState, sid: u64, ev: ControlEvent)
    requires
        s.wf(),
        session_retired(s, sid),
    ensures
        control_step(s, ev).wf(),
        session_retired(control_step(s, ev), sid),
{
}

/// Once a device switch has torn a session down, no sequence of further
/// commands ever makes that session active again — so after `SelectDevice`
/// completes, no FeatureFrame attributable to the previous device's stream
/// passes the emission gate.
pub proof fn lemma_no_stale_session(s: ControlState, sid: u64, evs: Seq<ControlEvent>)
    requires
        s.wf(),
        session_retired(s, sid),
    ensures
        run_control(s, evs).wf(),
        session_retired(run_control(s, evs), sid),
        !session_active(run_control(s, evs), sid),
    decreases evs.len(),
{
    if evs.len() > 0 {
        lemma_retired_stays_retired(s, sid, evs[0]);
        lemma_no_stale_session(control_step(s, evs[0]), sid, evs.skip(1));
    }
}

} // verus!
