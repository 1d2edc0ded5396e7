//! The decisions of the reconnecting link: from its state and what just
//! happened to its next state and what to do next.
//!
//! An attempt to connect always races a backoff timer. A timer that runs out
//! first abandons the attempt and starts a new one; an attempt that fails
//! first waits out the timer. Any failure once connected, a short read or a
//! malformed payload alike, drops the connection and starts over.

use vstd::prelude::*;
use crate::endpoint::{get_addr, is_endpoint_of, Endpoint};
use crate::message::{decode_payload, decode_spec, Decoded};

verus! {

/// The backoff between attempts to connect, in milliseconds.
pub const BACKOFF_MS: u64 = 300;

#[derive(Clone, Copy, Debug, PartialEq, Eq, Structural)]
pub enum LinkState {
    /// An attempt to connect races the backoff timer.
    Connecting,
    /// An attempt failed; the backoff timer still runs.
    BackingOff,
    /// Connected: frames are read one after another.
    Open,
}

/// What the outside world reports to the link.
#[derive(Clone, Debug)]
pub enum LinkEvent {
    AttemptSucceeded,
    AttemptFailed,
    BackoffElapsed,
    /// A whole frame arrived; this is its payload.
    FrameRead(Vec<u8>),
    /// The connection closed or failed before a whole frame arrived.
    ReadFailed,
}

/// A change of connection status to announce.
#[derive(Clone, Copy, Debug, PartialEq, Eq, Structural)]
pub enum Notice {
    Quiet,
    Connected,
    Disconnected,
}

/// What the outside world is to do next.
#[derive(Clone, Copy, Debug)]
pub enum Next {
    /// Drop any connection or attempt, start the backoff timer and race a new
    /// attempt to connect to this endpoint against it.
    Connect(Endpoint),
    /// Wait until the running backoff timer runs out.
    AwaitBackoff,
    /// Read the next frame from the connection.
    ReadFrame,
}

/// The link's answer to one event.
#[derive(Clone, Debug)]
pub struct Reaction {
    pub notice: Notice,
    /// A payload decoded from the frame just read, to be rendered.
    pub shown: Option<Decoded>,
    pub next: Next,
}

/// The connection manager of one team's controller.
#[derive(Clone, Copy, Debug)]
pub struct Link {
    pub team: u16,
    pub state: LinkState,
}

/// What a state waits for, asked again after an event that does not fit it.
pub open spec fn pending(next: Next, team: u16, state: LinkState) -> bool {
    match state {
        LinkState::Connecting => next matches Next::Connect(e) && is_endpoint_of(e, team),
        LinkState::BackingOff => next == Next::AwaitBackoff,
        LinkState::Open => next == Next::ReadFrame,
    }
}

/// A connection (or attempt) is given up on: start over.
pub open spec fn restarts(r: Reaction, team: u16, notice: Notice) -> bool {
    r.notice == notice && r.shown is None && (r.next matches Next::Connect(e) && is_endpoint_of(e, team))
}

impl Link {
    /// A link that is about to make its first attempt, and that attempt.
    pub fn new(team: u16) -> (r: (Link, Next))
        ensures
            r.0.team == team,
            r.0.state == LinkState::Connecting,
            r.1 matches Next::Connect(e) && is_endpoint_of(e, team),
    {
        (Link { team, state: LinkState::Connecting }, Next::Connect(get_addr(team)))
    }

    fn resume(&self) -> (r: Reaction)
        ensures
            r.notice == Notice::Quiet,
            r.shown is None,
            pending(r.next, self.team, self.state),
    {
        let next = match self.state {
            LinkState::Connecting => Next::Connect(get_addr(self.team)),
            LinkState::BackingOff => Next::AwaitBackoff,
            LinkState::Open => Next::ReadFrame,
        };
        Reaction { notice: Notice::Quiet, shown: None, next }
    }

    /// Takes one event and says what to do next.
    pub fn step(&mut self, ev: LinkEvent) -> (r: Reaction)
        ensures
            final(self).team == old(self).team,
            match (old(self).state, ev) {
                (LinkState::Connecting, LinkEvent::AttemptSucceeded) => final(self).state
                    == LinkState::Open && r.notice == Notice::Connected && r.shown is None
                    && r.next == Next::ReadFrame,
                (LinkState::Connecting, LinkEvent::AttemptFailed) => final(self).state
                    == LinkState::BackingOff && r.notice == Notice::Quiet && r.shown is None
                    && r.next == Next::AwaitBackoff,
                (LinkState::Connecting, LinkEvent::BackoffElapsed) => final(self).state
                    == LinkState::Connecting && restarts(r, old(self).team, Notice::Quiet),
                (LinkState::BackingOff, LinkEvent::BackoffElapsed) => final(self).state
                    == LinkState::Connecting && restarts(r, old(self).team, Notice::Quiet),
                (LinkState::Open, LinkEvent::FrameRead(p)) => match decode_spec(p@) {
                    Ok(d) => final(self).state == LinkState::Open && r.notice == Notice::Quiet
                        && (r.shown matches Some(x) && x@ == d) && r.next == Next::ReadFrame,
                    Err(_) => final(self).state == LinkState::Connecting && restarts(
                        r,
                        old(self).team,
                        Notice::Disconnected,
                    ),
                },
                (LinkState::Open, LinkEvent::ReadFailed) => final(self).state
                    == LinkState::Connecting && restarts(r, old(self).team, Notice::Disconnected),
                _ => final(self).state == old(self).state && r.notice == Notice::Quiet
                    && r.shown is None && pending(r.next, old(self).team, old(self).state),
            },
    {
        match (self.state, ev) {
            (LinkState::Connecting, LinkEvent::AttemptSucceeded) => {
                self.state = LinkState::Open;
                Reaction { notice: Notice::Connected, shown: None, next: Next::ReadFrame }
            },
            (LinkState::Connecting, LinkEvent::AttemptFailed) => {
                self.state = LinkState::BackingOff;
                Reaction { notice: Notice::Quiet, shown: None, next: Next::AwaitBackoff }
            },
            (LinkState::Connecting, LinkEvent::BackoffElapsed) | (
                LinkState::BackingOff,
                LinkEvent::BackoffElapsed,
            ) => {
                self.state = LinkState::Connecting;
                Reaction { notice: Notice::Quiet, shown: None, next: Next::Connect(get_addr(self.team)) }
            },
            (LinkState::Open, LinkEvent::FrameRead(p)) => match decode_payload(p.as_slice()) {
                Ok(d) => Reaction { notice: Notice::Quiet, shown: Some(d), next: Next::ReadFrame },
                Err(_) => {
                    self.state = LinkState::Connecting;
                    Reaction {
                        notice: Notice::Disconnected,
                        shown: None,
                        next: Next::Connect(get_addr(self.team)),
                    }
                },
            },
            (LinkState::Open, LinkEvent::ReadFailed) => {
                self.state = LinkState::Connecting;
                Reaction {
                    notice: Notice::Disconnected,
                    shown: None,
                    next: Next::Connect(get_addr(self.team)),
                }
            },
            _ => self.resume(),
        }
    }
}

} // verus!
