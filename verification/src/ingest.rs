//! Ingestion loop: the life of the task that takes events from the stream.
//!
//! The loop owns the live channel map from the moment it is built and never
//! changes it. The caller does the waiting and the writing; the loop says
//! which state it is in, what to do there, and what each event asks of the
//! store.

use crate::event::{classified, classify_message, Event};
use crate::live::{IngestError, LiveChannelMap};
use crate::store::{command_view, StoreCommand};
use crate::updater::{first_command, first_command_spec, follow_up, follow_up_spec};
use twitch_irc::message::ServerMessage;
use vstd::prelude::*;

verus! {

/// Where the loop stands.
#[derive(Clone, Copy, Debug, PartialEq, Eq, Structural)]
pub enum LoopState {
    /// Not subscribed to the event stream yet.
    Starting,
    /// Taking events, one at a time.
    Running,
    /// The stream has ended or the process is shutting down.
    Draining,
    /// Done. Nothing follows.
    Stopped,
}

/// What happened outside the loop.
#[derive(Clone, Copy, Debug, PartialEq, Eq, Structural)]
pub enum LoopSignal {
    /// The subscription stands and the membership capability was requested.
    Subscribed,
    /// The event taken last has had all its writes applied.
    EventApplied,
    /// The upstream stream was closed.
    StreamClosed,
    /// The hosting process is shutting down.
    ShutdownRequested,
    /// Nothing is left to flush.
    Drained,
    /// A write or a dispatch failed.
    Failed(IngestError),
}

/// What the caller does next.
#[derive(Clone, Copy, Debug, PartialEq, Eq, Structural)]
pub enum LoopAction {
    /// Subscribe to the stream and request the membership capability.
    Subscribe,
    /// Wait for the next event and hand it over.
    TakeNext,
    /// Report that nothing is left to flush.
    Finish,
    /// End the task.
    Rest,
}

/// The state that follows `state` on `signal`. A failure stops the loop from
/// any state; the end of the stream or a shutdown drains it; `Stopped` is
/// never left.
pub open spec fn next_state_spec(state: LoopState, signal: LoopSignal) -> LoopState {
    match state {
        LoopState::Stopped => LoopState::Stopped,
        LoopState::Draining => match signal {
            LoopSignal::Drained => LoopState::Stopped,
            LoopSignal::Failed(_) => LoopState::Stopped,
            _ => LoopState::Draining,
        },
        LoopState::Running => match signal {
            LoopSignal::StreamClosed => LoopState::Draining,
            LoopSignal::ShutdownRequested => LoopState::Draining,
            LoopSignal::Failed(_) => LoopState::Stopped,
            _ => LoopState::Running,
        },
        LoopState::Starting => match signal {
            LoopSignal::Subscribed => LoopState::Running,
            LoopSignal::StreamClosed => LoopState::Draining,
            LoopSignal::ShutdownRequested => LoopState::Draining,
            LoopSignal::Failed(_) => LoopState::Stopped,
            _ => LoopState::Starting,
        },
    }
}

/// The failure on record after `signal`: the first one that reached a loop
/// that had not stopped.
pub open spec fn next_failure_spec(
    state: LoopState,
    failure: Option<IngestError>,
    signal: LoopSignal,
) -> Option<IngestError> {
    match signal {
        LoopSignal::Failed(e) => if state == LoopState::Stopped {
            failure
        } else {
            Some(e)
        },
        _ => failure,
    }
}

/// What there is to do in `state`.
pub open spec fn action_spec(state: LoopState) -> LoopAction {
    match state {
        LoopState::Starting => LoopAction::Subscribe,
        LoopState::Running => LoopAction::TakeNext,
        LoopState::Draining => LoopAction::Finish,
        LoopState::Stopped => LoopAction::Rest,
    }
}

pub fn next_state(state: LoopState, signal: LoopSignal) -> (next: LoopState)
    ensures
        next == next_state_spec(state, signal),
{
    match state {
        LoopState::Stopped => LoopState::Stopped,
        LoopState::Draining => match signal {
            LoopSignal::Drained => LoopState::Stopped,
            LoopSignal::Failed(_) => LoopState::Stopped,
            _ => LoopState::Draining,
        },
        LoopState::Running => match signal {
            LoopSignal::StreamClosed => LoopState::Draining,
            LoopSignal::ShutdownRequested => LoopState::Draining,
            LoopSignal::Failed(_) => LoopState::Stopped,
            _ => LoopState::Running,
        },
        LoopState::Starting => match signal {
            LoopSignal::Subscribed => LoopState::Running,
            LoopSignal::StreamClosed => LoopState::Draining,
            LoopSignal::ShutdownRequested => LoopState::Draining,
            LoopSignal::Failed(_) => LoopState::Stopped,
            _ => LoopState::Starting,
        },
    }
}

/// The ingestion loop: its state, the live channel map it was built with,
/// the failure that stopped it, if one did, and the store's own words where
/// that failure was a write.
pub struct IngestionLoop {
    state: LoopState,
    live: LiveChannelMap,
    failure: Option<IngestError>,
    store_error: Option<String>,
}

impl IngestionLoop {
    pub closed spec fn phase(&self) -> LoopState {
        self.state
    }

    /// The live channel map that the loop was built with.
    pub closed spec fn held(&self) -> LiveChannelMap {
        self.live
    }

    pub open spec fn channels(&self) -> Map<Seq<char>, Seq<char>> {
        self.held()@
    }

    pub closed spec fn stopped_by(&self) -> Option<IngestError> {
        self.failure
    }

    /// The error that the store gave for the write that stopped the loop.
    pub closed spec fn store_said(&self) -> Option<Seq<char>> {
        match self.store_error {
            Some(text) => Some(text@),
            None => None,
        }
    }

    /// A failure is on record only once the loop has stopped, and an error
    /// of the store only beside a failed write.
    pub open spec fn well_formed(&self) -> bool {
        &&& self.stopped_by() is Some ==> self.phase() == LoopState::Stopped
        &&& self.store_said() is Some ==> self.stopped_by() == Some(IngestError::StoreWriteError)
    }

    /// Takes the live channel map over and starts.
    pub fn new(live: LiveChannelMap) -> (ingestion: IngestionLoop)
        ensures
            ingestion.well_formed(),
            ingestion.phase() == LoopState::Starting,
            ingestion.held() == live,
            ingestion.stopped_by() == None::<IngestError>,
            ingestion.store_said() == None::<Seq<char>>,
    {
        IngestionLoop { state: LoopState::Starting, live, failure: None, store_error: None }
    }

    pub fn state(&self) -> (state: LoopState)
        ensures
            state == self.phase(),
    {
        self.state
    }

    pub fn failure(&self) -> (failure: Option<IngestError>)
        ensures
            failure == self.stopped_by(),
    {
        self.failure
    }

    /// The store's own error, where a failed write stopped the loop.
    pub fn store_error(&self) -> (text: Option<&String>)
        ensures
            match text {
                Some(t) => self.store_said() == Some(t@),
                None => self.store_said() is None,
            },
    {
        self.store_error.as_ref()
    }

    pub fn live(&self) -> (live: &LiveChannelMap)
        ensures
            *live == self.held(),
    {
        &self.live
    }

    /// What the caller does next.
    pub fn action(&self) -> (action: LoopAction)
        ensures
            action == action_spec(self.phase()),
    {
        match self.state {
            LoopState::Starting => LoopAction::Subscribe,
            LoopState::Running => LoopAction::TakeNext,
            LoopState::Draining => LoopAction::Finish,
            LoopState::Stopped => LoopAction::Rest,
        }
    }

    /// Moves on what happened outside. The live channel map stays as it is.
    pub fn signal(&mut self, signal: LoopSignal)
        requires
            old(self).well_formed(),
        ensures
            final(self).well_formed(),
            final(self).phase() == next_state_spec(old(self).phase(), signal),
            final(self).stopped_by() == next_failure_spec(
                old(self).phase(),
                old(self).stopped_by(),
                signal,
            ),
            final(self).held() == old(self).held(),
            final(self).store_said() == old(self).store_said(),
    {
        match signal {
            LoopSignal::Failed(e) => {
                if self.state != LoopState::Stopped {
                    self.failure = Some(e);
                }
            },
            _ => {},
        }
        self.state = next_state(self.state, signal);
    }

    /// Decides the first write of an event that was taken from the stream.
    /// Only a running loop takes events: in any other state nothing is
    /// decided and nothing changes. An event for a channel without a session
    /// stops the loop with that failure, and no write is decided.
    pub fn take(&mut self, event: &Event) -> (command: Option<StoreCommand>)
        requires
            old(self).well_formed(),
        ensures
            final(self).well_formed(),
            final(self).held() == old(self).held(),
            final(self).store_said() == old(self).store_said(),
            old(self).phase() != LoopState::Running ==> command is None && final(self).phase()
                == old(self).phase() && final(self).stopped_by() == old(self).stopped_by(),
            old(self).phase() == LoopState::Running ==> match first_command_spec(
                event@,
                old(self).channels(),
            ) {
                Ok(first) => command_view(command) == first && final(self).phase()
                    == LoopState::Running && final(self).stopped_by() == old(self).stopped_by(),
                Err(e) => command is None && final(self).phase() == LoopState::Stopped
                    && final(self).stopped_by() == Some(e),
            },
    {
        if self.state != LoopState::Running {
            return None;
        }
        match first_command(event, &self.live) {
            Ok(command) => command,
            Err(e) => {
                self.state = LoopState::Stopped;
                self.failure = Some(e);
                None
            },
        }
    }

    /// Decides the second write of an event from the store's answer to the
    /// first: the number of members that the add found new, or the store's
    /// error where the write failed. A failed write stops a running loop and
    /// leaves the store's error on record; no second write is decided, and
    /// the write is never retried and never passed over.
    pub fn answered(&mut self, event: &Event, answer: Result<u64, String>) -> (command: Option<
        StoreCommand,
    >)
        requires
            old(self).well_formed(),
        ensures
            final(self).well_formed(),
            final(self).held() == old(self).held(),
            old(self).phase() != LoopState::Running ==> command is None && final(self).phase()
                == old(self).phase() && final(self).stopped_by() == old(self).stopped_by()
                && final(self).store_said() == old(self).store_said(),
            old(self).phase() == LoopState::Running ==> match answer {
                Ok(added) => command_view(command) == follow_up_spec(event@, added as int)
                    && final(self).phase() == LoopState::Running
                    && final(self).stopped_by() == old(self).stopped_by()
                    && final(self).store_said() == old(self).store_said(),
                Err(error) => command is None && final(self).phase() == LoopState::Stopped
                    && final(self).stopped_by() == Some(IngestError::StoreWriteError)
                    && final(self).store_said() == Some(error@),
            },
    {
        if self.state != LoopState::Running {
            return None;
        }
        match answer {
            Ok(added) => follow_up(event, added),
            Err(error) => {
                self.state = LoopState::Stopped;
                self.failure = Some(IngestError::StoreWriteError);
                self.store_error = Some(error);
                None
            },
        }
    }

    /// Takes note that the store refused a write with `error`. A loop that
    /// has not stopped stops with that failure and keeps the store's error;
    /// a stopped loop keeps the failure it stopped with.
    pub fn write_failed(&mut self, error: String)
        requires
            old(self).well_formed(),
        ensures
            final(self).well_formed(),
            final(self).held() == old(self).held(),
            final(self).phase() == LoopState::Stopped,
            old(self).phase() == LoopState::Stopped ==> final(self).stopped_by()
                == old(self).stopped_by() && final(self).store_said() == old(self).store_said(),
            old(self).phase() != LoopState::Stopped ==> final(self).stopped_by()
                == Some(IngestError::StoreWriteError) && final(self).store_said() == Some(error@),
    {
        if self.state != LoopState::Stopped {
            self.state = LoopState::Stopped;
            self.failure = Some(IngestError::StoreWriteError);
            self.store_error = Some(error);
        }
    }

    /// Classifies a raw platform message and takes it as [`Self::take`]
    /// does. The classified event comes back for the second step.
    pub fn take_message(&mut self, message: ServerMessage) -> (r: (Event, Option<StoreCommand>))
        requires
            old(self).well_formed(),
        ensures
            r.0@ == classified(message),
            final(self).well_formed(),
            final(self).held() == old(self).held(),
            final(self).store_said() == old(self).store_said(),
            old(self).phase() != LoopState::Running ==> r.1 is None && final(self).phase()
                == old(self).phase() && final(self).stopped_by() == old(self).stopped_by(),
            old(self).phase() == LoopState::Running ==> match first_command_spec(
                classified(message),
                old(self).channels(),
            ) {
                Ok(first) => command_view(r.1) == first && final(self).phase()
                    == LoopState::Running && final(self).stopped_by() == old(self).stopped_by(),
                Err(e) => r.1 is None && final(self).phase() == LoopState::Stopped
                    && final(self).stopped_by() == Some(e),
            },
    {
        let event = classify_message(message);
        let command = self.take(&event);
        (event, command)
    }
}

/// Once stopped, the loop stays stopped, whatever happens.
pub proof fn law_stopped_is_final(signal: LoopSignal)
    ensures
        next_state_spec(LoopState::Stopped, signal) == LoopState::Stopped,
{
}

/// A failure stops the loop from every state.
pub proof fn law_failure_stops(state: LoopState, e: IngestError)
    ensures
        next_state_spec(state, LoopSignal::Failed(e)) == LoopState::Stopped,
{
}

/// The end of the stream, or a shutdown, drains a loop that is starting or
/// running, and a drained loop stops.
pub proof fn law_closure_drains(state: LoopState)
    requires
        state == LoopState::Starting || state == LoopState::Running,
    ensures
        next_state_spec(state, LoopSignal::StreamClosed) == LoopState::Draining,
        next_state_spec(state, LoopSignal::ShutdownRequested) == LoopState::Draining,
        next_state_spec(LoopState::Draining, LoopSignal::Drained) == LoopState::Stopped,
{
}

} // verus!
