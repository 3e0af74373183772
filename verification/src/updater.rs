//! Aggregate updater: which writes an event asks of the backing store.
//!
//! An event takes at most two writes. The first is decided from the event
//! and the live channel map; the second from the event and the store's
//! answer to the first. The caller sends each write and hands the answer
//! back.

use crate::event::{classified, classify_message, Event, EventView};
use crate::keys::{
    join_key, join_key_spec, message_key, message_key_spec, message_record, record_spec,
    streak_key, streak_key_spec,
};
use crate::live::{IngestError, LiveChannelMap};
use crate::store::{command_view, CommandView, StoreCommand, StoreModel};
use twitch_irc::message::ServerMessage;
use vstd::prelude::*;

verus! {

/// The first write of an event: none for an ignored event, an error for a
/// channel without a session, else the add to the session's message log or
/// join set.
pub open spec fn first_command_spec(event: EventView, live: Map<Seq<char>, Seq<char>>) -> Result<
    Option<CommandView>,
    IngestError,
> {
    match event {
        EventView::Ignored => Ok(None),
        EventView::ChatMessage { channel, sender, text } => if live.contains_key(channel) {
            Ok(
                Some(
                    CommandView::AddMember {
                        key: message_key_spec(channel, live[channel]),
                        member: record_spec(sender, text),
                    },
                ),
            )
        } else {
            Err(IngestError::UnknownChannelSession)
        },
        EventView::ParticipantJoin { channel, user } => if live.contains_key(channel) {
            Ok(
                Some(
                    CommandView::AddMember {
                        key: join_key_spec(channel, live[channel]),
                        member: user,
                    },
                ),
            )
        } else {
            Err(IngestError::UnknownChannelSession)
        },
    }
}

/// The second write of an event: the streak increment, for a join whose add
/// was answered with exactly one new member; none otherwise.
pub open spec fn follow_up_spec(event: EventView, added: int) -> Option<CommandView> {
    match event {
        EventView::ParticipantJoin { channel, user } => if added == 1 {
            Some(CommandView::IncrementScore { key: streak_key_spec(channel), member: user, delta: 1 })
        } else {
            None
        },
        _ => None,
    }
}

/// The store after one event went through both steps, or the error that
/// stopped it before any write.
pub open spec fn dispatch_spec(
    store: StoreModel,
    live: Map<Seq<char>, Seq<char>>,
    event: EventView,
) -> Result<StoreModel, IngestError> {
    match first_command_spec(event, live) {
        Err(e) => Err(e),
        Ok(None) => Ok(store),
        Ok(Some(first)) => match follow_up_spec(event, store.reply(first)) {
            None => Ok(store.after(first)),
            Some(second) => Ok(store.after(first).after(second)),
        },
    }
}

/// The store after the same event was dispatched `n` times in a row.
pub open spec fn dispatch_repeat_spec(
    store: StoreModel,
    live: Map<Seq<char>, Seq<char>>,
    event: EventView,
    n: nat,
) -> Result<StoreModel, IngestError>
    decreases n,
{
    if n == 0 {
        Ok(store)
    } else {
        match dispatch_repeat_spec(store, live, event, (n - 1) as nat) {
            Ok(s) => dispatch_spec(s, live, event),
            Err(e) => Err(e),
        }
    }
}

/// The view of the outcome of the first step.
pub open spec fn first_view(r: Result<Option<StoreCommand>, IngestError>) -> Result<
    Option<CommandView>,
    IngestError,
> {
    match r {
        Ok(c) => Ok(command_view(c)),
        Err(e) => Err(e),
    }
}

/// Decides the first write of an event.
pub fn first_command(event: &Event, live: &LiveChannelMap) -> (r: Result<
    Option<StoreCommand>,
    IngestError,
>)
    ensures
        first_view(r) == first_command_spec(event@, live@),
{
    match event {
        Event::Ignored => Ok(None),
        Event::ChatMessage { channel, sender, text } => match live.session_of(channel.as_str()) {
            None => Err(IngestError::UnknownChannelSession),
            Some(session) => Ok(
                Some(
                    StoreCommand::AddMember {
                        key: message_key(channel.as_str(), session.as_str()),
                        member: message_record(sender.as_str(), text.as_str()),
                    },
                ),
            ),
        },
        Event::ParticipantJoin { channel, user } => match live.session_of(channel.as_str()) {
            None => Err(IngestError::UnknownChannelSession),
            Some(session) => Ok(
                Some(
                    StoreCommand::AddMember {
                        key: join_key(channel.as_str(), session.as_str()),
                        member: user.clone(),
                    },
                ),
            ),
        },
    }
}

/// Decides the second write of an event from the store's answer to the
/// first: `added` is the number of members that the add found new.
pub fn follow_up(event: &Event, added: u64) -> (command: Option<StoreCommand>)
    ensures
        command_view(command) == follow_up_spec(event@, added as int),
{
    match event {
        Event::ParticipantJoin { channel, user } => if added == 1 {
            Some(
                StoreCommand::IncrementScore {
                    key: streak_key(channel.as_str()),
                    member: user.clone(),
                    delta: 1,
                },
            )
        } else {
            None
        },
        _ => None,
    }
}

/// Classifies a raw platform message and decides its first write. The
/// classified event comes back with it, for the second step.
pub fn handle_message(message: ServerMessage, live: &LiveChannelMap) -> (r: (
    Event,
    Result<Option<StoreCommand>, IngestError>,
))
    ensures
        r.0@ == classified(message),
        first_view(r.1) == first_command_spec(classified(message), live@),
{
    let event = classify_message(message);
    let first = first_command(&event, live);
    (event, first)
}

} // verus!
