//! Event classifier: what a raw platform message means to the aggregates.

use twitch_irc::message::ServerMessage;
use vstd::prelude::*;

verus! {

/// A platform event as the aggregates see it.
#[derive(Debug, PartialEq, Eq)]
pub enum Event {
    /// Somebody said something in a channel's chat.
    ChatMessage { channel: String, sender: String, text: String },
    /// Somebody entered a channel's chat.
    ParticipantJoin { channel: String, user: String },
    /// Anything else. It is data, not an error, and changes nothing.
    Ignored,
}

/// The mathematical value of an [`Event`].
pub enum EventView {
    ChatMessage { channel: Seq<char>, sender: Seq<char>, text: Seq<char> },
    ParticipantJoin { channel: Seq<char>, user: Seq<char> },
    Ignored,
}

impl View for Event {
    type V = EventView;

    open spec fn view(&self) -> EventView {
        match self {
            Event::ChatMessage { channel, sender, text } => EventView::ChatMessage {
                channel: channel@,
                sender: sender@,
                text: text@,
            },
            Event::ParticipantJoin { channel, user } => EventView::ParticipantJoin {
                channel: channel@,
                user: user@,
            },
            Event::Ignored => EventView::Ignored,
        }
    }
}

impl Clone for Event {
    fn clone(&self) -> (copy: Event)
        ensures
            copy@ == self@,
    {
        match self {
            Event::ChatMessage { channel, sender, text } => Event::ChatMessage {
                channel: channel.clone(),
                sender: sender.clone(),
                text: text.clone(),
            },
            Event::ParticipantJoin { channel, user } => Event::ParticipantJoin {
                channel: channel.clone(),
                user: user.clone(),
            },
            Event::Ignored => Event::Ignored,
        }
    }
}

impl EventView {
    /// Whether the event asks for an aggregate update.
    pub open spec fn is_tracked(self) -> bool {
        !(self is Ignored)
    }

    /// The channel that a tracked event belongs to.
    pub open spec fn channel(self) -> Seq<char>
        recommends
            self.is_tracked(),
    {
        match self {
            EventView::ChatMessage { channel, .. } => channel,
            EventView::ParticipantJoin { channel, .. } => channel,
            EventView::Ignored => Seq::empty(),
        }
    }
}

impl Event {
    pub fn chat_message(channel: &str, sender: &str, text: &str) -> (event: Event)
        ensures
            event@ == (EventView::ChatMessage { channel: channel@, sender: sender@, text: text@ }),
    {
        Event::ChatMessage {
            channel: String::from_str(channel),
            sender: String::from_str(sender),
            text: String::from_str(text),
        }
    }

    pub fn participant_join(channel: &str, user: &str) -> (event: Event)
        ensures
            event@ == (EventView::ParticipantJoin { channel: channel@, user: user@ }),
    {
        Event::ParticipantJoin { channel: String::from_str(channel), user: String::from_str(user) }
    }
}

#[verifier::external_type_specification]
#[verifier::external_body]
pub struct ExServerMessage(ServerMessage);

/// The event that a server message is classified as: the result of
/// [`classify_message`], which depends on the message alone.
pub uninterp spec fn classified(message: ServerMessage) -> EventView;

/// Tells the variants of `twitch_irc::message::ServerMessage` apart. A
/// `Privmsg` gives a chat message with the channel's login, the sender's
/// display name and the text; a `Join` gives a participant join with the
/// channel's login and the user's login; every other variant, those of later
/// protocol versions too, is ignored. A server message has no mathematical
/// value here, so the contract only gives the result its name: the same
/// message is always classified alike, and nothing is claimed of which
/// event a given message gives.
#[verifier::external_body]
pub(crate) fn classify_message(message: ServerMessage) -> (event: Event)
    ensures
        event@ == classified(message),
{
    match message {
        ServerMessage::Privmsg(m) => Event::ChatMessage {
            channel: m.channel_login,
            sender: m.sender.name,
            text: m.message_text,
        },
        ServerMessage::Join(m) => Event::ParticipantJoin {
            channel: m.channel_login,
            user: m.user_login,
        },
        _ => Event::Ignored,
    }
}

} // verus!
