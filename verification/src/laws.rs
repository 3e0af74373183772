//! What holds of the aggregates, whatever the events are.

use crate::event::EventView;
use crate::keys::{
    colon_free, join_key_spec, law_join_keys_injective, law_kinds_disjoint,
    law_message_keys_injective, law_sessions_isolated, law_streak_key_injective,
    message_key_spec, record_spec, streak_key_spec,
};
use crate::live::IngestError;
use crate::store::StoreModel;
use crate::updater::{dispatch_repeat_spec, dispatch_spec, first_command_spec, follow_up_spec};
use vstd::prelude::*;

verus! {

/// The store after `user` joined the session with join set `joins` and
/// streaks `streaks` `n` times in a row: the user is in the join set, and
/// the streak went up by one if and only if the user was not there before.
pub open spec fn after_joins(
    store: StoreModel,
    joins: Seq<char>,
    streaks: Seq<char>,
    user: Seq<char>,
    n: nat,
) -> StoreModel {
    if store.members(joins).contains(user) {
        StoreModel {
            sets: store.sets.insert(joins, store.members(joins)),
            scores: store.scores,
            writes: store.writes + n,
        }
    } else {
        StoreModel {
            sets: store.sets.insert(joins, store.members(joins).insert(user)),
            scores: store.scores.insert((streaks, user), store.score(streaks, user) + 1),
            writes: store.writes + n + 1,
        }
    }
}

/// The store after the record `record` was added `n` times in a row to the
/// message log `log`.
pub open spec fn after_messages(store: StoreModel, log: Seq<char>, record: Seq<char>, n: nat) -> StoreModel {
    StoreModel {
        sets: store.sets.insert(log, store.members(log).insert(record)),
        scores: store.scores,
        writes: store.writes + n,
    }
}

/// However often the same user joins the same session of a channel, the join
/// set holds the user once, and the user's watch streak rises by exactly one
/// if the user was new to the session and not at all otherwise. Nothing else
/// in the store changes.
pub proof fn law_repeated_join(
    store: StoreModel,
    live: Map<Seq<char>, Seq<char>>,
    channel: Seq<char>,
    user: Seq<char>,
    n: nat,
)
    requires
        n >= 1,
        live.contains_key(channel),
    ensures
        dispatch_repeat_spec(store, live, EventView::ParticipantJoin { channel, user }, n) == Ok::<
            StoreModel,
            IngestError,
        >(
            after_joins(
                store,
                join_key_spec(channel, live[channel]),
                streak_key_spec(channel),
                user,
                n,
            ),
        ),
        after_joins(
            store,
            join_key_spec(channel, live[channel]),
            streak_key_spec(channel),
            user,
            n,
        ).members(join_key_spec(channel, live[channel])) == store.members(
            join_key_spec(channel, live[channel]),
        ).insert(user),
        after_joins(
            store,
            join_key_spec(channel, live[channel]),
            streak_key_spec(channel),
            user,
            n,
        ).score(streak_key_spec(channel), user) == store.score(streak_key_spec(channel), user) + (if store.members(
            join_key_spec(channel, live[channel]),
        ).contains(user) {
            0int
        } else {
            1int
        }),
    decreases n,
{
    let event = EventView::ParticipantJoin { channel, user };
    let joins = join_key_spec(channel, live[channel]);
    let streaks = streak_key_spec(channel);
    let expected = after_joins(store, joins, streaks, user, n);
    assert(store.members(joins).contains(user) ==> store.members(joins).insert(user)
        =~= store.members(joins));
    if n == 1 {
        assert(dispatch_repeat_spec(store, live, event, 0) == Ok::<StoreModel, IngestError>(store));
        let got = dispatch_spec(store, live, event)->Ok_0;
        assert(got.sets =~= expected.sets);
        assert(got.scores =~= expected.scores);
    } else {
        law_repeated_join(store, live, channel, user, (n - 1) as nat);
        let before = after_joins(store, joins, streaks, user, (n - 1) as nat);
        assert(before.members(joins).contains(user));
        assert(before.members(joins).insert(user) =~= before.members(joins));
        let got = dispatch_spec(before, live, event)->Ok_0;
        assert(got.sets =~= expected.sets);
        assert(got.scores =~= expected.scores);
    }
}

/// However often the same chat message arrives in the same session of a
/// channel, the message log gains its record once, and no score changes.
pub proof fn law_repeated_message(
    store: StoreModel,
    live: Map<Seq<char>, Seq<char>>,
    channel: Seq<char>,
    sender: Seq<char>,
    text: Seq<char>,
    n: nat,
)
    requires
        n >= 1,
        live.contains_key(channel),
    ensures
        dispatch_repeat_spec(
            store,
            live,
            EventView::ChatMessage { channel, sender, text },
            n,
        ) == Ok::<StoreModel, IngestError>(
            after_messages(
                store,
                message_key_spec(channel, live[channel]),
                record_spec(sender, text),
                n,
            ),
        ),
        after_messages(
            store,
            message_key_spec(channel, live[channel]),
            record_spec(sender, text),
            n,
        ).members(message_key_spec(channel, live[channel])) == store.members(
            message_key_spec(channel, live[channel]),
        ).insert(record_spec(sender, text)),
    decreases n,
{
    let event = EventView::ChatMessage { channel, sender, text };
    let log = message_key_spec(channel, live[channel]);
    let record = record_spec(sender, text);
    let expected = after_messages(store, log, record, n);
    if n == 1 {
        assert(dispatch_repeat_spec(store, live, event, 0) == Ok::<StoreModel, IngestError>(store));
    } else {
        law_repeated_message(store, live, channel, sender, text, (n - 1) as nat);
        let before = after_messages(store, log, record, (n - 1) as nat);
        assert(before.members(log).insert(record) =~= before.members(log));
        let got = dispatch_spec(before, live, event)->Ok_0;
        assert(got.sets =~= expected.sets);
    }
}

/// An event of one session of a channel leaves the message log and the join
/// set of every other session of that channel as they were.
pub proof fn law_sessions_disjoint(
    store: StoreModel,
    live: Map<Seq<char>, Seq<char>>,
    event: EventView,
    other: Seq<char>,
)
    requires
        event.is_tracked(),
        live.contains_key(event.channel()),
        live[event.channel()] != other,
    ensures
        dispatch_spec(store, live, event) is Ok,
        dispatch_spec(store, live, event)->Ok_0.members(message_key_spec(event.channel(), other))
            == store.members(message_key_spec(event.channel(), other)),
        dispatch_spec(store, live, event)->Ok_0.members(join_key_spec(event.channel(), other))
            == store.members(join_key_spec(event.channel(), other)),
{
    let channel = event.channel();
    let session = live[channel];
    law_sessions_isolated(channel, session, other);
    law_kinds_disjoint(channel, session, channel, other, channel);
    law_kinds_disjoint(channel, other, channel, session, channel);
}

/// An event of one channel leaves the message logs, the join sets and the
/// watch streaks of every other channel as they were, for channel names
/// without a `:`.
pub proof fn law_channels_disjoint(
    store: StoreModel,
    live: Map<Seq<char>, Seq<char>>,
    event: EventView,
    other: Seq<char>,
    session: Seq<char>,
    member: Seq<char>,
)
    requires
        event.is_tracked(),
        live.contains_key(event.channel()),
        event.channel() != other,
        colon_free(event.channel()),
        colon_free(other),
    ensures
        dispatch_spec(store, live, event) is Ok,
        dispatch_spec(store, live, event)->Ok_0.members(message_key_spec(other, session))
            == store.members(message_key_spec(other, session)),
        dispatch_spec(store, live, event)->Ok_0.members(join_key_spec(other, session))
            == store.members(join_key_spec(other, session)),
        dispatch_spec(store, live, event)->Ok_0.score(streak_key_spec(other), member)
            == store.score(streak_key_spec(other), member),
{
    let channel = event.channel();
    let own = live[channel];
    if message_key_spec(channel, own) == message_key_spec(other, session) {
        law_message_keys_injective(channel, own, other, session);
    }
    if join_key_spec(channel, own) == join_key_spec(other, session) {
        law_join_keys_injective(channel, own, other, session);
    }
    if streak_key_spec(channel) == streak_key_spec(other) {
        law_streak_key_injective(channel, other);
    }
    law_kinds_disjoint(channel, own, other, session, channel);
    law_kinds_disjoint(other, session, channel, own, channel);
}

/// A user who joins a channel under one session and then under another is
/// counted once for each: both join sets hold the user, and the watch
/// streak rises by two.
pub proof fn law_streak_counts_each_session(
    store: StoreModel,
    first: Map<Seq<char>, Seq<char>>,
    second: Map<Seq<char>, Seq<char>>,
    channel: Seq<char>,
    user: Seq<char>,
)
    requires
        first.contains_key(channel),
        second.contains_key(channel),
        first[channel] != second[channel],
        !store.members(join_key_spec(channel, first[channel])).contains(user),
        !store.members(join_key_spec(channel, second[channel])).contains(user),
    ensures
        dispatch_spec(store, first, EventView::ParticipantJoin { channel, user }) is Ok,
        dispatch_spec(
            dispatch_spec(store, first, EventView::ParticipantJoin { channel, user })->Ok_0,
            second,
            EventView::ParticipantJoin { channel, user },
        ) is Ok,
        ({
            let end = dispatch_spec(
                dispatch_spec(store, first, EventView::ParticipantJoin { channel, user })->Ok_0,
                second,
                EventView::ParticipantJoin { channel, user },
            )->Ok_0;
            &&& end.score(streak_key_spec(channel), user) == store.score(
                streak_key_spec(channel),
                user,
            ) + 2
            &&& end.members(join_key_spec(channel, first[channel])) == store.members(
                join_key_spec(channel, first[channel]),
            ).insert(user)
            &&& end.members(join_key_spec(channel, second[channel])) == store.members(
                join_key_spec(channel, second[channel]),
            ).insert(user)
        }),
{
    law_sessions_isolated(channel, first[channel], second[channel]);
}

/// An event for a channel without a session fails before any write: no
/// command is decided and no store results.
pub proof fn law_unknown_channel_fails(
    store: StoreModel,
    live: Map<Seq<char>, Seq<char>>,
    event: EventView,
)
    requires
        event.is_tracked(),
        !live.contains_key(event.channel()),
    ensures
        first_command_spec(event, live) == Err::<Option<crate::store::CommandView>, IngestError>(
            IngestError::UnknownChannelSession,
        ),
        dispatch_spec(store, live, event) == Err::<StoreModel, IngestError>(
            IngestError::UnknownChannelSession,
        ),
{
}

/// An ignored event decides no write at either step and leaves the store,
/// its count of writes too, as it was.
pub proof fn law_ignored_writes_nothing(
    store: StoreModel,
    live: Map<Seq<char>, Seq<char>>,
    added: int,
    n: nat,
)
    ensures
        first_command_spec(EventView::Ignored, live) == Ok::<
            Option<crate::store::CommandView>,
            IngestError,
        >(None),
        follow_up_spec(EventView::Ignored, added) == None::<crate::store::CommandView>,
        dispatch_spec(store, live, EventView::Ignored) == Ok::<StoreModel, IngestError>(store),
        dispatch_repeat_spec(store, live, EventView::Ignored, n) == Ok::<StoreModel, IngestError>(
            store,
        ),
    decreases n,
{
    if n > 0 {
        law_ignored_writes_nothing(store, live, added, (n - 1) as nat);
    }
}

/// A dispatch that succeeds writes at most twice, and a dispatch of a chat
/// message exactly once.
pub proof fn law_write_count(store: StoreModel, live: Map<Seq<char>, Seq<char>>, event: EventView)
    requires
        dispatch_spec(store, live, event) is Ok,
    ensures
        store.writes <= dispatch_spec(store, live, event)->Ok_0.writes <= store.writes + 2,
        event is ChatMessage ==> dispatch_spec(store, live, event)->Ok_0.writes == store.writes
            + 1,
        event is Ignored ==> dispatch_spec(store, live, event)->Ok_0.writes == store.writes,
{
}

} // verus!
