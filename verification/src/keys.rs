//! Key namespace: the backing-store key of each aggregate.

use vstd::prelude::*;

verus! {

/// Key of the message log of one session of a channel.
pub open spec fn message_key_spec(channel: Seq<char>, session: Seq<char>) -> Seq<char> {
    "messages:"@ + channel + ":"@ + session
}

/// Key of the join set of one session of a channel.
pub open spec fn join_key_spec(channel: Seq<char>, session: Seq<char>) -> Seq<char> {
    "joins:"@ + channel + ":"@ + session
}

/// Key of the watch streaks of a channel. It has no session part: streaks
/// accumulate across broadcasts.
pub open spec fn streak_key_spec(channel: Seq<char>) -> Seq<char> {
    "watchStreaks:"@ + channel
}

/// The record that a chat message leaves in the message log.
pub open spec fn record_spec(sender: Seq<char>, text: Seq<char>) -> Seq<char> {
    sender + ": "@ + text
}

/// A name that can stand in front of a session in a key: it holds no `:`.
pub open spec fn colon_free(name: Seq<char>) -> bool {
    forall|i: int| 0 <= i < name.len() ==> name[i] != ':'
}

pub fn message_key(channel: &str, session: &str) -> (key: String)
    ensures
        key@ == message_key_spec(channel@, session@),
{
    let mut key = String::from_str("messages:");
    key.append(channel);
    key.append(":");
    key.append(session);
    key
}

pub fn join_key(channel: &str, session: &str) -> (key: String)
    ensures
        key@ == join_key_spec(channel@, session@),
{
    let mut key = String::from_str("joins:");
    key.append(channel);
    key.append(":");
    key.append(session);
    key
}

pub fn streak_key(channel: &str) -> (key: String)
    ensures
        key@ == streak_key_spec(channel@),
{
    let mut key = String::from_str("watchStreaks:");
    key.append(channel);
    key
}

pub fn message_record(sender: &str, text: &str) -> (record: String)
    ensures
        record@ == record_spec(sender@, text@),
{
    let mut record = String::from_str(sender);
    record.append(": ");
    record.append(text);
    record
}

/// Two texts of the shape prefix, name, `:`, rest that are equal have the
/// same name and the same rest, provided neither name holds a `:`.
pub proof fn lemma_scoped_parts(
    prefix: Seq<char>,
    c1: Seq<char>,
    s1: Seq<char>,
    c2: Seq<char>,
    s2: Seq<char>,
)
    requires
        colon_free(c1),
        colon_free(c2),
        prefix + c1 + seq![':'] + s1 == prefix + c2 + seq![':'] + s2,
    ensures
        c1 == c2,
        s1 == s2,
{
    let a = prefix + c1 + seq![':'] + s1;
    let b = prefix + c2 + seq![':'] + s2;
    let p = prefix.len() as int;
    assert(a.len() == b.len());
    assert(a[p + c1.len()] == ':');
    assert(b[p + c2.len()] == ':');
    if c1.len() < c2.len() {
        assert(b[p + c1.len()] == c2[c1.len() as int]);
        assert(false);
    }
    if c2.len() < c1.len() {
        assert(a[p + c2.len()] == c1[c2.len() as int]);
        assert(false);
    }
    assert forall|i: int| 0 <= i < c1.len() implies c1[i] == c2[i] by {
        assert(a[p + i] == c1[i]);
        assert(b[p + i] == c2[i]);
    }
    assert(c1 =~= c2);
    assert(s1.len() == s2.len());
    assert forall|i: int| 0 <= i < s1.len() implies s1[i] == s2[i] by {
        assert(a[p + c1.len() + 1 + i] == s1[i]);
        assert(b[p + c2.len() + 1 + i] == s2[i]);
    }
    assert(s1 =~= s2);
}

/// Two sessions of one channel never share a key, whatever the channel's
/// name holds.
pub proof fn lemma_same_channel_parts(head: Seq<char>, s1: Seq<char>, s2: Seq<char>)
    requires
        head + s1 == head + s2,
    ensures
        s1 == s2,
{
    let a = head + s1;
    let b = head + s2;
    assert(a.len() == b.len());
    assert forall|i: int| 0 <= i < s1.len() implies s1[i] == s2[i] by {
        assert(a[head.len() + i] == s1[i]);
        assert(b[head.len() + i] == s2[i]);
    }
    assert(s1 =~= s2);
}

/// Message keys are injective: distinct (channel, session) pairs of
/// colon-free channels have distinct message keys.
pub proof fn law_message_keys_injective(
    c1: Seq<char>,
    s1: Seq<char>,
    c2: Seq<char>,
    s2: Seq<char>,
)
    requires
        colon_free(c1),
        colon_free(c2),
        message_key_spec(c1, s1) == message_key_spec(c2, s2),
    ensures
        c1 == c2,
        s1 == s2,
{
    reveal_strlit(":");
    assert(":"@ =~= seq![':']);
    lemma_scoped_parts("messages:"@, c1, s1, c2, s2);
}

/// Join keys are injective: distinct (channel, session) pairs of colon-free
/// channels have distinct join keys.
pub proof fn law_join_keys_injective(
    c1: Seq<char>,
    s1: Seq<char>,
    c2: Seq<char>,
    s2: Seq<char>,
)
    requires
        colon_free(c1),
        colon_free(c2),
        join_key_spec(c1, s1) == join_key_spec(c2, s2),
    ensures
        c1 == c2,
        s1 == s2,
{
    reveal_strlit(":");
    assert(":"@ =~= seq![':']);
    lemma_scoped_parts("joins:"@, c1, s1, c2, s2);
}

/// Two different sessions of the same channel have different message keys
/// and different join keys.
pub proof fn law_sessions_isolated(channel: Seq<char>, s1: Seq<char>, s2: Seq<char>)
    requires
        s1 != s2,
    ensures
        message_key_spec(channel, s1) != message_key_spec(channel, s2),
        join_key_spec(channel, s1) != join_key_spec(channel, s2),
{
    if message_key_spec(channel, s1) == message_key_spec(channel, s2) {
        lemma_same_channel_parts("messages:"@ + channel + ":"@, s1, s2);
    }
    if join_key_spec(channel, s1) == join_key_spec(channel, s2) {
        lemma_same_channel_parts("joins:"@ + channel + ":"@, s1, s2);
    }
}

/// The streak key is a function of the channel alone, and distinct channels
/// have distinct streak keys.
pub proof fn law_streak_key_injective(c1: Seq<char>, c2: Seq<char>)
    requires
        streak_key_spec(c1) == streak_key_spec(c2),
    ensures
        c1 == c2,
{
    lemma_same_channel_parts("watchStreaks:"@, c1, c2);
}

/// Keys of different aggregates never meet: a message key, a join key and a
/// streak key differ in their first character.
pub proof fn law_kinds_disjoint(
    c1: Seq<char>,
    s1: Seq<char>,
    c2: Seq<char>,
    s2: Seq<char>,
    c3: Seq<char>,
)
    ensures
        message_key_spec(c1, s1) != join_key_spec(c2, s2),
        message_key_spec(c1, s1) != streak_key_spec(c3),
        join_key_spec(c2, s2) != streak_key_spec(c3),
{
    reveal_strlit("messages:");
    reveal_strlit("joins:");
    reveal_strlit("watchStreaks:");
    assert(message_key_spec(c1, s1)[0] == 'm');
    assert(join_key_spec(c2, s2)[0] == 'j');
    assert(streak_key_spec(c3)[0] == 'w');
}

} // verus!
