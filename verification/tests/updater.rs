use chat_aggregates::event::Event;
use chat_aggregates::live::{IngestError, LiveChannelMap};
use chat_aggregates::store::StoreCommand;
use chat_aggregates::updater::{first_command, follow_up, handle_message};
use std::collections::{HashMap, HashSet};
use twitch_irc::message::{IRCMessage, ServerMessage};

struct MemoryStore {
    sets: HashMap<String, HashSet<String>>,
    scores: HashMap<(String, String), i64>,
    writes: usize,
}

fn empty_store() -> MemoryStore {
    MemoryStore { sets: HashMap::new(), scores: HashMap::new(), writes: 0 }
}

fn run(store: &mut MemoryStore, command: &StoreCommand) -> u64 {
    store.writes += 1;
    match command {
        StoreCommand::AddMember { key, member } => {
            if store.sets.entry(key.clone()).or_default().insert(member.clone()) {
                1
            } else {
                0
            }
        }
        StoreCommand::IncrementScore { key, member, delta } => {
            let score = store.scores.entry((key.clone(), member.clone())).or_insert(0);
            *score += *delta;
            *score as u64
        }
    }
}

fn dispatch(
    store: &mut MemoryStore,
    live: &LiveChannelMap,
    event: &Event,
) -> Result<(), IngestError> {
    if let Some(first) = first_command(event, live)? {
        let added = run(store, &first);
        if let Some(second) = follow_up(event, added) {
            run(store, &second);
        }
    }
    Ok(())
}

fn members(store: &MemoryStore, key: &str) -> Vec<String> {
    let mut all: Vec<String> = match store.sets.get(key) {
        Some(set) => set.iter().cloned().collect(),
        None => Vec::new(),
    };
    all.sort();
    all
}

fn score(store: &MemoryStore, key: &str, member: &str) -> i64 {
    store.scores.get(&(key.to_string(), member.to_string())).copied().unwrap_or(0)
}

fn live_of(pairs: &[(&str, &str)]) -> LiveChannelMap {
    LiveChannelMap::from_pairs(
        pairs.iter().map(|(c, s)| (c.to_string(), s.to_string())).collect(),
    )
}

fn parsed(raw: &str) -> ServerMessage {
    ServerMessage::try_from(IRCMessage::parse(raw).unwrap()).unwrap()
}

#[test]
fn repeated_join_counts_once() {
    let live = live_of(&[("alice", "999")]);
    let mut store = empty_store();
    let event = Event::participant_join("alice", "dave");
    for _ in 0..5 {
        assert_eq!(dispatch(&mut store, &live, &event), Ok(()));
    }
    assert_eq!(members(&store, "joins:alice:999"), vec!["dave".to_string()]);
    assert_eq!(score(&store, "watchStreaks:alice", "dave"), 1);
    assert_eq!(store.writes, 6);
}

#[test]
fn single_join_counts_once() {
    let live = live_of(&[("alice", "999")]);
    let mut store = empty_store();
    let event = Event::participant_join("alice", "dave");
    assert_eq!(dispatch(&mut store, &live, &event), Ok(()));
    assert_eq!(members(&store, "joins:alice:999"), vec!["dave".to_string()]);
    assert_eq!(score(&store, "watchStreaks:alice", "dave"), 1);
    assert_eq!(store.writes, 2);
}

#[test]
fn repeated_message_is_logged_once() {
    let live = live_of(&[("alice", "999")]);
    let mut store = empty_store();
    let event = Event::chat_message("alice", "carol", "hi");
    for _ in 0..4 {
        assert_eq!(dispatch(&mut store, &live, &event), Ok(()));
    }
    assert_eq!(members(&store, "messages:alice:999"), vec!["carol: hi".to_string()]);
    assert!(store.scores.is_empty());
    assert_eq!(store.writes, 4);
}

#[test]
fn two_sessions_are_kept_apart() {
    let first = live_of(&[("alice", "S1")]);
    let second = live_of(&[("alice", "S2")]);
    let mut store = empty_store();
    let join = Event::participant_join("alice", "userA");
    assert_eq!(dispatch(&mut store, &first, &join), Ok(()));
    assert_eq!(dispatch(&mut store, &first, &Event::chat_message("alice", "userA", "one")), Ok(()));
    assert_eq!(dispatch(&mut store, &second, &join), Ok(()));
    assert_eq!(dispatch(&mut store, &second, &Event::chat_message("alice", "userA", "two")), Ok(()));
    assert_eq!(score(&store, "watchStreaks:alice", "userA"), 2);
    assert_eq!(members(&store, "joins:alice:S1"), vec!["userA".to_string()]);
    assert_eq!(members(&store, "joins:alice:S2"), vec!["userA".to_string()]);
    assert_eq!(members(&store, "messages:alice:S1"), vec!["userA: one".to_string()]);
    assert_eq!(members(&store, "messages:alice:S2"), vec!["userA: two".to_string()]);
}

#[test]
fn unknown_channel_fails_without_a_write() {
    let live = live_of(&[("alice", "999")]);
    let mut store = empty_store();
    let chat = Event::chat_message("bob", "carol", "hi");
    let join = Event::participant_join("bob", "dave");
    assert_eq!(dispatch(&mut store, &live, &chat), Err(IngestError::UnknownChannelSession));
    assert_eq!(dispatch(&mut store, &live, &join), Err(IngestError::UnknownChannelSession));
    assert_eq!(store.writes, 0);
    assert!(store.sets.is_empty());
    assert!(store.scores.is_empty());
}

#[test]
fn scenario_alice_live_bob_offline() {
    let live = live_of(&[("alice", "999")]);
    let mut store = empty_store();
    assert_eq!(dispatch(&mut store, &live, &Event::chat_message("alice", "carol", "hi")), Ok(()));
    assert_eq!(members(&store, "messages:alice:999"), vec!["carol: hi".to_string()]);
    let join = Event::participant_join("alice", "dave");
    assert_eq!(dispatch(&mut store, &live, &join), Ok(()));
    assert_eq!(dispatch(&mut store, &live, &join), Ok(()));
    assert_eq!(members(&store, "joins:alice:999"), vec!["dave".to_string()]);
    assert_eq!(score(&store, "watchStreaks:alice", "dave"), 1);
    assert_eq!(store.scores.len(), 1);
    assert_eq!(live.session_of("bob"), None);
}

#[test]
fn ignored_event_writes_nothing() {
    let live = live_of(&[("alice", "999")]);
    let mut store = empty_store();
    assert_eq!(dispatch(&mut store, &live, &Event::Ignored), Ok(()));
    assert_eq!(store.writes, 0);
    assert!(matches!(first_command(&Event::Ignored, &live), Ok(None)));
    assert!(follow_up(&Event::Ignored, 1).is_none());
    let nothing_live = live_of(&[]);
    assert!(matches!(first_command(&Event::Ignored, &nothing_live), Ok(None)));
}

#[test]
fn first_command_of_a_chat_message() {
    let live = live_of(&[("alice", "999")]);
    match first_command(&Event::chat_message("alice", "carol", "hi"), &live) {
        Ok(Some(StoreCommand::AddMember { key, member })) => {
            assert_eq!(key, "messages:alice:999");
            assert_eq!(member, "carol: hi");
        }
        other => panic!("unexpected: {:?}", other),
    }
}

#[test]
fn first_command_of_a_join() {
    let live = live_of(&[("alice", "999")]);
    match first_command(&Event::participant_join("alice", "dave"), &live) {
        Ok(Some(StoreCommand::AddMember { key, member })) => {
            assert_eq!(key, "joins:alice:999");
            assert_eq!(member, "dave");
        }
        other => panic!("unexpected: {:?}", other),
    }
}

#[test]
fn follow_up_increments_only_on_a_first_join() {
    let join = Event::participant_join("alice", "dave");
    match follow_up(&join, 1) {
        Some(StoreCommand::IncrementScore { key, member, delta }) => {
            assert_eq!(key, "watchStreaks:alice");
            assert_eq!(member, "dave");
            assert_eq!(delta, 1);
        }
        other => panic!("unexpected: {:?}", other),
    }
    assert!(follow_up(&join, 0).is_none());
    assert!(follow_up(&join, 2).is_none());
    assert!(follow_up(&Event::chat_message("alice", "carol", "hi"), 1).is_none());
}

#[test]
fn join_of_a_known_member_leaves_the_streak() {
    let live = live_of(&[("alice", "999")]);
    let mut store = empty_store();
    store.sets.entry("joins:alice:999".to_string()).or_default().insert("dave".to_string());
    store.scores.insert(("watchStreaks:alice".to_string(), "dave".to_string()), 7);
    assert_eq!(dispatch(&mut store, &live, &Event::participant_join("alice", "dave")), Ok(()));
    assert_eq!(score(&store, "watchStreaks:alice", "dave"), 7);
    assert_eq!(store.writes, 1);
}

#[test]
fn streak_continues_from_an_earlier_broadcast() {
    let live = live_of(&[("alice", "1000")]);
    let mut store = empty_store();
    store.scores.insert(("watchStreaks:alice".to_string(), "dave".to_string()), 7);
    assert_eq!(dispatch(&mut store, &live, &Event::participant_join("alice", "dave")), Ok(()));
    assert_eq!(score(&store, "watchStreaks:alice", "dave"), 8);
}

#[test]
fn raw_chat_message_is_classified() {
    let raw = "@badge-info=;badges=;color=#0000FF;display-name=carol;emotes=;flags=;id=e9d998c3-36f1-430f-89ec-6b887c28af36;mod=0;room-id=11148817;subscriber=0;tmi-sent-ts=1594545155039;turbo=0;user-id=29803735;user-type= :carol!carol@carol.tmi.twitch.tv PRIVMSG #alice :hi";
    let live = live_of(&[("alice", "999")]);
    let (event, first) = handle_message(parsed(raw), &live);
    match event {
        Event::ChatMessage { channel, sender, text } => {
            assert_eq!(channel, "alice");
            assert_eq!(sender, "carol");
            assert_eq!(text, "hi");
        }
        other => panic!("unexpected: {:?}", other),
    }
    match first {
        Ok(Some(StoreCommand::AddMember { key, member })) => {
            assert_eq!(key, "messages:alice:999");
            assert_eq!(member, "carol: hi");
        }
        other => panic!("unexpected: {:?}", other),
    }
}

#[test]
fn raw_join_is_classified() {
    let raw = ":dave!dave@dave.tmi.twitch.tv JOIN #alice";
    let live = live_of(&[("alice", "999")]);
    let (event, first) = handle_message(parsed(raw), &live);
    match event {
        Event::ParticipantJoin { channel, user } => {
            assert_eq!(channel, "alice");
            assert_eq!(user, "dave");
        }
        other => panic!("unexpected: {:?}", other),
    }
    match first {
        Ok(Some(StoreCommand::AddMember { key, member })) => {
            assert_eq!(key, "joins:alice:999");
            assert_eq!(member, "dave");
        }
        other => panic!("unexpected: {:?}", other),
    }
}

#[test]
fn raw_join_for_an_offline_channel_fails() {
    let raw = ":dave!dave@dave.tmi.twitch.tv JOIN #bob";
    let live = live_of(&[("alice", "999")]);
    let (_, first) = handle_message(parsed(raw), &live);
    assert!(matches!(first, Err(IngestError::UnknownChannelSession)));
}

#[test]
fn other_raw_messages_are_ignored() {
    let live = live_of(&[("alice", "999")]);
    let (event, first) = handle_message(parsed(":tmi.twitch.tv PING"), &live);
    assert!(matches!(event, Event::Ignored));
    assert!(matches!(first, Ok(None)));
    let (event, first) = handle_message(parsed(":dave!dave@dave.tmi.twitch.tv PART #alice"), &live);
    assert!(matches!(event, Event::Ignored));
    assert!(matches!(first, Ok(None)));
    let (event, _) = handle_message(parsed(":tmi.twitch.tv 001 bot :Welcome, GLHF!"), &live);
    assert!(matches!(event, Event::Ignored));
}

#[test]
fn commands_and_events_compare_by_value() {
    let live = live_of(&[("alice", "999")]);
    let event = Event::participant_join("alice", "dave");
    assert_eq!(
        event,
        Event::ParticipantJoin { channel: "alice".to_string(), user: "dave".to_string() }
    );
    assert_eq!(
        first_command(&event, &live),
        Ok(Some(StoreCommand::AddMember {
            key: "joins:alice:999".to_string(),
            member: "dave".to_string(),
        }))
    );
    assert_eq!(
        follow_up(&event.clone(), 1),
        Some(StoreCommand::IncrementScore {
            key: "watchStreaks:alice".to_string(),
            member: "dave".to_string(),
            delta: 1,
        })
    );
}
