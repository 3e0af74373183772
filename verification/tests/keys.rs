use chat_aggregates::keys::{join_key, message_key, message_record, streak_key};

#[test]
fn message_key_has_channel_and_session() {
    assert_eq!(message_key("alice", "999"), "messages:alice:999");
}

#[test]
fn join_key_has_channel_and_session() {
    assert_eq!(join_key("alice", "999"), "joins:alice:999");
}

#[test]
fn streak_key_has_channel_only() {
    assert_eq!(streak_key("alice"), "watchStreaks:alice");
}

#[test]
fn record_is_sender_colon_space_text() {
    assert_eq!(message_record("carol", "hi"), "carol: hi");
    assert_eq!(message_record("", ""), ": ");
}

#[test]
fn keys_of_empty_names() {
    assert_eq!(message_key("", ""), "messages::");
    assert_eq!(join_key("", ""), "joins::");
    assert_eq!(streak_key(""), "watchStreaks:");
}

#[test]
fn distinct_pairs_have_distinct_keys() {
    assert_ne!(message_key("alice", "1"), message_key("alice", "2"));
    assert_ne!(message_key("alice", "1"), message_key("bob", "1"));
    assert_ne!(join_key("alice", "1"), join_key("alice", "2"));
    assert_ne!(join_key("ab", "c"), join_key("a", "bc"));
    assert_ne!(streak_key("alice"), streak_key("bob"));
}

#[test]
fn kinds_never_share_a_key() {
    assert_ne!(message_key("alice", "1"), join_key("alice", "1"));
    assert_ne!(message_key("alice", "1"), streak_key("alice"));
    assert_ne!(join_key("alice", "1"), streak_key("alice"));
}

#[test]
fn a_colon_in_a_channel_name_can_make_keys_meet() {
    assert_eq!(message_key("a:b", "c"), message_key("a", "b:c"));
}

#[test]
fn keys_keep_non_ascii_text() {
    assert_eq!(message_record("zoë", "héllo ✓"), "zoë: héllo ✓");
    assert_eq!(streak_key("zoë"), "watchStreaks:zoë");
}
