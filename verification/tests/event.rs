use notebot::event::{locate_event, parse_event, Decoded, EventBody, SeenCache};
use notebot::models::{NormalizedNote, NormalizedNotification, NormalizedUser};
use notebot::BotEvent;
use serde_json::Value;

fn json(text: &str) -> Value {
    serde_json::from_str(text).unwrap()
}

const NOTE: &str = r#"{
    "id": "n1",
    "_accountId": "acc1",
    "_serverHost": "misskey.example",
    "createdAt": "2026-07-15T00:00:00.000Z",
    "text": "@bot hello",
    "user": { "id": "u1", "username": "alice" },
    "visibility": "public",
    "renoteCount": 0,
    "repliesCount": 0
}"#;

fn mention_payload() -> Value {
    json(&format!(
        r#"{{ "accountId": "acc1", "subscriptionId": "sub1", "note": {NOTE} }}"#
    ))
}

fn text_of(value: &Value, key: &str) -> Option<String> {
    value.get(key).and_then(|v| v.as_str()).map(|s| s.to_string())
}

fn decode_user(value: &Value) -> Option<NormalizedUser> {
    Some(NormalizedUser {
        id: text_of(value, "id")?,
        username: text_of(value, "username")?,
        is_bot: value.get("isBot").and_then(|v| v.as_bool()).unwrap_or(false),
    })
}

fn decode_note(value: &Value) -> Option<NormalizedNote> {
    Some(NormalizedNote {
        id: text_of(value, "id")?,
        text: text_of(value, "text"),
        user: decode_user(value.get("user")?)?,
        visibility: text_of(value, "visibility")?,
        local_only: value.get("localOnly").and_then(|v| v.as_bool()).unwrap_or(false),
        visible_user_ids: Vec::new(),
    })
}

fn decode_notification(value: &Value) -> Option<NormalizedNotification> {
    Some(NormalizedNotification {
        id: text_of(value, "id")?,
        notification_type: text_of(value, "type")?,
        user: value.get("user").and_then(decode_user),
        note: value.get("note").and_then(decode_note),
        reaction: text_of(value, "reaction"),
    })
}

fn parse(name: &str, payload: &Value) -> Option<BotEvent> {
    let decoded = match locate_event(name, payload) {
        Some(EventBody::Mention(note)) | Some(EventBody::Note { note, .. }) => {
            decode_note(note).map(Decoded::Note)
        }
        Some(EventBody::Notification(n)) => decode_notification(n).map(Decoded::Notification),
        _ => None,
    };
    parse_event(name, payload, decoded.unwrap_or(Decoded::Nothing))
}

#[test]
fn parses_mention() {
    let Some(BotEvent::Mention(note)) = parse("stream-mention", &mention_payload()) else {
        panic!("expected Mention");
    };
    assert_eq!(note.id, "n1");
    assert_eq!(note.user.username, "alice");
    assert!(!note.user.is_bot);
}

#[test]
fn parses_timeline_note() {
    let payload = json(&format!(
        r#"{{ "accountId": "acc1", "subscriptionId": "sub-tl", "note": {NOTE} }}"#
    ));
    let Some(BotEvent::Note {
        subscription_id,
        note,
    }) = parse("stream-note", &payload)
    else {
        panic!("expected Note");
    };
    assert_eq!(subscription_id, "sub-tl");
    assert_eq!(note.id, "n1");
}

#[test]
fn parses_reaction_notification() {
    let payload = json(&format!(
        r#"{{
            "accountId": "acc1",
            "subscriptionId": "sub-main",
            "notification": {{
                "id": "notif1",
                "_accountId": "acc1",
                "_serverHost": "misskey.example",
                "createdAt": "2026-07-15T00:00:00.000Z",
                "type": "reaction",
                "user": {{ "id": "u1", "username": "alice" }},
                "note": {NOTE},
                "reaction": "👍"
            }}
        }}"#
    ));
    let Some(BotEvent::Notification(n)) = parse("stream-notification", &payload) else {
        panic!("expected Notification");
    };
    assert_eq!(n.notification_type, "reaction");
    assert_eq!(n.reaction.as_deref(), Some("👍"));
    assert!(n.note.is_some());
}

#[test]
fn parses_status() {
    let payload = json(r#"{ "accountId": "acc1", "state": "reconnecting" }"#);
    let Some(BotEvent::Status { state }) = parse("stream-status", &payload) else {
        panic!("expected Status");
    };
    assert_eq!(state, "reconnecting");
}

#[test]
fn unknown_event_is_ignored() {
    assert!(parse("stream-note-updated", &json("{}")).is_none());
}

#[test]
fn malformed_mention_is_ignored() {
    let payload = json(r#"{ "note": { "id": 42 } }"#);
    assert!(parse("stream-mention", &payload).is_none());
}

#[test]
fn unknown_event_is_ignored_whatever_it_carries() {
    let note = || Decoded::Note(decode_note(&json(NOTE)).unwrap());
    assert!(parse_event("stream-note-updated", &mention_payload(), note()).is_none());
    assert!(parse_event("", &mention_payload(), note()).is_none());
    assert!(parse_event("stream-mention ", &mention_payload(), note()).is_none());
}

#[test]
fn undecodable_message_is_no_event() {
    assert!(parse_event("stream-mention", &mention_payload(), Decoded::Nothing).is_none());
    assert!(parse_event("stream-note", &mention_payload(), Decoded::Nothing).is_none());
    let payload = json(r#"{ "notification": {} }"#);
    assert!(parse_event("stream-notification", &payload, Decoded::Nothing).is_none());
}

#[test]
fn message_without_its_parts_carries_nothing() {
    assert!(locate_event("stream-mention", &json("{}")).is_none());
    assert!(locate_event("stream-mention", &json("[1, 2]")).is_none());
    assert!(locate_event("stream-mention", &json("null")).is_none());
    assert!(locate_event("stream-note", &json(r#"{ "note": {} }"#)).is_none());
    assert!(locate_event("stream-note", &json(r#"{ "subscriptionId": "s" }"#)).is_none());
    assert!(
        locate_event("stream-note", &json(r#"{ "subscriptionId": 3, "note": {} }"#)).is_none()
    );
    assert!(locate_event("stream-notification", &json(r#"{ "note": {} }"#)).is_none());
    assert!(locate_event("stream-status", &json(r#"{ "state": true }"#)).is_none());
    assert!(locate_event("stream-status", &json("{}")).is_none());
}

#[test]
fn located_note_is_the_member() {
    let payload = mention_payload();
    let Some(EventBody::Mention(note)) = locate_event("stream-mention", &payload) else {
        panic!("expected a note");
    };
    assert_eq!(*note, json(NOTE));
    assert_ne!(*note, payload);
}

#[test]
fn seen_cache_detects_duplicates() {
    let mut seen = SeenCache::new(8);
    assert!(seen.insert("a"));
    assert!(!seen.insert("a"));
    assert!(seen.insert("b"));
}

#[test]
fn seen_cache_evicts_oldest() {
    let mut seen = SeenCache::new(2);
    assert!(seen.insert("a"));
    assert!(seen.insert("b"));
    assert!(seen.insert("c")); // "a" is forgotten
    assert!(seen.insert("a")); // and new again
    assert!(!seen.insert("c"));
}

#[test]
fn known_id_becomes_the_most_recently_used() {
    let mut seen = SeenCache::new(2);
    assert!(seen.insert("a"));
    assert!(seen.insert("b"));
    assert!(!seen.insert("a"));
    assert!(seen.insert("c")); // "b" is forgotten
    assert!(!seen.insert("a"));
    assert!(seen.insert("b")); // "c" is forgotten
    assert!(!seen.insert("a"));
    assert!(seen.insert("c"));
}

#[test]
fn known_id_stays_through_fewer_than_capacity_others() {
    let mut seen = SeenCache::new(3);
    assert!(seen.insert("a"));
    assert!(seen.insert("b"));
    assert!(seen.insert("c"));
    assert!(!seen.insert("b"));
    assert!(seen.insert("d")); // "a" is forgotten
    assert!(!seen.insert("c"));
    assert!(!seen.insert("b"));
    assert!(!seen.insert("d"));
    assert!(seen.insert("a"));
}

#[test]
fn memory_of_nothing_takes_all_for_new() {
    let mut seen = SeenCache::new(0);
    assert!(seen.insert("a"));
    assert!(seen.insert("a"));
    let mut vast = SeenCache::new(usize::MAX);
    assert!(vast.insert("a"));
    assert!(!vast.insert("a"));
}
