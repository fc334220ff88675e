use std::sync::Arc;

use notebot::bot::Dispatch;
use notebot::context::{created_note, reply_visibility, BotAccount, Reply};
use notebot::event::Decoded;
use notebot::models::{NormalizedNote, NormalizedUser};
use notebot::{Bot, Ctx, NotebotError};
use serde_json::Value;

fn json(text: &str) -> Value {
    serde_json::from_str(text).unwrap()
}

fn note(author: &str, visibility: &str, local_only: bool, readers: &[&str]) -> NormalizedNote {
    NormalizedNote {
        id: "n1".to_string(),
        text: Some("@bot hello".to_string()),
        user: NormalizedUser {
            id: author.to_string(),
            username: "someone".to_string(),
            is_bot: false,
        },
        visibility: visibility.to_string(),
        local_only,
        visible_user_ids: readers.iter().map(|s| s.to_string()).collect(),
    }
}

fn ctx(note: NormalizedNote) -> Ctx<u32> {
    let bot = Bot::builder().on_mention(()).build().unwrap();
    let account = Arc::new(BotAccount {
        id: "acc1".to_string(),
        host: "misskey.example".to_string(),
        token: "tok".to_string(),
        user_id: "me".to_string(),
    });
    let payload = json(r#"{ "note": {} }"#);
    match bot.handle_event("stream-mention", &payload, Decoded::Note(note), Arc::new(7), account) {
        Dispatch::Call { ctx, .. } => ctx,
        _ => panic!("expected a call"),
    }
}

#[test]
fn public_is_rounded_to_home() {
    assert_eq!(reply_visibility("public"), "home");
}

#[test]
fn other_visibilities_are_inherited() {
    assert_eq!(reply_visibility("home"), "home");
    assert_eq!(reply_visibility("followers"), "followers");
    assert_eq!(reply_visibility("specified"), "specified");
}

#[test]
fn unknown_visibilities_are_inherited() {
    assert_eq!(reply_visibility(""), "");
    assert_eq!(reply_visibility("Public"), "Public");
    assert_eq!(reply_visibility("publics"), "publics");
}

#[test]
fn reply_to_public_note() {
    let Reply::CreateNote(call) = ctx(note("u1", "public", false, &[])).reply("pong") else {
        panic!("expected a note");
    };
    assert_eq!(call.host, "misskey.example");
    assert_eq!(call.token, "tok");
    assert_eq!(call.account_id, "acc1");
    assert_eq!(call.params.text.as_deref(), Some("pong"));
    assert_eq!(call.params.visibility.as_deref(), Some("home"));
    assert_eq!(call.params.local_only, None);
    assert_eq!(call.params.reply_id.as_deref(), Some("n1"));
}

#[test]
fn reply_inherits_local_only() {
    let Reply::CreateNote(call) = ctx(note("u1", "followers", true, &[])).reply("pong") else {
        panic!("expected a note");
    };
    assert_eq!(call.params.visibility.as_deref(), Some("followers"));
    assert_eq!(call.params.local_only, Some(true));
}

#[test]
fn reply_to_direct_message() {
    let Reply::Direct(request) =
        ctx(note("u1", "specified", false, &["u2", "me", "u3"])).reply("po\"ng")
    else {
        panic!("expected a direct message");
    };
    assert_eq!(request.host, "misskey.example");
    assert_eq!(request.token, "tok");
    assert_eq!(request.endpoint, "notes/create");
    assert_eq!(
        request.body,
        json(
            r#"{
                "text": "po\"ng",
                "replyId": "n1",
                "visibility": "specified",
                "visibleUserIds": ["u2", "u3", "u1"]
            }"#
        )
    );
}

#[test]
fn author_among_the_readers_is_named_once() {
    let Reply::Direct(request) = ctx(note("u1", "specified", false, &["u1", "me"])).reply("x")
    else {
        panic!("expected a direct message");
    };
    assert_eq!(request.body.get("visibleUserIds"), Some(&json(r#"["u1"]"#)));
}

#[test]
fn direct_message_without_readers_goes_to_the_author() {
    let request = ctx(note("u1", "specified", false, &[])).reply_specified("x");
    assert_eq!(request.body.get("visibleUserIds"), Some(&json(r#"["u1"]"#)));
    assert_eq!(request.body.get("localOnly"), None);
}

#[test]
fn direct_reply_inherits_local_only() {
    let Reply::Direct(request) = ctx(note("u1", "specified", true, &["me"])).reply("pong") else {
        panic!("expected a direct message");
    };
    assert_eq!(
        request.body,
        json(
            r#"{
                "text": "pong",
                "replyId": "n1",
                "visibility": "specified",
                "visibleUserIds": ["u1"],
                "localOnly": true
            }"#
        )
    );
}

#[test]
fn post_leaves_the_visibility_to_the_account() {
    let call = ctx(note("u1", "followers", true, &[])).post("hello");
    assert_eq!(call.host, "misskey.example");
    assert_eq!(call.token, "tok");
    assert_eq!(call.account_id, "acc1");
    assert_eq!(call.params.text.as_deref(), Some("hello"));
    assert_eq!(call.params.visibility, None);
    assert_eq!(call.params.local_only, None);
    assert_eq!(call.params.reply_id, None);
}

#[test]
fn reaction_is_put_on_the_note() {
    let call = ctx(note("u1", "public", false, &[])).react("👍");
    assert_eq!(call.host, "misskey.example");
    assert_eq!(call.token, "tok");
    assert_eq!(call.note_id, "n1");
    assert_eq!(call.reaction, "👍");
}

#[test]
fn context_gives_client_and_note() {
    let ctx = ctx(note("u1", "public", false, &[]));
    assert_eq!(ctx.client(), (&7, "misskey.example", "tok"));
    assert_eq!(ctx.note().id, "n1");
    assert_eq!(ctx.note().user.id, "u1");
}

#[test]
fn created_note_is_taken_from_the_answer() {
    let data = json(r#"{ "createdNote": { "id": "n2" }, "other": 1 }"#);
    assert_eq!(*created_note(&data).unwrap(), json(r#"{ "id": "n2" }"#));
}

#[test]
fn answer_without_created_note_is_unexpected() {
    let data = json(r#"{ "note": { "id": "n2" } }"#);
    let err = created_note(&data).unwrap_err();
    assert_eq!(err.message(), "unexpected API response: notes/create: no createdNote");
    assert!(matches!(err, NotebotError::UnexpectedResponse(_)));
    assert!(created_note(&json("[]")).is_err());
}
