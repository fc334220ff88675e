use std::sync::Arc;

use notebot::bot::Dispatch;
use notebot::context::{BotAccount, Reply};
use notebot::echo::{echo, strip_leading_mentions, Answer};
use notebot::event::Decoded;
use notebot::models::{NormalizedNote, NormalizedUser};
use notebot::text::{
    contains, eq_ignore_ascii_case, is_whitespace, same, split_once, strip_prefix, trim, trim_end, trim_start,
};
use notebot::{Bot, Ctx};

#[test]
fn white_space_is_that_of_unicode() {
    let mut white: Vec<u32> = vec![0x20, 0x85, 0xa0, 0x1680, 0x2028, 0x2029, 0x202f, 0x205f, 0x3000];
    white.extend(0x9..=0xd);
    white.extend(0x2000..=0x200a);
    for code in 0..=0xffff {
        if let Some(c) = char::from_u32(code) {
            let text = c.to_string();
            assert_eq!(trim(&text).is_empty(), white.contains(&code), "{code:x}");
        }
    }
}

#[test]
fn white_space_is_that_of_the_standard_library() {
    for c in '\0'..=char::MAX {
        assert_eq!(is_whitespace(c), c.is_whitespace(), "{c:?}");
    }
}

#[test]
fn white_space_goes_from_both_ends() {
    assert_eq!(trim("  a b \n"), "a b");
    assert_eq!(trim(" \t "), "");
    assert_eq!(trim(""), "");
    assert_eq!(trim("é"), "é");
    assert_eq!(trim_start("  a "), "a ");
    assert_eq!(trim_end("  a "), "  a");
}

#[test]
fn texts_are_compared_by_character() {
    assert!(same("", ""));
    assert!(same("é", "é"));
    assert!(!same("e\u{301}", "é"));
    assert!(!same("a", "A"));
    assert!(!same("a", "ab"));
    assert!(eq_ignore_ascii_case("aBzZ[@", "AbZz[@"));
    assert!(!eq_ignore_ascii_case("[", "{"));
    assert!(!eq_ignore_ascii_case("@", "`"));
    assert!(!eq_ignore_ascii_case("ab", "a"));
}

#[test]
fn texts_are_searched_and_split() {
    assert!(contains("misskey.example", "key.ex"));
    assert!(contains("aab", "ab"));
    assert!(contains("", ""));
    assert!(contains("a", ""));
    assert!(!contains("ab", "abc"));
    assert!(!contains("abab", "bb"));
    assert_eq!(strip_prefix("@é", '@'), Some("é"));
    assert_eq!(strip_prefix("é@", '@'), None);
    assert_eq!(strip_prefix("", '@'), None);
    assert_eq!(split_once("é@b@c", '@'), Some(("é", "b@c")));
    assert_eq!(split_once("@", '@'), Some(("", "")));
    assert_eq!(split_once("abc", '@'), None);
}

#[test]
fn leading_mentions_are_taken_off() {
    assert_eq!(strip_leading_mentions("@bot hello"), "hello");
    assert_eq!(strip_leading_mentions(" @bot@host \n @other  hello @bot "), "hello @bot ");
    assert_eq!(strip_leading_mentions("@bot"), "");
    assert_eq!(strip_leading_mentions("@"), "");
    assert_eq!(strip_leading_mentions("hello"), "hello");
    assert_eq!(strip_leading_mentions(""), "");
}

fn ctx(text: Option<&str>) -> Ctx<()> {
    let bot = Bot::builder().on_mention(()).build().unwrap();
    let account = Arc::new(BotAccount {
        id: "acc1".to_string(),
        host: "misskey.example".to_string(),
        token: "tok".to_string(),
        user_id: "me".to_string(),
    });
    let note = NormalizedNote {
        id: "n1".to_string(),
        text: text.map(|s| s.to_string()),
        user: NormalizedUser {
            id: "u1".to_string(),
            username: "someone".to_string(),
            is_bot: false,
        },
        visibility: "home".to_string(),
        local_only: false,
        visible_user_ids: Vec::new(),
    };
    let payload = serde_json::from_str(r#"{ "note": null }"#).unwrap();
    match bot.handle_event("stream-mention", &payload, Decoded::Note(note), Arc::new(()), account) {
        Dispatch::Call { ctx, .. } => ctx,
        _ => panic!("expected a call"),
    }
}

#[test]
fn echo_sends_back_what_is_said() {
    match echo(&ctx(Some("@bot hello"))) {
        Answer::Reply(Reply::CreateNote(call)) => {
            assert_eq!(call.params.text.as_deref(), Some("hello"));
            assert_eq!(call.params.reply_id.as_deref(), Some("n1"));
        }
        other => panic!("{:?}", other),
    }
}

#[test]
fn echo_waves_where_nothing_is_said() {
    for text in [None, Some("@bot "), Some("")] {
        match echo(&ctx(text)) {
            Answer::React(call) => {
                assert_eq!(call.reaction, "👋");
                assert_eq!(call.note_id, "n1");
            }
            other => panic!("{:?}", other),
        }
    }
}
