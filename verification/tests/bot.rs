use std::sync::Arc;

use notebot::bot::{
    notecli_db_path, should_handle, DataDir, Dispatch, Occurrence, Phase, Session, Step,
};
use notebot::context::BotAccount;
use notebot::credentials::Credentials;
use notebot::event::Decoded;
use notebot::models::{Account, NormalizedNote, NormalizedNotification, NormalizedUser};
use notebot::resolution::{Environment, ResolutionStep, Response};
use notebot::Bot;
use serde_json::Value;

fn note(user_id: &str, is_bot: bool) -> NormalizedNote {
    NormalizedNote {
        id: "n1".to_string(),
        text: Some("@bot hello".to_string()),
        user: NormalizedUser {
            id: user_id.to_string(),
            username: "someone".to_string(),
            is_bot,
        },
        visibility: "public".to_string(),
        local_only: false,
        visible_user_ids: Vec::new(),
    }
}

fn account() -> Arc<BotAccount> {
    Arc::new(BotAccount {
        id: "acc1".to_string(),
        host: "misskey.example".to_string(),
        token: "tok".to_string(),
        user_id: "me".to_string(),
    })
}

fn payload() -> Value {
    serde_json::from_str(
        r#"{ "note": {}, "subscriptionId": "s", "notification": {}, "state": "connected" }"#,
    )
    .unwrap()
}

fn called<H>(bot: &Bot<H>, name: &str, decoded: Decoded) -> bool {
    let dispatch = bot.handle_event(name, &payload(), decoded, Arc::new(()), account());
    matches!(dispatch, Dispatch::Call { .. })
}

#[test]
fn own_note_is_always_ignored() {
    assert!(!should_handle(&note("me", false), "me", false));
    assert!(!should_handle(&note("me", false), "me", true));
}

#[test]
fn bot_note_is_ignored_by_default() {
    assert!(!should_handle(&note("other", true), "me", true));
    assert!(should_handle(&note("other", true), "me", false));
}

#[test]
fn normal_mention_is_handled() {
    assert!(should_handle(&note("other", false), "me", true));
}

#[test]
fn mention_reaches_the_handler() {
    let bot = Bot::builder().on_mention("handler").build().unwrap();
    match bot.handle_event(
        "stream-mention",
        &payload(),
        Decoded::Note(note("other", false)),
        Arc::new(1),
        account(),
    ) {
        Dispatch::Call { handler, ctx } => {
            assert_eq!(*handler, "handler");
            assert_eq!(ctx.note().id, "n1");
            assert_eq!(ctx.client(), (&1, "misskey.example", "tok"));
        }
        _ => panic!("expected a call"),
    }
}

#[test]
fn own_mention_never_reaches_the_handler() {
    let bot = Bot::builder().on_mention(()).ignore_bots(false).build().unwrap();
    assert!(!called(&bot, "stream-mention", Decoded::Note(note("me", false))));
    assert!(!called(&bot, "stream-mention", Decoded::Note(note("me", true))));
}

#[test]
fn bots_are_ignored_unless_told_otherwise() {
    let bot = Bot::builder().on_mention(()).build().unwrap();
    assert!(!called(&bot, "stream-mention", Decoded::Note(note("other", true))));
    let bot = Bot::builder().on_mention(()).ignore_bots(false).build().unwrap();
    assert!(called(&bot, "stream-mention", Decoded::Note(note("other", true))));
}

#[test]
fn ignored_bot_is_reported() {
    let bot = Bot::<()>::builder().build().unwrap();
    let dispatch = |author: &str, is_bot: bool| {
        bot.handle_event(
            "stream-mention",
            &payload(),
            Decoded::Note(note(author, is_bot)),
            Arc::new(()),
            account(),
        )
    };
    match dispatch("other", true) {
        Dispatch::IgnoreBot { note_id } => assert_eq!(note_id, "n1"),
        _ => panic!("expected an ignored bot"),
    }
    assert!(matches!(dispatch("me", true), Dispatch::Ignore));
    assert!(matches!(dispatch("other", false), Dispatch::Ignore));
}

#[test]
fn only_mentions_reach_the_handler() {
    let bot = Bot::builder().on_mention(()).build().unwrap();
    assert!(!called(&bot, "stream-note", Decoded::Note(note("other", false))));
    assert!(!called(&bot, "stream-mention", Decoded::Nothing));
    let n = NormalizedNotification {
        id: "x".to_string(),
        notification_type: "mention".to_string(),
        user: None,
        note: Some(note("other", false)),
        reaction: None,
    };
    assert!(!called(&bot, "stream-notification", Decoded::Notification(n)));
}

#[test]
fn without_a_handler_mentions_are_ignored() {
    let bot = Bot::<()>::builder().build().unwrap();
    assert!(!called(&bot, "stream-mention", Decoded::Note(note("other", false))));
}

#[test]
fn status_is_reported() {
    let bot = Bot::<()>::builder().build().unwrap();
    match bot.handle_event("stream-status", &payload(), Decoded::Nothing, Arc::new(()), account()) {
        Dispatch::Report { state } => assert_eq!(state, "connected"),
        _ => panic!("expected a report"),
    }
}

#[test]
fn last_setting_stays() {
    let bot = Bot::builder()
        .on_mention(1)
        .on_mention(2)
        .account("@old@host".to_string())
        .account("@mybot@misskey.example".to_string())
        .build()
        .unwrap();
    match bot.handle_event(
        "stream-mention",
        &payload(),
        Decoded::Note(note("other", false)),
        Arc::new(()),
        account(),
    ) {
        Dispatch::Call { handler, .. } => assert_eq!(*handler, 2),
        _ => panic!("expected a call"),
    }
    let env = Environment { token: None, token_file: None, host: None, account: None };
    let (mut resolution, step) = bot.resolve_credentials::<&str>(env);
    assert!(matches!(step, ResolutionStep::LoadAccounts));
    let account = |id: &str, username: &str| Account {
        id: id.to_string(),
        host: "misskey.example".to_string(),
        user_id: "me".to_string(),
        username: username.to_string(),
    };
    let stored = vec![account("a1", "old"), account("a2", "mybot")];
    match resolution.advance::<&str>(Response::Accounts(stored)) {
        ResolutionStep::LoadSecret { account_id } => assert_eq!(account_id, "a2"),
        other => panic!("{:?}", other),
    }
}

fn session() -> (Session, Step<&'static str>) {
    Session::start(Credentials {
        account_id: "acc1".to_string(),
        host: "misskey.example".to_string(),
        token: "tok".to_string(),
        user_id: "me".to_string(),
        username: "bot".to_string(),
    })
}

#[test]
fn bot_runs_until_shutdown() {
    let (mut bot, first) = session();
    match first {
        Step::Connect { account_id, host, token } => {
            assert_eq!(account_id, "acc1");
            assert_eq!(host, "misskey.example");
            assert_eq!(token, "tok");
        }
        other => panic!("{:?}", other),
    }
    assert_eq!(bot.account().user_id, "me");
    assert_eq!(bot.account().id, "acc1");
    match bot.advance::<&str>(Occurrence::Done) {
        Step::Subscribe { account_id } => assert_eq!(account_id, "acc1"),
        other => panic!("{:?}", other),
    }
    assert!(matches!(bot.advance::<&str>(Occurrence::Done), Step::Listen));
    assert!(matches!(bot.advance::<&str>(Occurrence::Message), Step::Dispatch));
    assert!(matches!(bot.advance::<&str>(Occurrence::Message), Step::Dispatch));
    match bot.advance::<&str>(Occurrence::Shutdown) {
        Step::Disconnect { account_id } => assert_eq!(account_id, "acc1"),
        other => panic!("{:?}", other),
    }
    assert!(matches!(bot.advance::<&str>(Occurrence::Message), Step::Idle));
    assert!(matches!(bot.advance::<&str>(Occurrence::Done), Step::Finish));
    assert_eq!(bot.phase(), Phase::Stopped);
    assert!(matches!(bot.advance::<&str>(Occurrence::Done), Step::Idle));
}

#[test]
fn closed_stream_ends_the_bot() {
    let (mut bot, _) = session();
    bot.advance::<&str>(Occurrence::Done);
    bot.advance::<&str>(Occurrence::Done);
    assert_eq!(bot.phase(), Phase::Listening);
    assert!(matches!(bot.advance::<&str>(Occurrence::Closed), Step::Disconnect { .. }));
    assert_eq!(bot.phase(), Phase::Disconnecting);
}

#[test]
fn failed_connection_ends_the_bot() {
    let (mut bot, _) = session();
    assert!(matches!(bot.advance(Occurrence::Failed("refused")), Step::Fail("refused")));
    assert_eq!(bot.phase(), Phase::Stopped);
    let (mut bot, _) = session();
    bot.advance::<&str>(Occurrence::Done);
    assert!(matches!(bot.advance(Occurrence::Failed("no channel")), Step::Fail("no channel")));
    assert_eq!(bot.phase(), Phase::Stopped);
}

#[test]
fn failures_do_not_end_a_listening_bot() {
    let (mut bot, _) = session();
    bot.advance::<&str>(Occurrence::Done);
    bot.advance::<&str>(Occurrence::Done);
    assert!(matches!(bot.advance(Occurrence::Failed("handler")), Step::Idle));
    assert_eq!(bot.phase(), Phase::Listening);
}

#[test]
fn account_store_lies_in_the_data_directory() {
    let path = notecli_db_path(Some("/data"), Some("/home/me".to_string()));
    assert!(matches!(path.base, DataDir::Platform("/data")));
    assert_eq!(path.segments, ["notecli", "notecli.db"]);
}

#[test]
fn account_store_falls_back_to_the_home_directory() {
    let path = notecli_db_path::<&str>(None, Some("/home/me".to_string()));
    match path.base {
        DataDir::Home(dir) => assert_eq!(dir, "/home/me"),
        other => panic!("{:?}", other),
    }
    assert_eq!(path.segments, [".local/share", "notecli", "notecli.db"]);
    match notecli_db_path::<&str>(None, None).base {
        DataDir::Home(dir) => assert_eq!(dir, "."),
        other => panic!("{:?}", other),
    }
}
