use notebot::credentials::Credentials;
use notebot::models::Account;
use notebot::resolution::{Environment, Failure, Resolution, ResolutionStep, Response};
use notebot::{Bot, NotebotError};
use serde_json::Value;

type Step = ResolutionStep<&'static str>;

fn text(s: &str) -> Option<String> {
    Some(s.to_string())
}

fn environment() -> Environment {
    Environment { token: None, token_file: None, host: None, account: None }
}

fn json(s: &str) -> Value {
    serde_json::from_str(s).unwrap()
}

fn account(id: &str, username: &str, host: &str) -> Account {
    Account {
        id: id.to_string(),
        host: host.to_string(),
        user_id: format!("u-{id}"),
        username: username.to_string(),
    }
}

fn store() -> Vec<Account> {
    vec![
        account("a1", "alice", "misskey.example"),
        account("a2", "bob", "other.example"),
    ]
}

fn start(env: Environment, configured: Option<&str>) -> (Resolution, Step) {
    Resolution::start(env, configured.map(|s| s.to_string()))
}

fn done(step: Step) -> Credentials {
    match step {
        ResolutionStep::Done(c) => c,
        other => panic!("{:?}", other),
    }
}

fn refused(step: Step) -> NotebotError {
    match step {
        ResolutionStep::Fail(Failure::Refused(e)) => e,
        other => panic!("{:?}", other),
    }
}

fn secret() -> Response<&'static str> {
    Response::Secret { host: "stored.example".to_string(), token: "secret".to_string() }
}

#[test]
fn token_of_the_environment_is_asked_about() {
    let env = Environment { token: text(" tok "), host: text("misskey.example"), ..environment() };
    let (mut resolution, step) = start(env, Some("alice"));
    match step {
        ResolutionStep::Ask(request) => {
            assert_eq!(request.host, "misskey.example");
            assert_eq!(request.token, "tok");
            assert_eq!(request.endpoint, "i");
            assert_eq!(request.body, json("{}"));
        }
        other => panic!("{:?}", other),
    }
    let me = json(r#"{ "id": "u9", "username": "mybot" }"#);
    let c = done(resolution.advance(Response::Data(me)));
    assert_eq!(c.account_id, "env:u9@misskey.example");
    assert_eq!(c.host, "misskey.example");
    assert_eq!(c.token, "tok");
    assert_eq!(c.user_id, "u9");
    assert_eq!(c.username, "mybot");
}

#[test]
fn token_file_is_read_first() {
    let env = Environment { token_file: text("/run/token"), host: text("h"), ..environment() };
    let (mut resolution, step) = start(env, None);
    match step {
        ResolutionStep::ReadFile { path } => assert_eq!(path, "/run/token"),
        other => panic!("{:?}", other),
    }
    let step: Step = resolution.advance(Response::Contents(Ok("filetok\n".to_string())));
    match step {
        ResolutionStep::Ask(request) => {
            assert_eq!(request.host, "h");
            assert_eq!(request.token, "filetok");
        }
        other => panic!("{:?}", other),
    }
}

#[test]
fn bad_token_settings_are_refused() {
    let env = Environment { token: text("tok"), ..environment() };
    assert!(matches!(refused(start(env, None).1), NotebotError::Config(_)));
    let env = Environment { token_file: text("/no"), ..environment() };
    let (mut resolution, _) = start(env, None);
    let step: Step = resolution.advance(Response::Contents(Err("gone".to_string())));
    assert_eq!(refused(step).message(), "failed to read NOTEBOT_TOKEN_FILE (/no): gone");
    assert!(matches!(
        resolution.advance::<&str>(Response::Contents(Ok("tok".to_string()))),
        ResolutionStep::Idle
    ));
}

#[test]
fn identity_without_id_is_refused() {
    let env = Environment { token: text("tok"), host: text("h"), ..environment() };
    let (mut resolution, _) = start(env, None);
    let e = refused(resolution.advance(Response::Data(json("{}"))));
    assert_eq!(e.message(), "unexpected API response: i: no id field");
}

#[test]
fn secret_is_asked_for_the_account_of_a_handle() {
    let (mut resolution, step) = start(environment(), Some("@bob@other.example"));
    assert!(matches!(step, ResolutionStep::LoadAccounts));
    let step: Step = resolution.advance(Response::Accounts(store()));
    match step {
        ResolutionStep::LoadSecret { account_id } => assert_eq!(account_id, "a2"),
        other => panic!("{:?}", other),
    }
    let c = done(resolution.advance(secret()));
    assert_eq!(c.account_id, "a2");
    assert_eq!(c.host, "stored.example");
    assert_eq!(c.token, "secret");
    assert_eq!(c.user_id, "u-a2");
    assert_eq!(c.username, "bob");
}

#[test]
fn other_specifications_are_queried_as_ids() {
    let env = Environment { account: text("ALICE"), ..environment() };
    let bot = Bot::<()>::builder().account("bob".to_string()).build().unwrap();
    let (mut resolution, step) = bot.resolve_credentials::<&str>(env);
    assert!(matches!(step, ResolutionStep::LoadAccounts));
    let step: Step = resolution.advance(Response::Accounts(store()));
    match step {
        ResolutionStep::QueryAccount { id } => assert_eq!(id, "ALICE"),
        other => panic!("{:?}", other),
    }
    let step: Step = resolution.advance(Response::Account(None));
    match step {
        ResolutionStep::LoadSecret { account_id } => assert_eq!(account_id, "a1"),
        other => panic!("{:?}", other),
    }
    assert_eq!(done(resolution.advance(secret())).account_id, "a1");
}

#[test]
fn account_found_by_id_is_the_one_used() {
    let (mut resolution, _) = start(environment(), Some("x7"));
    let _: Step = resolution.advance(Response::Accounts(store()));
    let found = account("x7", "carol", "third.example");
    let step: Step = resolution.advance(Response::Account(Some(found)));
    match step {
        ResolutionStep::LoadSecret { account_id } => assert_eq!(account_id, "x7"),
        other => panic!("{:?}", other),
    }
    assert_eq!(done(resolution.advance(secret())).username, "carol");
}

#[test]
fn first_account_is_used_by_default() {
    let (mut resolution, _) = start(environment(), None);
    match resolution.advance::<&str>(Response::Accounts(store())) {
        ResolutionStep::LoadSecret { account_id } => assert_eq!(account_id, "a1"),
        other => panic!("{:?}", other),
    }
}

#[test]
fn unknown_accounts_are_refused() {
    let (mut resolution, _) = start(environment(), None);
    let e = refused(resolution.advance(Response::Accounts(Vec::new())));
    assert!(e.message().contains("notecli login"));
    let (mut resolution, _) = start(environment(), Some("@nobody@nowhere"));
    let e = refused(resolution.advance(Response::Accounts(store())));
    assert!(matches!(e, NotebotError::AccountNotFound(_)));
}

#[test]
fn failures_of_the_store_end_the_search() {
    let (mut resolution, _) = start(environment(), None);
    let step: Step = resolution.advance(Response::Failed("locked"));
    assert!(matches!(step, ResolutionStep::Fail(Failure::Failed("locked"))));
    assert!(matches!(
        resolution.advance::<&str>(Response::Accounts(store())),
        ResolutionStep::Idle
    ));
}

#[test]
fn answers_that_are_not_waited_for_change_nothing() {
    let (mut resolution, _) = start(environment(), None);
    let step: Step = resolution.advance(secret());
    assert!(matches!(step, ResolutionStep::Idle));
    match resolution.advance::<&str>(Response::Accounts(store())) {
        ResolutionStep::LoadSecret { account_id } => assert_eq!(account_id, "a1"),
        other => panic!("{:?}", other),
    }
}
