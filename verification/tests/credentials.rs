use notebot::credentials::{
    account_id_to_query, credential_source, identity_request, read_env_token, resolve_account,
    token_file_to_read, CredentialSource, Credentials,
};
use notebot::models::Account;
use notebot::NotebotError;
use serde_json::Value;

fn json(text: &str) -> Value {
    serde_json::from_str(text).unwrap()
}

fn account(id: &str, username: &str, host: &str) -> Account {
    Account {
        id: id.to_string(),
        host: host.to_string(),
        user_id: format!("u-{id}"),
        username: username.to_string(),
    }
}

fn store() -> Vec<Account> {
    vec![
        account("a1", "alice", "misskey.example"),
        account("a2", "bob", "other.example"),
    ]
}

/// Resolves `spec` against a store that answers queries by id.
fn resolve(accounts: fn() -> Vec<Account>, spec: Option<&str>) -> Result<Account, NotebotError> {
    let by_id = account_id_to_query(&accounts(), spec)
        .and_then(|id| accounts().into_iter().find(|a| a.id == id));
    resolve_account(accounts(), spec, by_id)
}

#[test]
fn resolves_accounts_like_notecli() {
    assert_eq!(resolve(store, None).unwrap().id, "a1");
    assert_eq!(resolve(store, Some("@bob@other.example")).unwrap().id, "a2");
    assert_eq!(resolve(store, Some("a2")).unwrap().id, "a2");
    assert_eq!(resolve(store, Some("BOB")).unwrap().id, "a2");
    assert!(matches!(
        resolve(store, Some("@nobody@nowhere")),
        Err(NotebotError::AccountNotFound(_))
    ));
}

#[test]
fn empty_db_gives_guidance() {
    let err = resolve(Vec::new, None).unwrap_err();
    assert!(err.message().contains("notecli login"));
}

#[test]
fn empty_store_gives_the_same_guidance_for_any_account() {
    let err = resolve(Vec::new, Some("@bob@other.example")).unwrap_err();
    assert_eq!(
        err.message(),
        "account not found: no accounts found — run `notecli login <HOST>` first"
    );
    assert_eq!(account_id_to_query(&Vec::new(), Some("a1")), None);
}

fn twins() -> Vec<Account> {
    vec![
        account("t1", "Bob", "one.misskey.example"),
        account("t2", "bob", "two.misskey.example"),
        account("bob", "carol", "three.example"),
        account("t4", "@dave", "four.example"),
    ]
}

#[test]
fn first_account_that_answers_is_taken() {
    assert_eq!(resolve(twins, Some("@BOB@misskey.example")).unwrap().id, "t1");
    assert_eq!(resolve(twins, Some("@bob@two")).unwrap().id, "t2");
    assert_eq!(resolve(twins, Some("@bob@")).unwrap().id, "t1");
    assert!(resolve(twins, Some("@bob@three.example")).is_err());
    assert!(resolve(twins, Some("@bob@Two")).is_err());
}

#[test]
fn account_id_goes_before_user_name() {
    assert_eq!(resolve(twins, Some("bob")).unwrap().username, "carol");
    assert_eq!(resolve(twins, Some("Bob")).unwrap().id, "t1");
    assert_eq!(resolve(twins, Some("CAROL")).unwrap().id, "bob");
}

#[test]
fn lone_at_sign_is_part_of_a_name() {
    assert_eq!(account_id_to_query(&twins(), Some("@dave")), Some("@dave"));
    assert_eq!(resolve(twins, Some("@DAVE")).unwrap().id, "t4");
    assert_eq!(account_id_to_query(&twins(), Some("@dave@four")), None);
    assert_eq!(account_id_to_query(&twins(), None), None);
    match resolve(twins, Some("nobody")) {
        Err(NotebotError::AccountNotFound(spec)) => assert_eq!(spec, "nobody"),
        other => panic!("{:?}", other),
    }
}

#[test]
fn only_ascii_letters_change_case() {
    fn accounts() -> Vec<Account> {
        vec![account("x", "ärger", "h")]
    }
    assert!(resolve(accounts, Some("Ärger")).is_err());
    assert_eq!(resolve(accounts, Some("äRGER")).unwrap().id, "x");
}

fn missing() -> Result<String, String> {
    Err("No such file or directory (os error 2)".to_string())
}

#[test]
fn env_token_prefers_direct_value() {
    let token = Some(" tok ".to_string());
    let file = Some("/nonexistent".to_string());
    assert_eq!(token_file_to_read(&token, &file), None);
    let got = read_env_token(token, file, missing()).unwrap();
    assert_eq!(got.as_deref(), Some("tok"));
}

#[test]
fn env_token_reads_file() {
    let file = Some("/run/secrets/token".to_string());
    assert_eq!(token_file_to_read(&None, &file).as_deref(), Some("/run/secrets/token"));
    let got = read_env_token(None, file, Ok("filetok\n".to_string())).unwrap();
    assert_eq!(got.as_deref(), Some("filetok"));
}

#[test]
fn env_token_absent_falls_back() {
    assert!(read_env_token(None, None, missing()).unwrap().is_none());
    // an empty value is as good as none
    assert!(read_env_token(Some("".to_string()), None, missing()).unwrap().is_none());
}

#[test]
fn env_token_missing_file_is_config_error() {
    assert!(matches!(
        read_env_token(None, Some("/nonexistent/token".to_string()), missing()),
        Err(NotebotError::Config(_))
    ));
}

#[test]
fn config_errors_name_the_file() {
    let err = read_env_token(None, Some("/no".to_string()), missing()).unwrap_err();
    assert_eq!(
        err.message(),
        "failed to read NOTEBOT_TOKEN_FILE (/no): No such file or directory (os error 2)"
    );
    let err = read_env_token(None, Some("/empty".to_string()), Ok(" \n".to_string())).unwrap_err();
    assert_eq!(err.message(), "NOTEBOT_TOKEN_FILE (/empty) is empty");
}

#[test]
fn blank_token_falls_back_to_the_file() {
    let token = Some(" \t\u{3000}".to_string());
    let file = Some("/f".to_string());
    assert_eq!(token_file_to_read(&token, &file).as_deref(), Some("/f"));
    let got = read_env_token(token, file, Ok("t".to_string())).unwrap();
    assert_eq!(got.as_deref(), Some("t"));
    assert!(read_env_token(None, Some("".to_string()), missing()).unwrap().is_none());
}

#[test]
fn token_goes_before_accounts() {
    let source = credential_source(
        Some("tok".to_string()),
        Some("misskey.example".to_string()),
        Some("@bob@other.example".to_string()),
        &Some("alice".to_string()),
    );
    match source.unwrap() {
        CredentialSource::Token { host, token } => {
            assert_eq!(host, "misskey.example");
            assert_eq!(token, "tok");
        }
        other => panic!("{:?}", other),
    }
}

#[test]
fn token_without_host_is_config_error() {
    for host in [None, Some(String::new())] {
        let err = credential_source(Some("tok".to_string()), host, None, &None).unwrap_err();
        assert!(matches!(err, NotebotError::Config(_)));
        assert_eq!(err.message(), "NOTEBOT_TOKEN is set but NOTEBOT_HOST is missing");
    }
}

#[test]
fn account_of_the_environment_goes_first() {
    let spec = |env_host: Option<String>, env_account: Option<String>, configured| {
        match credential_source(None, env_host, env_account, &configured).unwrap() {
            CredentialSource::Account { spec } => spec,
            other => panic!("{:?}", other),
        }
    };
    let alice = || Some("alice".to_string());
    assert_eq!(spec(None, Some("bob".to_string()), alice()).as_deref(), Some("bob"));
    assert_eq!(spec(Some("h".to_string()), None, alice()).as_deref(), Some("alice"));
    assert_eq!(spec(None, None, None), None);
}

#[test]
fn identity_is_asked_with_an_empty_body() {
    let request = identity_request("misskey.example", "tok");
    assert_eq!(request.host, "misskey.example");
    assert_eq!(request.token, "tok");
    assert_eq!(request.endpoint, "i");
    assert_eq!(request.body, json("{}"));
}

#[test]
fn credentials_for_a_token() {
    let me = json(r#"{ "id": "u9", "username": "mybot" }"#);
    let c = Credentials::from_token("misskey.example".to_string(), "tok".to_string(), &me).unwrap();
    assert_eq!(c.account_id, "env:u9@misskey.example");
    assert_eq!(c.host, "misskey.example");
    assert_eq!(c.token, "tok");
    assert_eq!(c.user_id, "u9");
    assert_eq!(c.username, "mybot");
}

#[test]
fn user_name_may_be_unknown() {
    let me = json(r#"{ "id": "u9", "username": 5 }"#);
    let c = Credentials::from_token("h".to_string(), "t".to_string(), &me).unwrap();
    assert_eq!(c.username, "(unknown)");
}

#[test]
fn identity_without_id_is_unexpected() {
    for me in [r#"{ "username": "mybot" }"#, r#"{ "id": 9 }"#, "[]"] {
        let err =
            Credentials::from_token("h".to_string(), "t".to_string(), &json(me)).unwrap_err();
        assert!(matches!(err, NotebotError::UnexpectedResponse(_)));
        assert_eq!(err.message(), "unexpected API response: i: no id field");
    }
}

#[test]
fn credentials_for_a_stored_account() {
    let c = Credentials::from_account(
        &account("a1", "alice", "shown.example"),
        "misskey.example".to_string(),
        "tok".to_string(),
    );
    assert_eq!(c.account_id, "a1");
    assert_eq!(c.host, "misskey.example");
    assert_eq!(c.token, "tok");
    assert_eq!(c.user_id, "u-a1");
    assert_eq!(c.username, "alice");
}

#[test]
fn core_errors_speak_for_themselves() {
    assert_eq!(NotebotError::Core("network is down".to_string()).message(), "network is down");
}
