//! Whose credentials the bot uses: a token from the environment, or a stored account.

use serde_json::Value;
use vstd::prelude::*;
use vstd::string::*;

use crate::error::{ErrorView, NotebotError};
use crate::json::{json_view, object, text_member, Json};
use crate::models::{
    accounts_view, opt_str, opt_text, Account, AccountView, ApiRequest, ApiRequestView,
};
use crate::text::{
    ascii_lower, contains, eq_ignore_ascii_case, is_white_space, law_joined_text_splits_again,
    law_parts_make_the_text, law_trimmed_text_has_clean_ends, law_trimming_takes_white_space_only,
    occurs_in, same_ignoring_ascii_case, split_at_first, split_once, strip_prefix, trim, trimmed,
};

verus! {

// ---------------------------------------------------------------------------
// The token of the environment.

/// The token that `NOTEBOT_TOKEN` gives: its value without the white space around it, where
/// anything is left.
pub open spec fn direct_token(token: Option<Seq<char>>) -> Option<Seq<char>> {
    match token {
        Some(t) => if trimmed(t).len() > 0 {
            Some(trimmed(t))
        } else {
            None
        },
        None => None,
    }
}

/// A text, unless it is empty.
pub open spec fn non_empty(item: Option<Seq<char>>) -> Option<Seq<char>> {
    match item {
        Some(s) => if s.len() > 0 {
            Some(s)
        } else {
            None
        },
        None => None,
    }
}

/// The file that the token is read from: the one that `NOTEBOT_TOKEN_FILE` names, where
/// `NOTEBOT_TOKEN` gives no token.
pub open spec fn token_file_of(
    token: Option<Seq<char>>,
    token_file: Option<Seq<char>>,
) -> Option<Seq<char>> {
    match direct_token(token) {
        Some(_) => None,
        None => non_empty(token_file),
    }
}

/// The token of the environment, where reading the token file gives `contents`.
pub open spec fn env_token(
    token: Option<Seq<char>>,
    token_file: Option<Seq<char>>,
    contents: Result<Seq<char>, Seq<char>>,
) -> Result<Option<Seq<char>>, ErrorView> {
    match (direct_token(token), token_file_of(token, token_file)) {
        (Some(t), _) => Ok(Some(t)),
        (None, Some(path)) => match contents {
            Err(e) => Err(
                ErrorView::Config("failed to read NOTEBOT_TOKEN_FILE ("@ + path + "): "@ + e),
            ),
            Ok(c) => match direct_token(Some(c)) {
                Some(t) => Ok(Some(t)),
                None => Err(ErrorView::Config("NOTEBOT_TOKEN_FILE ("@ + path + ") is empty"@)),
            },
        },
        (None, None) => Ok(None),
    }
}

/// The contents of a file that was read, or why it could not be read.
pub open spec fn contents_view(contents: Result<String, String>) -> Result<Seq<char>, Seq<char>> {
    match contents {
        Ok(s) => Ok(s@),
        Err(s) => Err(s@),
    }
}

/// A token that may be absent, or an error, as a mathematical value.
pub open spec fn token_view(
    r: Result<Option<String>, NotebotError>,
) -> Result<Option<Seq<char>>, ErrorView> {
    match r {
        Ok(t) => Ok(opt_text(t)),
        Err(e) => Err(e@),
    }
}

/// A token without the white space around it, where anything is left.
fn clean_token(token: &str) -> (r: Option<String>)
    ensures
        opt_text(r) == direct_token(Some(token@)),
{
    let t = trim(token);
    if t.is_empty() {
        None
    } else {
        Some(t.to_string())
    }
}

/// The file that has to be read for the token, if any: `token` is the value of
/// `NOTEBOT_TOKEN`, `token_file` that of `NOTEBOT_TOKEN_FILE`.
pub fn token_file_to_read(token: &Option<String>, token_file: &Option<String>) -> (r: Option<
    String,
>)
    ensures
        opt_text(r) == token_file_of(opt_text(*token), opt_text(*token_file)),
{
    if let Some(t) = token {
        if clean_token(t.as_str()).is_some() {
            return None;
        }
    }
    match token_file {
        Some(path) => if path.as_str().is_empty() {
            None
        } else {
            Some(path.clone())
        },
        None => None,
    }
}

/// The token from `NOTEBOT_TOKEN`, else from the file that `NOTEBOT_TOKEN_FILE` names; none
/// where neither is set. `contents` is what reading the file that [`token_file_to_read`] asks
/// for gave; it is not looked at where no file is asked for.
pub fn read_env_token(
    token: Option<String>,
    token_file: Option<String>,
    contents: Result<String, String>,
) -> (r: Result<Option<String>, NotebotError>)
    ensures
        token_view(r) == env_token(
            opt_text(token),
            opt_text(token_file),
            contents_view(contents),
        ),
        token matches Some(t) ==> t@.len() > 0 && !is_white_space(t@[0]) && !is_white_space(
            t@[t@.len() - 1],
        ) ==> (r matches Ok(Some(used)) && used@ == t@),
{
    proof {
        if let Some(t) = &token {
            if t@.len() > 0 && !is_white_space(t@[0]) && !is_white_space(t@[t@.len() - 1]) {
                lemma_clean_text_is_kept(t@);
            }
        }
    }
    if let Some(t) = &token {
        let direct = clean_token(t.as_str());
        if direct.is_some() {
            return Ok(direct);
        }
    }
    match token_file_to_read(&token, &token_file) {
        Some(path) => match contents {
            Err(e) => Err(
                NotebotError::Config(
                    "failed to read NOTEBOT_TOKEN_FILE (".to_string().concat(path.as_str()).concat(
                        "): ",
                    ).concat(e.as_str()),
                ),
            ),
            Ok(c) => match clean_token(c.as_str()) {
                Some(t) => Ok(Some(t)),
                None => Err(
                    NotebotError::Config(
                        "NOTEBOT_TOKEN_FILE (".to_string().concat(path.as_str()).concat(
                            ") is empty",
                        ),
                    ),
                ),
            },
        },
        None => Ok(None),
    }
}

// ---------------------------------------------------------------------------
// The stored accounts.

/// The user and the host that a specification of the form `@user@host` names.
pub open spec fn handle_parts(spec: Seq<char>) -> Option<(Seq<char>, Seq<char>)> {
    if spec.len() > 0 && spec[0] == '@' {
        split_at_first(spec.drop_first(), '@')
    } else {
        None
    }
}

/// Whether the account answers to `@user@host`: the user name up to the case of ASCII letters,
/// the host by any part of it.
pub open spec fn answers_to_handle(account: AccountView, user: Seq<char>, host: Seq<char>) -> bool {
    same_ignoring_ascii_case(account.username, user) && occurs_in(account.host, host)
}

/// Whether the account has that user name, up to the case of ASCII letters.
pub open spec fn answers_to_name(account: AccountView, name: Seq<char>) -> bool {
    same_ignoring_ascii_case(account.username, name)
}

/// The first account that answers.
pub open spec fn first_account(
    accounts: Seq<AccountView>,
    answers: spec_fn(AccountView) -> bool,
) -> Option<AccountView>
    decreases accounts.len(),
{
    if accounts.len() == 0 {
        None
    } else if answers(accounts.first()) {
        Some(accounts.first())
    } else {
        first_account(accounts.drop_first(), answers)
    }
}

/// The account found, or the error that names what was asked for.
pub open spec fn found(account: Option<AccountView>, spec: Seq<char>) -> Result<
    AccountView,
    ErrorView,
> {
    match account {
        Some(a) => Ok(a),
        None => Err(ErrorView::AccountNotFound(spec)),
    }
}

/// The account id that the store is asked for, where the specification can be one.
pub open spec fn id_queried(accounts: Seq<AccountView>, spec: Option<Seq<char>>) -> Option<
    Seq<char>,
> {
    match spec {
        Some(s) => if accounts.len() > 0 && handle_parts(s) is None {
            Some(s)
        } else {
            None
        },
        None => None,
    }
}

/// The account that `spec` means, where the store holds `accounts` and gives `by_id` for the
/// id that it is asked for.
pub open spec fn resolved_account(
    accounts: Seq<AccountView>,
    spec: Option<Seq<char>>,
    by_id: Option<AccountView>,
) -> Result<AccountView, ErrorView> {
    if accounts.len() == 0 {
        Err(ErrorView::AccountNotFound("no accounts found — run `notecli login <HOST>` first"@))
    } else {
        match spec {
            None => Ok(accounts.first()),
            Some(s) => match (handle_parts(s), by_id) {
                (Some((user, host)), _) => found(
                    first_account(accounts, |a: AccountView| answers_to_handle(a, user, host)),
                    s,
                ),
                (None, Some(account)) => Ok(account),
                (None, None) => found(
                    first_account(accounts, |a: AccountView| answers_to_name(a, s)),
                    s,
                ),
            },
        }
    }
}

/// An account or an error, as a mathematical value.
pub open spec fn account_view(r: Result<Account, NotebotError>) -> Result<AccountView, ErrorView> {
    match r {
        Ok(a) => Ok(a@),
        Err(e) => Err(e@),
    }
}

/// An account that may be absent, as a mathematical value.
pub open spec fn opt_account(account: Option<Account>) -> Option<AccountView> {
    match account {
        Some(a) => Some(a@),
        None => None,
    }
}

/// The user and the host that a specification of the form `@user@host` names.
fn parse_handle<'a>(spec: &'a str) -> (r: Option<(&'a str, &'a str)>)
    ensures
        match r {
            Some(parts) => handle_parts(spec@) == Some((parts.0@, parts.1@)),
            None => handle_parts(spec@) is None,
        },
{
    match strip_prefix(spec, '@') {
        Some(rest) => split_once(rest, '@'),
        None => None,
    }
}

/// The account at position `i`, which is the first one that answers.
fn take_account(
    accounts: Vec<Account>,
    i: usize,
    Ghost(answers): Ghost<spec_fn(AccountView) -> bool>,
) -> (r: Account)
    requires
        i < accounts@.len(),
        answers(accounts@[i as int]@),
        forall|j: int| 0 <= j < i ==> !answers(#[trigger] accounts@[j]@),
    ensures
        first_account(accounts_view(accounts@), answers) == Some(r@),
{
    proof {
        lemma_first_account(accounts_view(accounts@), answers, i as int);
    }
    let mut accounts = accounts;
    accounts.swap_remove(i)
}

/// The first account that answers is the one at position `i`, where none before it answers.
proof fn lemma_first_account(
    accounts: Seq<AccountView>,
    answers: spec_fn(AccountView) -> bool,
    i: int,
)
    requires
        0 <= i <= accounts.len(),
        forall|j: int| 0 <= j < i ==> !answers(#[trigger] accounts[j]),
        i < accounts.len() ==> answers(accounts[i]),
    ensures
        first_account(accounts, answers) == (if i < accounts.len() {
            Some(accounts[i])
        } else {
            None
        }),
    decreases i,
{
    if i > 0 {
        assert(!answers(accounts[0]));
        assert forall|j: int| 0 <= j < i - 1 implies !answers(
            #[trigger] accounts.drop_first()[j],
        ) by {
            assert(!answers(accounts[j + 1]));
        }
        lemma_first_account(accounts.drop_first(), answers, i - 1);
    }
}

/// The account id that the store has to be asked for, if any, to resolve `spec`.
pub fn account_id_to_query<'a>(accounts: &Vec<Account>, spec: Option<&'a str>) -> (r: Option<
    &'a str,
>)
    ensures
        opt_str(r) == id_queried(accounts_view(accounts@), opt_str(spec)),
{
    match spec {
        Some(s) => if accounts.len() > 0 && parse_handle(s).is_none() {
            Some(s)
        } else {
            None
        },
        None => None,
    }
}

/// The account that `spec` means: `@user@host`, an account id or a user name, in this order;
/// without a specification the first one. `by_id` is what the store gave for the id that
/// [`account_id_to_query`] asks for; it is not looked at where no id is asked for.
pub fn resolve_account(
    accounts: Vec<Account>,
    spec: Option<&str>,
    by_id: Option<Account>,
) -> (r: Result<Account, NotebotError>)
    ensures
        account_view(r) == resolved_account(
            accounts_view(accounts@),
            opt_str(spec),
            opt_account(by_id),
        ),
{
    if accounts.len() == 0 {
        return Err(
            NotebotError::AccountNotFound(
                "no accounts found — run `notecli login <HOST>` first".to_string(),
            ),
        );
    }
    let s = match spec {
        Some(s) => s,
        None => {
            let mut accounts = accounts;
            return Ok(accounts.swap_remove(0));
        },
    };
    if let Some((user, host)) = parse_handle(s) {
        let ghost answers = |a: AccountView| answers_to_handle(a, user@, host@);
        for i in 0..accounts.len()
            invariant
                answers == (|a: AccountView| answers_to_handle(a, user@, host@)),
                forall|j: int| 0 <= j < i ==> !answers(#[trigger] accounts@[j]@),
                accounts@.len() > 0,
                opt_str(spec) == Some(s@),
                handle_parts(s@) == Some((user@, host@)),
        {
            let a = &accounts[i];
            if eq_ignore_ascii_case(a.username.as_str(), user) && contains(a.host.as_str(), host) {
                assert(answers(accounts@[i as int]@));
                return Ok(take_account(accounts, i, Ghost(answers)));
            }
        }
        proof {
            lemma_first_account(accounts_view(accounts@), answers, accounts@.len() as int);
        }
        return Err(NotebotError::AccountNotFound(s.to_string()));
    }
    if let Some(account) = by_id {
        return Ok(account);
    }
    let ghost answers = |a: AccountView| answers_to_name(a, s@);
    for i in 0..accounts.len()
        invariant
            answers == (|a: AccountView| answers_to_name(a, s@)),
            forall|j: int| 0 <= j < i ==> !answers(#[trigger] accounts@[j]@),
            accounts@.len() > 0,
            opt_str(spec) == Some(s@),
            handle_parts(s@) is None,
            by_id is None,
    {
        if eq_ignore_ascii_case(accounts[i].username.as_str(), s) {
            assert(answers(accounts@[i as int]@));
            return Ok(take_account(accounts, i, Ghost(answers)));
        }
    }
    proof {
        lemma_first_account(accounts_view(accounts@), answers, accounts@.len() as int);
    }
    Err(NotebotError::AccountNotFound(s.to_string()))
}

// ---------------------------------------------------------------------------
// Credentials.

/// What the bot connects with.
#[derive(Debug)]
pub struct Credentials {
    pub account_id: String,
    pub host: String,
    pub token: String,
    pub user_id: String,
    pub username: String,
}

pub struct CredentialsView {
    pub account_id: Seq<char>,
    pub host: Seq<char>,
    pub token: Seq<char>,
    pub user_id: Seq<char>,
    pub username: Seq<char>,
}

impl View for Credentials {
    type V = CredentialsView;

    open spec fn view(&self) -> CredentialsView {
        CredentialsView {
            account_id: self.account_id@,
            host: self.host@,
            token: self.token@,
            user_id: self.user_id@,
            username: self.username@,
        }
    }
}

/// Where the credentials come from.
#[derive(Debug)]
pub enum CredentialSource {
    /// A token of the environment; the server says whose it is.
    Token { host: String, token: String },
    /// A stored account; the first one where nothing is specified.
    Account { spec: Option<String> },
}

pub enum SourceView {
    Token { host: Seq<char>, token: Seq<char> },
    Account { spec: Option<Seq<char>> },
}

impl View for CredentialSource {
    type V = SourceView;

    open spec fn view(&self) -> SourceView {
        match self {
            CredentialSource::Token { host, token } => SourceView::Token {
                host: host@,
                token: token@,
            },
            CredentialSource::Account { spec } => SourceView::Account { spec: opt_text(*spec) },
        }
    }
}

/// Where the credentials come from, given the token of the environment, the values of
/// `NOTEBOT_HOST` and `NOTEBOT_ACCOUNT`, and the account that the bot was built with.
pub open spec fn source_of(
    env_token: Option<Seq<char>>,
    env_host: Option<Seq<char>>,
    env_account: Option<Seq<char>>,
    configured: Option<Seq<char>>,
) -> Result<SourceView, ErrorView> {
    match (env_token, non_empty(env_host)) {
        (Some(token), Some(host)) => Ok(SourceView::Token { host, token }),
        (Some(_), None) => Err(
            ErrorView::Config("NOTEBOT_TOKEN is set but NOTEBOT_HOST is missing"@),
        ),
        (None, _) => Ok(
            SourceView::Account {
                spec: if env_account is Some {
                    env_account
                } else {
                    configured
                },
            },
        ),
    }
}

/// A source or an error, as a mathematical value.
pub open spec fn source_view(r: Result<CredentialSource, NotebotError>) -> Result<
    SourceView,
    ErrorView,
> {
    match r {
        Ok(s) => Ok(s@),
        Err(e) => Err(e@),
    }
}

/// Decides where the credentials come from: a token of the environment goes first, then the
/// account of the environment, then the account that the bot was built with.
pub fn credential_source(
    env_token: Option<String>,
    env_host: Option<String>,
    env_account: Option<String>,
    configured: &Option<String>,
) -> (r: Result<CredentialSource, NotebotError>)
    ensures
        source_view(r) == source_of(
            opt_text(env_token),
            opt_text(env_host),
            opt_text(env_account),
            opt_text(*configured),
        ),
        r matches Ok(CredentialSource::Token { host, token }) ==> {
            &&& env_token matches Some(t) && token@ == t@
            &&& env_host matches Some(h) && host@ == h@
        },
{
    if let Some(token) = env_token {
        if let Some(host) = env_host {
            if !host.as_str().is_empty() {
                return Ok(CredentialSource::Token { host, token });
            }
        }
        return Err(
            NotebotError::Config(
                "NOTEBOT_TOKEN is set but NOTEBOT_HOST is missing".to_string(),
            ),
        );
    }
    let spec = match env_account {
        Some(account) => Some(account),
        None => match configured {
            Some(account) => Some(account.clone()),
            None => None,
        },
    };
    Ok(CredentialSource::Account { spec })
}

/// The request by which the server says whose token this is.
pub open spec fn identity_request_of(host: Seq<char>, token: Seq<char>) -> ApiRequestView {
    ApiRequestView { host, token, endpoint: "i"@, body: Json::Object(Map::empty()) }
}

/// The request by which the server says whose token this is.
pub fn identity_request(host: &str, token: &str) -> (r: ApiRequest)
    ensures
        r@ == identity_request_of(host@, token@),
        r.host@ == host@,
        r.token@ == token@,
        r.endpoint@ == "i"@,
{
    ApiRequest {
        host: host.to_string(),
        token: token.to_string(),
        endpoint: "i".to_string(),
        body: object(Vec::new()),
    }
}

/// The credentials for a token that the server at `host` says is that of `me`.
pub open spec fn token_credentials(host: Seq<char>, token: Seq<char>, me: Json) -> Result<
    CredentialsView,
    ErrorView,
> {
    match me.text_member("id"@) {
        Some(user_id) => Ok(
            CredentialsView {
                account_id: "env:"@ + user_id + "@"@ + host,
                host,
                token,
                user_id,
                username: match me.text_member("username"@) {
                    Some(username) => username,
                    None => "(unknown)"@,
                },
            },
        ),
        None => Err(ErrorView::UnexpectedResponse("i: no id field"@)),
    }
}

/// The credentials for a stored account with that host and token.
pub open spec fn account_credentials(
    account: AccountView,
    host: Seq<char>,
    token: Seq<char>,
) -> CredentialsView {
    CredentialsView {
        account_id: account.id,
        host,
        token,
        user_id: account.user_id,
        username: account.username,
    }
}

/// Credentials or an error, as a mathematical value.
pub open spec fn credentials_view(r: Result<Credentials, NotebotError>) -> Result<
    CredentialsView,
    ErrorView,
> {
    match r {
        Ok(c) => Ok(c@),
        Err(e) => Err(e@),
    }
}

impl Credentials {
    /// The credentials for a token of the environment: `me` is the answer to
    /// [`identity_request`].
    pub fn from_token(host: String, token: String, me: &Value) -> (r: Result<Self, NotebotError>)
        ensures
            credentials_view(r) == token_credentials(host@, token@, json_view(*me)),
            r is Ok <==> json_view(*me).text_member("id"@) is Some,
            r matches Ok(c) ==> {
                &&& c.host@ == host@
                &&& c.token@ == token@
                &&& Some(c.user_id@) == json_view(*me).text_member("id"@)
            },
    {
        let user_id = match text_member(me, "id") {
            Some(id) => id.to_string(),
            None => {
                return Err(NotebotError::UnexpectedResponse("i: no id field".to_string()));
            },
        };
        let username = match text_member(me, "username") {
            Some(name) => name.to_string(),
            None => "(unknown)".to_string(),
        };
        let account_id = "env:".to_string().concat(user_id.as_str()).concat("@").concat(
            host.as_str(),
        );
        Ok(Credentials { account_id, host, token, user_id, username })
    }

    /// The credentials for a stored account: `host` and `token` are those stored with it.
    pub fn from_account(account: &Account, host: String, token: String) -> (r: Self)
        ensures
            r@ == account_credentials(account@, host@, token@),
            r.account_id@ == account.id@,
            r.host@ == host@,
            r.token@ == token@,
            r.user_id@ == account.user_id@,
            r.username@ == account.username@,
    {
        Credentials {
            account_id: account.id.clone(),
            host,
            token,
            user_id: account.user_id.clone(),
            username: account.username.clone(),
        }
    }
}

// ---------------------------------------------------------------------------
// Laws.

/// A token from the environment is never empty and has no white space at its ends.
pub proof fn law_env_token_is_clean(
    token: Option<Seq<char>>,
    token_file: Option<Seq<char>>,
    contents: Result<Seq<char>, Seq<char>>,
)
    ensures
        env_token(token, token_file, contents) matches Ok(Some(t)) ==> t.len() > 0
            && !is_white_space(t.first()) && !is_white_space(t.last()),
{
    match token {
        Some(t) => law_trimmed_text_has_clean_ends(t),
        None => {},
    }
    match contents {
        Ok(c) => law_trimmed_text_has_clean_ends(c),
        Err(_) => {},
    }
}

/// Where `NOTEBOT_TOKEN` gives a token, no file is read and none matters.
pub proof fn law_direct_token_goes_first(
    token: Option<Seq<char>>,
    token_file: Option<Seq<char>>,
    contents: Result<Seq<char>, Seq<char>>,
)
    requires
        direct_token(token) is Some,
    ensures
        token_file_of(token, token_file) is None,
        env_token(token, token_file, contents) == Ok::<_, ErrorView>(direct_token(token)),
{
}

/// What a file holds matters only where that file is asked for.
pub proof fn law_only_the_file_asked_for_matters(
    token: Option<Seq<char>>,
    token_file: Option<Seq<char>>,
    contents: Result<Seq<char>, Seq<char>>,
    other: Result<Seq<char>, Seq<char>>,
)
    requires
        token_file_of(token, token_file) is None,
    ensures
        env_token(token, token_file, contents) == env_token(token, token_file, other),
{
}

/// An empty `NOTEBOT_TOKEN` (white space alone) and an empty `NOTEBOT_TOKEN_FILE` are as good
/// as unset.
pub proof fn law_empty_settings_are_unset(
    token: Option<Seq<char>>,
    token_file: Option<Seq<char>>,
    contents: Result<Seq<char>, Seq<char>>,
)
    requires
        direct_token(token) is None,
    ensures
        env_token(token, token_file, contents) == env_token(None, token_file, contents),
        non_empty(token_file) is None ==> env_token(token, token_file, contents) == Ok::<
            Option<Seq<char>>,
            ErrorView,
        >(None),
{
}

/// A token of the environment is used, or refused for want of a host; a stored account is
/// never used beside it. Without one, the account of the environment goes before the account
/// that the bot was built with, and no host is needed.
pub proof fn law_environment_goes_first(
    env_token: Option<Seq<char>>,
    env_host: Option<Seq<char>>,
    env_account: Option<Seq<char>>,
    configured: Option<Seq<char>>,
)
    ensures
        env_token is Some ==> !(source_of(env_token, env_host, env_account, configured) matches Ok(
            SourceView::Account { .. },
        )),
        env_token is None && env_account is Some ==> source_of(
            env_token,
            env_host,
            env_account,
            configured,
        ) == Ok::<_, ErrorView>(SourceView::Account { spec: env_account }),
        env_token is None && env_account is None ==> source_of(
            env_token,
            env_host,
            env_account,
            configured,
        ) == Ok::<_, ErrorView>(SourceView::Account { spec: configured }),
{
}

/// Without any account every specification gets the same advice.
pub proof fn law_no_accounts_gives_guidance(spec: Option<Seq<char>>, by_id: Option<AccountView>)
    ensures
        resolved_account(Seq::empty(), spec, by_id) == Err::<AccountView, _>(
            ErrorView::AccountNotFound("no accounts found — run `notecli login <HOST>` first"@),
        ),
{
}

/// Without a specification the first account is meant.
pub proof fn law_first_account_is_the_default(
    accounts: Seq<AccountView>,
    by_id: Option<AccountView>,
)
    requires
        accounts.len() > 0,
    ensures
        resolved_account(accounts, None, by_id) == Ok::<_, ErrorView>(accounts.first()),
{
}

/// What the store gives for an id matters only where it is asked for one.
pub proof fn law_only_the_id_asked_for_matters(
    accounts: Seq<AccountView>,
    spec: Option<Seq<char>>,
    by_id: Option<AccountView>,
    other: Option<AccountView>,
)
    requires
        id_queried(accounts, spec) is None,
    ensures
        resolved_account(accounts, spec, by_id) == resolved_account(accounts, spec, other),
{
}

/// The first account that answers: it is one of the accounts, it answers, and none before it
/// does; where there is none, no account answers.
pub proof fn law_first_account_is_the_first(
    accounts: Seq<AccountView>,
    answers: spec_fn(AccountView) -> bool,
)
    ensures
        match first_account(accounts, answers) {
            Some(a) => exists|i: int|
                0 <= i < accounts.len() && #[trigger] accounts[i] == a && answers(a) && forall|
                    j: int,
                |
                    0 <= j < i ==> !answers(#[trigger] accounts[j]),
            None => forall|i: int| 0 <= i < accounts.len() ==> !answers(#[trigger] accounts[i]),
        },
    decreases accounts.len(),
{
    if accounts.len() > 0 {
        if answers(accounts.first()) {
            assert(accounts[0] == accounts.first());
        } else {
            let rest = accounts.drop_first();
            law_first_account_is_the_first(rest, answers);
            match first_account(rest, answers) {
                Some(a) => {
                    let i = choose|i: int|
                        0 <= i < rest.len() && #[trigger] rest[i] == a && answers(a) && forall|
                            j: int,
                        |
                            0 <= j < i ==> !answers(#[trigger] rest[j]);
                    assert forall|j: int| 0 <= j < i + 1 implies !answers(
                        #[trigger] accounts[j],
                    ) by {
                        if j > 0 {
                            assert(rest[j - 1] == accounts[j]);
                        }
                    }
                    assert(accounts[i + 1] == a);
                },
                None => {
                    assert forall|i: int| 0 <= i < accounts.len() implies !answers(
                        #[trigger] accounts[i],
                    ) by {
                        if i > 0 {
                            assert(rest[i - 1] == accounts[i]);
                        }
                    }
                },
            }
        }
    }
}

/// The account that a specification means is one of the stored ones.
pub proof fn law_resolved_account_is_stored(
    accounts: Seq<AccountView>,
    spec: Option<Seq<char>>,
    by_id: Option<AccountView>,
)
    ensures
        resolved_account(accounts, spec, by_id) matches Ok(a) ==> accounts.contains(a) || by_id
            == Some(a),
{
    if accounts.len() > 0 {
        assert(accounts.contains(accounts[0]));
    }
    match spec {
        Some(s) => {
            match handle_parts(s) {
                Some((user, host)) => law_first_account_is_the_first(
                    accounts,
                    |a: AccountView| answers_to_handle(a, user, host),
                ),
                None => law_first_account_is_the_first(
                    accounts,
                    |a: AccountView| answers_to_name(a, s),
                ),
            }
        },
        None => {},
    }
}

/// User names are found whatever the case of their ASCII letters.
pub proof fn law_user_names_ignore_case(
    accounts: Seq<AccountView>,
    name: Seq<char>,
    other: Seq<char>,
)
    requires
        same_ignoring_ascii_case(name, other),
        handle_parts(name) is None,
    ensures
        handle_parts(other) is None,
        match (
            resolved_account(accounts, Some(name), None),
            resolved_account(accounts, Some(other), None),
        ) {
            (Ok(a), Ok(b)) => a == b,
            (Err(_), Err(_)) => true,
            _ => false,
        },
{
    if handle_parts(other) is Some {
        let rest = other.drop_first();
        rest.index_of_first_ensures('@');
        name.drop_first().index_of_first_ensures('@');
        let i = rest.index_of('@');
        assert(ascii_lower(name[0]) == ascii_lower(other[0]));
        assert(ascii_lower(name[i + 1]) == ascii_lower(other[i + 1]));
        assert(name.drop_first()[i] == '@');
    }
    let p = |a: AccountView| answers_to_name(a, name);
    let q = |a: AccountView| answers_to_name(a, other);
    assert forall|a: AccountView| #[trigger] p(a) == q(a) by {
        if p(a) {
            assert forall|i: int| 0 <= i < a.username.len() implies ascii_lower(
                #[trigger] a.username[i],
            ) == ascii_lower(other[i]) by {
                assert(ascii_lower(name[i]) == ascii_lower(other[i]));
            }
        }
        if q(a) {
            assert forall|i: int| 0 <= i < a.username.len() implies ascii_lower(
                #[trigger] a.username[i],
            ) == ascii_lower(name[i]) by {
                assert(ascii_lower(name[i]) == ascii_lower(other[i]));
            }
        }
    }
    assert(p =~= q);
}

/// A text without white space at its ends is all that trimming leaves of it.
proof fn lemma_clean_text_is_kept(t: Seq<char>)
    requires
        t.len() > 0,
        !is_white_space(t[0]),
        !is_white_space(t[t.len() - 1]),
    ensures
        trimmed(t) == t,
{
    let none = Seq::<char>::empty();
    law_trimming_takes_white_space_only(none, t, none);
    assert(none + t + none =~= t);
}

/// Of white space alone, trimming leaves nothing.
proof fn lemma_blank_text_is_empty(t: Seq<char>)
    requires
        forall|i: int| 0 <= i < t.len() ==> is_white_space(#[trigger] t[i]),
    ensures
        trimmed(t).len() == 0,
{
    let none = Seq::<char>::empty();
    law_trimming_takes_white_space_only(t, none, none);
    assert(t + none + none =~= t);
}

/// The token that `NOTEBOT_TOKEN` is set to is used as it stands, whatever its length and
/// whatever else is set: only white space around it goes. No file is read for it.
pub proof fn law_token_is_used_as_it_is_set(
    before: Seq<char>,
    token: Seq<char>,
    after: Seq<char>,
    token_file: Option<Seq<char>>,
    contents: Result<Seq<char>, Seq<char>>,
)
    requires
        forall|i: int| 0 <= i < before.len() ==> is_white_space(#[trigger] before[i]),
        forall|i: int| 0 <= i < after.len() ==> is_white_space(#[trigger] after[i]),
        token.len() > 0,
        !is_white_space(token[0]),
        !is_white_space(token[token.len() - 1]),
    ensures
        env_token(Some(before + token + after), token_file, contents) == Ok::<_, ErrorView>(
            Some(token),
        ),
        env_token(Some(token), token_file, contents) == Ok::<_, ErrorView>(Some(token)),
        token_file_of(Some(before + token + after), token_file) is None,
        token_file_of(Some(token), token_file) is None,
{
    law_trimming_takes_white_space_only(before, token, after);
    lemma_clean_text_is_kept(token);
}

/// Where `NOTEBOT_TOKEN` is unset or white space alone, the file that `NOTEBOT_TOKEN_FILE` names
/// is read, and the token that stands in it is used as it stands: only white space around it
/// goes. A file that cannot be read, or that holds white space alone, is refused by its name.
pub proof fn law_token_is_used_as_it_stands_in_the_file(
    unset: Option<Seq<char>>,
    path: Seq<char>,
    before: Seq<char>,
    token: Seq<char>,
    after: Seq<char>,
    error: Seq<char>,
)
    requires
        unset matches Some(t) ==> forall|i: int|
            0 <= i < t.len() ==> is_white_space(#[trigger] t[i]),
        path.len() > 0,
        forall|i: int| 0 <= i < before.len() ==> is_white_space(#[trigger] before[i]),
        forall|i: int| 0 <= i < after.len() ==> is_white_space(#[trigger] after[i]),
        token.len() > 0,
        !is_white_space(token[0]),
        !is_white_space(token[token.len() - 1]),
    ensures
        token_file_of(unset, Some(path)) == Some(path),
        env_token(unset, Some(path), Ok(before + token + after)) == Ok::<_, ErrorView>(Some(token)),
        env_token(unset, Some(path), Ok(token)) == Ok::<_, ErrorView>(Some(token)),
        env_token(unset, Some(path), Ok(before)) == Err::<Option<Seq<char>>, _>(
            ErrorView::Config("NOTEBOT_TOKEN_FILE ("@ + path + ") is empty"@),
        ),
        env_token(unset, Some(path), Err(error)) == Err::<Option<Seq<char>>, _>(
            ErrorView::Config("failed to read NOTEBOT_TOKEN_FILE ("@ + path + "): "@ + error),
        ),
{
    if let Some(t) = unset {
        lemma_blank_text_is_empty(t);
    }
    lemma_blank_text_is_empty(before);
    lemma_clean_text_is_kept(token);
    law_trimming_takes_white_space_only(before, token, after);
}

/// Where `NOTEBOT_TOKEN` is unset or white space alone, and `NOTEBOT_TOKEN_FILE` is unset or
/// empty, there is no token, no error, and no file to read.
pub proof fn law_no_token_without_settings(
    unset: Option<Seq<char>>,
    contents: Result<Seq<char>, Seq<char>>,
)
    requires
        unset matches Some(t) ==> forall|i: int|
            0 <= i < t.len() ==> is_white_space(#[trigger] t[i]),
    ensures
        env_token(unset, None, contents) == Ok::<Option<Seq<char>>, ErrorView>(None),
        env_token(unset, Some(Seq::empty()), contents) == Ok::<Option<Seq<char>>, ErrorView>(None),
        token_file_of(unset, None) is None,
        token_file_of(unset, Some(Seq::empty())) is None,
{
    if let Some(t) = unset {
        lemma_blank_text_is_empty(t);
    }
}

/// A token is used with the host of the environment, each as it stands; without a host, or
/// with an empty one, it is refused. Without a token, the account of the environment, else the
/// configured one, is looked for as it stands.
pub proof fn law_settings_are_used_as_they_stand(
    token: Seq<char>,
    host: Seq<char>,
    env_host: Option<Seq<char>>,
    account: Seq<char>,
    env_account: Option<Seq<char>>,
    configured: Option<Seq<char>>,
)
    requires
        host.len() > 0,
    ensures
        source_of(Some(token), Some(host), env_account, configured) == Ok::<_, ErrorView>(
            SourceView::Token { host, token },
        ),
        source_of(Some(token), None, env_account, configured) == Err::<SourceView, _>(
            ErrorView::Config("NOTEBOT_TOKEN is set but NOTEBOT_HOST is missing"@),
        ),
        source_of(Some(token), Some(Seq::empty()), env_account, configured) == Err::<SourceView, _>(
            ErrorView::Config("NOTEBOT_TOKEN is set but NOTEBOT_HOST is missing"@),
        ),
        source_of(None, env_host, Some(account), configured) == Ok::<_, ErrorView>(
            SourceView::Account { spec: Some(account) },
        ),
        source_of(None, env_host, None, Some(account)) == Ok::<_, ErrorView>(
            SourceView::Account { spec: Some(account) },
        ),
        source_of(None, env_host, None, None) == Ok::<_, ErrorView>(
            SourceView::Account { spec: None },
        ),
{
}

/// A specification is a handle where a user without `@` and a host stand in it, each behind an
/// `@`; then it names these two. Nothing else is a handle.
pub proof fn law_handle_names_user_and_host(user: Seq<char>, host: Seq<char>, spec: Seq<char>)
    requires
        !user.contains('@'),
    ensures
        handle_parts(seq!['@'] + user + seq!['@'] + host) == Some((user, host)),
        handle_parts(spec) is Some <==> spec.len() > 0 && spec[0] == '@' && spec.skip(1).contains(
            '@',
        ),
        handle_parts(spec) matches Some(parts) ==> spec == seq!['@'] + parts.0 + seq!['@']
            + parts.1 && !parts.0.contains('@'),
{
    let handle = seq!['@'] + user + seq!['@'] + host;
    law_joined_text_splits_again(user, '@', host);
    assert(handle.drop_first() =~= user.push('@') + host);
    if spec.len() > 0 {
        assert(spec.drop_first() =~= spec.skip(1));
        law_parts_make_the_text(spec.drop_first(), '@');
        if let Some(parts) = handle_parts(spec) {
            assert(spec =~= seq![spec[0]] + spec.drop_first());
            assert(spec =~= seq!['@'] + parts.0 + seq!['@'] + parts.1);
        }
    }
}

/// A handle means the first stored account whose user name is that of the handle, up to the
/// case of ASCII letters, and whose host holds that of the handle, whatever the store gives for
/// an id. Where there is no such account, none is found, and the handle is named.
pub proof fn law_handle_means_its_user(
    accounts: Seq<AccountView>,
    user: Seq<char>,
    host: Seq<char>,
    by_id: Option<AccountView>,
)
    requires
        accounts.len() > 0,
        !user.contains('@'),
    ensures
        ({
            let spec = seq!['@'] + user + seq!['@'] + host;
            match resolved_account(accounts, Some(spec), by_id) {
                Ok(a) => exists|i: int|
                    0 <= i < accounts.len() && #[trigger] accounts[i] == a
                        && same_ignoring_ascii_case(a.username, user) && occurs_in(a.host, host)
                        && forall|j: int|
                        0 <= j < i ==> !(same_ignoring_ascii_case(
                            (#[trigger] accounts[j]).username,
                            user,
                        ) && occurs_in(accounts[j].host, host)),
                Err(e) => e == ErrorView::AccountNotFound(spec) && forall|j: int|
                    0 <= j < accounts.len() ==> !(same_ignoring_ascii_case(
                        (#[trigger] accounts[j]).username,
                        user,
                    ) && occurs_in(accounts[j].host, host)),
            }
        }),
{
    let spec = seq!['@'] + user + seq!['@'] + host;
    law_handle_names_user_and_host(user, host, spec);
    let answers = |a: AccountView| answers_to_handle(a, user, host);
    law_first_account_is_the_first(accounts, answers);
    let found = first_account(accounts, answers);
    assert(resolved_account(accounts, Some(spec), by_id) == match found {
        Some(a) => Ok::<_, ErrorView>(a),
        None => Err(ErrorView::AccountNotFound(spec)),
    });
    match found {
        Some(a) => {
            let i = choose|i: int|
                0 <= i < accounts.len() && #[trigger] accounts[i] == a && answers(a) && forall|
                    j: int,
                |
                    0 <= j < i ==> !answers(#[trigger] accounts[j]);
            assert forall|j: int| 0 <= j < i implies !(same_ignoring_ascii_case(
                (#[trigger] accounts[j]).username,
                user,
            ) && occurs_in(accounts[j].host, host)) by {
                assert(!answers(accounts[j]));
            }
            assert(accounts[i] == a);
        },
        None => {
            assert forall|j: int| 0 <= j < accounts.len() implies !(same_ignoring_ascii_case(
                (#[trigger] accounts[j]).username,
                user,
            ) && occurs_in(accounts[j].host, host)) by {
                assert(!answers(accounts[j]));
            }
        },
    }
}

/// A specification that is no handle is an account id where the store has an account under it,
/// and that account is meant. Else it is a user name: the first stored account with that name,
/// up to the case of ASCII letters, is meant. Where there is no such account, none is found,
/// and the specification is named.
pub proof fn law_other_specifications_are_ids_or_names(
    accounts: Seq<AccountView>,
    spec: Seq<char>,
    stored: AccountView,
)
    requires
        accounts.len() > 0,
        !(spec.len() > 0 && spec[0] == '@' && spec.skip(1).contains('@')),
    ensures
        resolved_account(accounts, Some(spec), Some(stored)) == Ok::<_, ErrorView>(stored),
        match resolved_account(accounts, Some(spec), None) {
            Ok(a) => exists|i: int|
                0 <= i < accounts.len() && #[trigger] accounts[i] == a && same_ignoring_ascii_case(
                    a.username,
                    spec,
                ) && forall|j: int|
                    0 <= j < i ==> !same_ignoring_ascii_case(
                        (#[trigger] accounts[j]).username,
                        spec,
                    ),
            Err(e) => e == ErrorView::AccountNotFound(spec) && forall|j: int|
                0 <= j < accounts.len() ==> !same_ignoring_ascii_case(
                    (#[trigger] accounts[j]).username,
                    spec,
                ),
        },
{
    if spec.len() > 0 {
        assert(spec.drop_first() =~= spec.skip(1));
        law_parts_make_the_text(spec.drop_first(), '@');
    }
    let answers = |a: AccountView| answers_to_name(a, spec);
    law_first_account_is_the_first(accounts, answers);
    let found = first_account(accounts, answers);
    assert(resolved_account(accounts, Some(spec), None) == match found {
        Some(a) => Ok::<_, ErrorView>(a),
        None => Err(ErrorView::AccountNotFound(spec)),
    });
    match found {
        Some(a) => {
            let i = choose|i: int|
                0 <= i < accounts.len() && #[trigger] accounts[i] == a && answers(a) && forall|
                    j: int,
                |
                    0 <= j < i ==> !answers(#[trigger] accounts[j]);
            assert forall|j: int| 0 <= j < i implies !same_ignoring_ascii_case(
                (#[trigger] accounts[j]).username,
                spec,
            ) by {
                assert(!answers(accounts[j]));
            }
            assert(accounts[i] == a);
        },
        None => {
            assert forall|j: int| 0 <= j < accounts.len() implies !same_ignoring_ascii_case(
                (#[trigger] accounts[j]).username,
                spec,
            ) by {
                assert(!answers(accounts[j]));
            }
        },
    }
}

/// The store is asked for the specification itself, as it stands, exactly where there are
/// accounts and it is no handle.
pub proof fn law_store_is_asked_for_the_specification(
    accounts: Seq<AccountView>,
    spec: Seq<char>,
)
    ensures
        id_queried(accounts, None) is None,
        id_queried(accounts, Some(spec)) == (if accounts.len() > 0 && !(spec.len() > 0 && spec[0]
            == '@' && spec.skip(1).contains('@')) {
            Some(spec)
        } else {
            None
        }),
{
    if spec.len() > 0 {
        assert(spec.drop_first() =~= spec.skip(1));
        law_parts_make_the_text(spec.drop_first(), '@');
    }
}

/// The server is asked about the token itself, at the host itself, and nothing but that.
pub proof fn law_identity_is_asked_about_the_token(host: Seq<char>, token: Seq<char>)
    ensures
        identity_request_of(host, token).host == host,
        identity_request_of(host, token).token == token,
        identity_request_of(host, token).endpoint == "i"@,
        identity_request_of(host, token).body matches Json::Object(members) && forall|
            key: Seq<char>,
        | !(#[trigger] members.contains_key(key)),
{
}

/// The credentials for a token hold the host and the token themselves, and the id and the name
/// that the server gives, under an account id that names id and host. A server that gives no
/// id is refused; one that gives no name leaves it unknown.
pub proof fn law_token_credentials_hold_what_they_are_made_of(
    host: Seq<char>,
    token: Seq<char>,
    me: Json,
)
    ensures
        me.text_member("id"@) matches Some(id) ==> (token_credentials(host, token, me) matches Ok(c)
            && {
            &&& c.host == host
            &&& c.token == token
            &&& c.user_id == id
            &&& c.account_id == "env:"@ + id + "@"@ + host
            &&& me.text_member("username"@) matches Some(name) ==> c.username == name
            &&& me.text_member("username"@) is None ==> c.username == "(unknown)"@
        }),
        me.text_member("id"@) is None ==> token_credentials(host, token, me) == Err::<
            CredentialsView,
            _,
        >(ErrorView::UnexpectedResponse("i: no id field"@)),
{
}

/// The credentials for a stored account hold the host and the token themselves, and the ids
/// and the name of that account.
pub proof fn law_account_credentials_hold_what_they_are_made_of(
    account: AccountView,
    host: Seq<char>,
    token: Seq<char>,
)
    ensures
        account_credentials(account, host, token).host == host,
        account_credentials(account, host, token).token == token,
        account_credentials(account, host, token).account_id == account.id,
        account_credentials(account, host, token).user_id == account.user_id,
        account_credentials(account, host, token).username == account.username,
{
}

/// Results are seen as what they are, with all that they hold.
pub proof fn law_results_are_seen_whole(
    contents: Result<String, String>,
    token: Result<Option<String>, NotebotError>,
    account: Result<Account, NotebotError>,
    by_id: Option<Account>,
    source: Result<CredentialSource, NotebotError>,
    credentials: Result<Credentials, NotebotError>,
)
    ensures
        contents matches Ok(s) ==> contents_view(contents) == Ok::<_, Seq<char>>(s@),
        contents matches Err(s) ==> contents_view(contents) == Err::<Seq<char>, _>(s@),
        token matches Ok(Some(s)) ==> token_view(token) == Ok::<_, ErrorView>(Some(s@)),
        token matches Ok(None) ==> token_view(token) == Ok::<Option<Seq<char>>, ErrorView>(None),
        token matches Err(e) ==> token_view(token) == Err::<Option<Seq<char>>, _>(e@),
        account matches Ok(a) ==> account_view(account) == Ok::<_, ErrorView>(a@),
        account matches Err(e) ==> account_view(account) == Err::<AccountView, _>(e@),
        by_id matches Some(a) ==> opt_account(by_id) == Some(a@),
        by_id is None ==> opt_account(by_id) is None,
        source matches Ok(CredentialSource::Token { host, token }) ==> source_view(source) == Ok::<
            _,
            ErrorView,
        >(SourceView::Token { host: host@, token: token@ }),
        source matches Ok(CredentialSource::Account { spec: Some(s) }) ==> source_view(source)
            == Ok::<_, ErrorView>(SourceView::Account { spec: Some(s@) }),
        source matches Ok(CredentialSource::Account { spec: None }) ==> source_view(source) == Ok::<
            _,
            ErrorView,
        >(SourceView::Account { spec: None }),
        source matches Err(e) ==> source_view(source) == Err::<SourceView, _>(e@),
        credentials matches Ok(c) ==> (credentials_view(credentials) matches Ok(seen) && {
            &&& seen == c@
            &&& seen.account_id == c.account_id@
            &&& seen.host == c.host@
            &&& seen.token == c.token@
            &&& seen.user_id == c.user_id@
            &&& seen.username == c.username@
        }),
        credentials matches Err(e) ==> credentials_view(credentials) == Err::<
            CredentialsView,
            _,
        >(e@),
{
}


} // verus!
