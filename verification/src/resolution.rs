//! The way from the environment and the account store to the bot's credentials: which file,
//! server or store is asked next, and what is made of the answers.

use serde_json::Value;
use vstd::prelude::*;

use crate::credentials::{
    account_credentials, account_id_to_query, account_view, contents_view, credential_source,
    env_token, id_queried, identity_request, identity_request_of, law_handle_means_its_user,
    law_handle_names_user_and_host, law_no_token_without_settings,
    law_other_specifications_are_ids_or_names, law_store_is_asked_for_the_specification,
    law_token_is_used_as_it_is_set, law_token_is_used_as_it_stands_in_the_file, non_empty,
    opt_account,
    read_env_token, resolve_account, resolved_account, source_of, token_credentials, token_file_of,
    token_file_to_read, CredentialSource, Credentials, CredentialsView, SourceView,
};
use crate::error::{ErrorView, NotebotError};
use crate::json::{json_view, Json};
use crate::models::{
    accounts_view, opt_str, opt_text, Account, AccountView, ApiRequest, ApiRequestView,
};
use crate::text::{is_white_space, occurs_in, same_ignoring_ascii_case};

verus! {

// ---------------------------------------------------------------------------
// Data.

/// The environment variables that say whose credentials are used.
#[derive(Debug)]
pub struct Environment {
    /// `NOTEBOT_TOKEN`
    pub token: Option<String>,
    /// `NOTEBOT_TOKEN_FILE`
    pub token_file: Option<String>,
    /// `NOTEBOT_HOST`
    pub host: Option<String>,
    /// `NOTEBOT_ACCOUNT`
    pub account: Option<String>,
}

pub struct EnvironmentView {
    pub token: Option<Seq<char>>,
    pub token_file: Option<Seq<char>>,
    pub host: Option<Seq<char>>,
    pub account: Option<Seq<char>>,
}

impl View for Environment {
    type V = EnvironmentView;

    open spec fn view(&self) -> EnvironmentView {
        EnvironmentView {
            token: opt_text(self.token),
            token_file: opt_text(self.token_file),
            host: opt_text(self.host),
            account: opt_text(self.account),
        }
    }
}

/// What is waited for.
enum Pending {
    /// The contents of the token file.
    TokenFile { env: Environment, configured: Option<String> },
    /// Whose token it is.
    Identity { host: String, token: String },
    /// The stored accounts.
    Accounts { spec: Option<String> },
    /// The account stored under an id.
    AccountById { spec: Option<String>, accounts: Vec<Account> },
    /// The host and the token stored with the account.
    Secret { account: Account },
    /// Nothing: the credentials are found, or cannot be.
    Nothing,
}

/// What a resolution waits for, as a mathematical value.
pub enum ResolutionView {
    TokenFile { env: EnvironmentView, configured: Option<Seq<char>> },
    Identity { host: Seq<char>, token: Seq<char> },
    Accounts { spec: Option<Seq<char>> },
    AccountById { spec: Option<Seq<char>>, accounts: Seq<AccountView> },
    Secret { account: AccountView },
    Nothing,
}

/// The search for the credentials of a bot.
pub struct Resolution {
    pending: Pending,
}

impl View for Resolution {
    type V = ResolutionView;

    closed spec fn view(&self) -> ResolutionView {
        match self.pending {
            Pending::TokenFile { env, configured } => ResolutionView::TokenFile {
                env: env@,
                configured: opt_text(configured),
            },
            Pending::Identity { host, token } => ResolutionView::Identity {
                host: host@,
                token: token@,
            },
            Pending::Accounts { spec } => ResolutionView::Accounts { spec: opt_text(spec) },
            Pending::AccountById { spec, accounts } => ResolutionView::AccountById {
                spec: opt_text(spec),
                accounts: accounts_view(accounts@),
            },
            Pending::Secret { account } => ResolutionView::Secret { account: account@ },
            Pending::Nothing => ResolutionView::Nothing,
        }
    }
}

/// What came back from a file, the server or the store.
#[derive(Debug)]
pub enum Response<E> {
    /// The contents of the file, or why it could not be read.
    Contents(Result<String, String>),
    /// What the server says.
    Data(Value),
    /// The stored accounts, in their order.
    Accounts(Vec<Account>),
    /// The account stored under the id, if any.
    Account(Option<Account>),
    /// The host and the token stored with the account.
    Secret { host: String, token: String },
    /// The server or the store failed.
    Failed(E),
}

pub enum ResponseView<E> {
    Contents(Result<Seq<char>, Seq<char>>),
    Data(Json),
    Accounts(Seq<AccountView>),
    Account(Option<AccountView>),
    Secret { host: Seq<char>, token: Seq<char> },
    Failed(E),
}

impl<E> View for Response<E> {
    type V = ResponseView<E>;

    open spec fn view(&self) -> ResponseView<E> {
        match self {
            Response::Contents(c) => ResponseView::Contents(contents_view(*c)),
            Response::Data(value) => ResponseView::Data(json_view(*value)),
            Response::Accounts(accounts) => ResponseView::Accounts(accounts_view(accounts@)),
            Response::Account(account) => ResponseView::Account(opt_account(*account)),
            Response::Secret { host, token } => ResponseView::Secret { host: host@, token: token@ },
            Response::Failed(e) => ResponseView::Failed(*e),
        }
    }
}

/// Why no credentials were found.
#[derive(Debug)]
pub enum Failure<E> {
    /// The settings, the accounts or the answer of the server do not allow it.
    Refused(NotebotError),
    /// The server or the store failed.
    Failed(E),
}

pub enum FailureView<E> {
    Refused(ErrorView),
    Failed(E),
}

impl<E> View for Failure<E> {
    type V = FailureView<E>;

    open spec fn view(&self) -> FailureView<E> {
        match self {
            Failure::Refused(e) => FailureView::Refused(e@),
            Failure::Failed(e) => FailureView::Failed(*e),
        }
    }
}

/// What is done next.
#[derive(Debug)]
pub enum ResolutionStep<E> {
    /// Read the token file.
    ReadFile { path: String },
    /// Ask the server whose token it is.
    Ask(ApiRequest),
    /// Load the stored accounts.
    LoadAccounts,
    /// Ask the store for the account with this id.
    QueryAccount { id: String },
    /// Ask the store for the host and the token of this account.
    LoadSecret { account_id: String },
    /// The credentials are found.
    Done(Credentials),
    /// There are none.
    Fail(Failure<E>),
    /// Nothing.
    Idle,
}

pub enum ResolutionStepView<E> {
    ReadFile { path: Seq<char> },
    Ask(ApiRequestView),
    LoadAccounts,
    QueryAccount { id: Seq<char> },
    LoadSecret { account_id: Seq<char> },
    Done(CredentialsView),
    Fail(FailureView<E>),
    Idle,
}

impl<E> View for ResolutionStep<E> {
    type V = ResolutionStepView<E>;

    open spec fn view(&self) -> ResolutionStepView<E> {
        match self {
            ResolutionStep::ReadFile { path } => ResolutionStepView::ReadFile { path: path@ },
            ResolutionStep::Ask(request) => ResolutionStepView::Ask(request@),
            ResolutionStep::LoadAccounts => ResolutionStepView::LoadAccounts,
            ResolutionStep::QueryAccount { id } => ResolutionStepView::QueryAccount { id: id@ },
            ResolutionStep::LoadSecret { account_id } => ResolutionStepView::LoadSecret {
                account_id: account_id@,
            },
            ResolutionStep::Done(c) => ResolutionStepView::Done(c@),
            ResolutionStep::Fail(f) => ResolutionStepView::Fail(f@),
            ResolutionStep::Idle => ResolutionStepView::Idle,
        }
    }
}

// ---------------------------------------------------------------------------
// What follows what.

/// The end without credentials.
pub open spec fn refused<E>(e: ErrorView) -> (ResolutionView, ResolutionStepView<E>) {
    (ResolutionView::Nothing, ResolutionStepView::Fail(FailureView::Refused(e)))
}

/// What follows once it is known whether the environment gives a token: the server is asked
/// whose it is, with the host and the token of the environment; without one, the stored
/// accounts are loaded.
pub open spec fn with_env_token<E>(
    token: Result<Option<Seq<char>>, ErrorView>,
    env: EnvironmentView,
    configured: Option<Seq<char>>,
) -> (ResolutionView, ResolutionStepView<E>) {
    match token {
        Err(e) => refused(e),
        Ok(t) => match source_of(t, env.host, env.account, configured) {
            Err(e) => refused(e),
            Ok(SourceView::Token { host, token }) => (
                ResolutionView::Identity { host, token },
                ResolutionStepView::Ask(identity_request_of(host, token)),
            ),
            Ok(SourceView::Account { spec }) => (
                ResolutionView::Accounts { spec },
                ResolutionStepView::LoadAccounts,
            ),
        },
    }
}

/// What follows once an account is resolved: the store is asked for the host and the token of
/// that same account.
pub open spec fn with_account<E>(account: Result<AccountView, ErrorView>) -> (
    ResolutionView,
    ResolutionStepView<E>,
) {
    match account {
        Err(e) => refused(e),
        Ok(account) => (
            ResolutionView::Secret { account },
            ResolutionStepView::LoadSecret { account_id: account.id },
        ),
    }
}

/// How the search begins in an environment, for a bot that was built with `configured` as its
/// account.
pub open spec fn first_step<E>(env: EnvironmentView, configured: Option<Seq<char>>) -> (
    ResolutionView,
    ResolutionStepView<E>,
) {
    match token_file_of(env.token, env.token_file) {
        Some(path) => (
            ResolutionView::TokenFile { env, configured },
            ResolutionStepView::ReadFile { path },
        ),
        None => with_env_token(
            env_token(env.token, env.token_file, Ok(Seq::empty())),
            env,
            configured,
        ),
    }
}

/// What follows an answer. An answer that was not waited for changes nothing.
pub open spec fn next_step<E>(state: ResolutionView, response: ResponseView<E>) -> (
    ResolutionView,
    ResolutionStepView<E>,
) {
    match (state, response) {
        (ResolutionView::Nothing, _) => (state, ResolutionStepView::Idle),
        (_, ResponseView::Failed(e)) => (
            ResolutionView::Nothing,
            ResolutionStepView::Fail(FailureView::Failed(e)),
        ),
        (
            ResolutionView::TokenFile { env, configured },
            ResponseView::Contents(contents),
        ) => with_env_token(env_token(env.token, env.token_file, contents), env, configured),
        (
            ResolutionView::Identity { host, token },
            ResponseView::Data(me),
        ) => match token_credentials(host, token, me) {
            Ok(c) => (ResolutionView::Nothing, ResolutionStepView::Done(c)),
            Err(e) => refused(e),
        },
        (
            ResolutionView::Accounts { spec },
            ResponseView::Accounts(accounts),
        ) => match id_queried(accounts, spec) {
            Some(id) => (
                ResolutionView::AccountById { spec, accounts },
                ResolutionStepView::QueryAccount { id },
            ),
            None => with_account(resolved_account(accounts, spec, None)),
        },
        (
            ResolutionView::AccountById { spec, accounts },
            ResponseView::Account(by_id),
        ) => with_account(resolved_account(accounts, spec, by_id)),
        (
            ResolutionView::Secret { account },
            ResponseView::Secret { host, token },
        ) => (
            ResolutionView::Nothing,
            ResolutionStepView::Done(account_credentials(account, host, token)),
        ),
        _ => (state, ResolutionStepView::Idle),
    }
}

/// A text that may be absent, borrowed.
fn borrowed(item: &Option<String>) -> (r: Option<&str>)
    ensures
        opt_str(r) == opt_text(*item),
{
    match item {
        Some(s) => Some(s.as_str()),
        None => None,
    }
}

impl Resolution {
    /// Begins the search in the environment `env`, for a bot that was built with `configured`
    /// as its account.
    pub fn start<E>(env: Environment, configured: Option<String>) -> (r: (
        Resolution,
        ResolutionStep<E>,
    ))
        ensures
            (r.0@, r.1@) == first_step::<E>(env@, opt_text(configured)),
    {
        match token_file_to_read(&env.token, &env.token_file) {
            Some(path) => (
                Resolution { pending: Pending::TokenFile { env, configured } },
                ResolutionStep::ReadFile { path },
            ),
            None => Self::go_on(env, configured, Ok(String::new())),
        }
    }

    /// Goes on with the token of the environment, where reading the token file gave `contents`.
    fn go_on<E>(
        env: Environment,
        configured: Option<String>,
        contents: Result<String, String>,
    ) -> (r: (Resolution, ResolutionStep<E>))
        ensures
            (r.0@, r.1@) == with_env_token::<E>(
                env_token(env@.token, env@.token_file, contents_view(contents)),
                env@,
                opt_text(configured),
            ),
    {
        let token = match read_env_token(env.token, env.token_file, contents) {
            Ok(token) => token,
            Err(e) => {
                return Self::refuse(e);
            },
        };
        match credential_source(token, env.host, env.account, &configured) {
            Err(e) => Self::refuse(e),
            Ok(CredentialSource::Token { host, token }) => {
                let request = identity_request(host.as_str(), token.as_str());
                (
                    Resolution { pending: Pending::Identity { host, token } },
                    ResolutionStep::Ask(request),
                )
            },
            Ok(CredentialSource::Account { spec }) => (
                Resolution { pending: Pending::Accounts { spec } },
                ResolutionStep::LoadAccounts,
            ),
        }
    }

    /// Goes on with the account that was resolved.
    fn go_on_with<E>(account: Result<Account, NotebotError>) -> (r: (
        Resolution,
        ResolutionStep<E>,
    ))
        ensures
            (r.0@, r.1@) == with_account::<E>(account_view(account)),
    {
        match account {
            Err(e) => Self::refuse(e),
            Ok(account) => {
                let account_id = account.id.clone();
                (
                    Resolution { pending: Pending::Secret { account } },
                    ResolutionStep::LoadSecret { account_id },
                )
            },
        }
    }

    /// Ends without credentials.
    fn refuse<E>(e: NotebotError) -> (r: (Resolution, ResolutionStep<E>))
        ensures
            (r.0@, r.1@) == refused::<E>(e@),
    {
        (
            Resolution { pending: Pending::Nothing },
            ResolutionStep::Fail(Failure::Refused(e)),
        )
    }

    /// Goes on with the answer to the last step.
    pub fn advance<E>(&mut self, response: Response<E>) -> (r: ResolutionStep<E>)
        ensures
            (final(self)@, r@) == next_step(old(self)@, response@),
    {
        let mut current = Resolution { pending: Pending::Nothing };
        std::mem::swap(self, &mut current);
        let (next, step) = current.followed_by(response);
        *self = next;
        step
    }

    /// What follows the answer to the last step.
    fn followed_by<E>(self, response: Response<E>) -> (r: (Resolution, ResolutionStep<E>))
        ensures
            (r.0@, r.1@) == next_step(self@, response@),
    {
        match (self.pending, response) {
            (Pending::Nothing, _) => (
                Resolution { pending: Pending::Nothing },
                ResolutionStep::Idle,
            ),
            (_, Response::Failed(e)) => (
                Resolution { pending: Pending::Nothing },
                ResolutionStep::Fail(Failure::Failed(e)),
            ),
            (Pending::TokenFile { env, configured }, Response::Contents(contents)) => {
                Self::go_on(env, configured, contents)
            },
            (
                Pending::Identity { host, token },
                Response::Data(me),
            ) => match Credentials::from_token(host, token, &me) {
                Ok(c) => (Resolution { pending: Pending::Nothing }, ResolutionStep::Done(c)),
                Err(e) => Self::refuse(e),
            },
            (Pending::Accounts { spec }, Response::Accounts(accounts)) => {
                let id = match account_id_to_query(&accounts, borrowed(&spec)) {
                    Some(id) => id.to_string(),
                    None => {
                        return Self::go_on_with(
                            resolve_account(accounts, borrowed(&spec), None),
                        );
                    },
                };
                (
                    Resolution { pending: Pending::AccountById { spec, accounts } },
                    ResolutionStep::QueryAccount { id },
                )
            },
            (Pending::AccountById { spec, accounts }, Response::Account(by_id)) => {
                Self::go_on_with(resolve_account(accounts, borrowed(&spec), by_id))
            },
            (Pending::Secret { account }, Response::Secret { host, token }) => (
                Resolution { pending: Pending::Nothing },
                ResolutionStep::Done(Credentials::from_account(&account, host, token)),
            ),
            (pending, _) => (Resolution { pending }, ResolutionStep::Idle),
        }
    }
}

// ---------------------------------------------------------------------------
// Laws.

/// What a resolution waits for after all of `responses`, in order.
pub open spec fn state_after<E>(
    env: EnvironmentView,
    configured: Option<Seq<char>>,
    responses: Seq<ResponseView<E>>,
) -> ResolutionView
    decreases responses.len(),
{
    if responses.len() == 0 {
        first_step::<E>(env, configured).0
    } else {
        next_step(state_after(env, configured, responses.drop_last()), responses.last()).0
    }
}

/// The steps of a resolution: the first one, then one for each of `responses`.
pub open spec fn steps_taken<E>(
    env: EnvironmentView,
    configured: Option<Seq<char>>,
    responses: Seq<ResponseView<E>>,
) -> Seq<ResolutionStepView<E>>
    decreases responses.len(),
{
    if responses.len() == 0 {
        seq![first_step::<E>(env, configured).1]
    } else {
        steps_taken(env, configured, responses.drop_last()).push(
            next_step(state_after(env, configured, responses.drop_last()), responses.last()).1,
        )
    }
}

/// What has been asked for by the time an answer is waited for.
spec fn asked<E>(state: ResolutionView, steps: Seq<ResolutionStepView<E>>) -> bool {
    match state {
        ResolutionView::Identity { host, token } => exists|i: int|
            0 <= i < steps.len() && #[trigger] steps[i] == ResolutionStepView::<E>::Ask(
                identity_request_of(host, token),
            ),
        ResolutionView::Secret { account } => exists|i: int|
            0 <= i < steps.len() && #[trigger] steps[i] == (ResolutionStepView::<E>::LoadSecret {
                account_id: account.id,
            }),
        _ => true,
    }
}

proof fn lemma_asked<E>(
    env: EnvironmentView,
    configured: Option<Seq<char>>,
    responses: Seq<ResponseView<E>>,
)
    ensures
        asked(state_after(env, configured, responses), steps_taken(env, configured, responses)),
        steps_taken(env, configured, responses).len() == responses.len() + 1,
    decreases responses.len(),
{
    let steps = steps_taken(env, configured, responses);
    if responses.len() == 0 {
        assert(steps[0] == first_step::<E>(env, configured).1);
    } else {
        let before = responses.drop_last();
        lemma_asked(env, configured, before);
        let old_steps = steps_taken(env, configured, before);
        assert(steps == old_steps.push(steps.last()));
        assert(steps[steps.len() - 1] == steps.last());
        assert forall|i: int|
            #![trigger old_steps[i]]
            #![trigger steps[i]]
            0 <= i < old_steps.len() implies old_steps[i] == steps[i] by {}
    }
}

/// How many answers may still be waited for.
pub open spec fn answers_to_come(state: ResolutionView) -> nat {
    match state {
        ResolutionView::TokenFile { .. } => 4,
        ResolutionView::Accounts { .. } => 3,
        ResolutionView::AccountById { .. } => 2,
        ResolutionView::Identity { .. } => 1,
        ResolutionView::Secret { .. } => 1,
        ResolutionView::Nothing => 0,
    }
}

/// An answer either is not waited for, and changes nothing, or brings the search closer to its
/// end; and the search has ended exactly when the credentials are found or refused.
pub proof fn law_resolution_makes_progress<E>(state: ResolutionView, response: ResponseView<E>)
    ensures
        ({
            let (next, step) = next_step(state, response);
            &&& step is Idle ==> next == state
            &&& !(step is Idle) ==> answers_to_come(next) < answers_to_come(state)
            &&& step is Done || step is Fail <==> next is Nothing && !(state is Nothing)
        }),
{
}

/// The stored host and token are asked for under the id of the account that was just resolved,
/// and that account is kept.
pub proof fn law_secret_is_asked_for_the_resolved_account<E>(
    state: ResolutionView,
    response: ResponseView<E>,
)
    requires
        next_step(state, response).1 is LoadSecret,
    ensures
        next_step(state, response).0 matches ResolutionView::Secret { account } && {
            &&& next_step(state, response).1 == (ResolutionStepView::<E>::LoadSecret {
                account_id: account.id,
            })
            &&& match (state, response) {
                (
                    ResolutionView::Accounts { spec },
                    ResponseView::Accounts(accounts),
                ) => resolved_account(accounts, spec, None) == Ok::<_, ErrorView>(account),
                (
                    ResolutionView::AccountById { spec, accounts },
                    ResponseView::Account(by_id),
                ) => resolved_account(accounts, spec, by_id) == Ok::<_, ErrorView>(account),
                _ => false,
            }
        },
{
}

/// Whatever is answered, the credentials found at the end are those of what was asked for: of
/// the host and the token that the server was asked about, with the identity that it answered;
/// or of the account whose host and token the store was asked for.
pub proof fn law_credentials_are_those_asked_for<E>(
    env: EnvironmentView,
    configured: Option<Seq<char>>,
    responses: Seq<ResponseView<E>>,
    c: CredentialsView,
)
    requires
        responses.len() > 0,
        steps_taken(env, configured, responses).last() == ResolutionStepView::<E>::Done(c),
    ensures
        ({
            let steps = steps_taken(env, configured, responses);
            match responses.last() {
                ResponseView::Data(me) => {
                    &&& token_credentials(c.host, c.token, me) == Ok::<_, ErrorView>(c)
                    &&& exists|i: int|
                        0 <= i < steps.len() - 1 && #[trigger] steps[i]
                            == ResolutionStepView::<E>::Ask(identity_request_of(c.host, c.token))
                },
                ResponseView::Secret { host, token } => {
                    &&& state_after(env, configured, responses.drop_last()) matches
                        ResolutionView::Secret { account } && c == account_credentials(
                        account,
                        host,
                        token,
                    )
                    &&& exists|i: int|
                        0 <= i < steps.len() - 1 && #[trigger] steps[i] == (ResolutionStepView::<
                            E,
                        >::LoadSecret { account_id: c.account_id })
                },
                _ => false,
            }
        }),
{
    let before = responses.drop_last();
    lemma_asked(env, configured, before);
    let steps = steps_taken(env, configured, responses);
    let old_steps = steps_taken(env, configured, before);
    assert(steps == old_steps.push(steps.last()));
    assert forall|i: int|
        #![trigger old_steps[i]]
        #![trigger steps[i]]
        0 <= i < old_steps.len() implies old_steps[i] == steps[i] by {}
}

/// With a token in the environment, read from a file or not, the server is asked about that
/// token at the host of the environment, and its answer makes the credentials.
pub proof fn law_token_leads_to_its_owner<E>(
    env: EnvironmentView,
    configured: Option<Seq<char>>,
    contents: Result<Seq<char>, Seq<char>>,
    token: Seq<char>,
    host: Seq<char>,
    me: Json,
)
    requires
        env_token(env.token, env.token_file, contents) == Ok::<_, ErrorView>(Some(token)),
        non_empty(env.host) == Some(host),
    ensures
        ({
            let first = first_step::<E>(env, configured);
            let second = if token_file_of(env.token, env.token_file) is Some {
                next_step(first.0, ResponseView::<E>::Contents(contents))
            } else {
                first
            };
            let last = next_step(second.0, ResponseView::<E>::Data(me));
            &&& second.1 == ResolutionStepView::<E>::Ask(identity_request_of(host, token))
            &&& last.1 == match token_credentials(host, token, me) {
                Ok(c) => ResolutionStepView::<E>::Done(c),
                Err(e) => ResolutionStepView::<E>::Fail(FailureView::Refused(e)),
            }
        }),
{
}

/// Without a token in the environment, the account that is meant is found among the stored
/// ones, its own host and token are asked for, and they make the credentials.
pub proof fn law_account_leads_to_its_credentials<E>(
    env: EnvironmentView,
    configured: Option<Seq<char>>,
    accounts: Seq<AccountView>,
    by_id: Option<AccountView>,
    host: Seq<char>,
    token: Seq<char>,
)
    requires
        env_token(env.token, env.token_file, Ok(Seq::empty())) == Ok::<_, ErrorView>(
            None::<Seq<char>>,
        ),
    ensures
        ({
            let spec = if env.account is Some {
                env.account
            } else {
                configured
            };
            let first = first_step::<E>(env, configured);
            let second = next_step(first.0, ResponseView::<E>::Accounts(accounts));
            let third = match id_queried(accounts, spec) {
                Some(_) => next_step(second.0, ResponseView::<E>::Account(by_id)),
                None => second,
            };
            let last = next_step(third.0, ResponseView::<E>::Secret { host, token });
            &&& first.1 == ResolutionStepView::<E>::LoadAccounts
            &&& id_queried(accounts, spec) matches Some(id) ==> second.1 == (ResolutionStepView::<
                E,
            >::QueryAccount { id })
            &&& match resolved_account(accounts, spec, by_id) {
                Ok(account) => {
                    &&& third.1 == (ResolutionStepView::<E>::LoadSecret { account_id: account.id })
                    &&& last.1 == ResolutionStepView::<E>::Done(
                        account_credentials(account, host, token),
                    )
                },
                Err(e) => third.1 == ResolutionStepView::<E>::Fail(FailureView::Refused(e)),
            }
        }),
{
}

/// A token that `NOTEBOT_TOKEN` is set to, less the white space around it, is the token that
/// the server of `NOTEBOT_HOST` is asked about, and the one that the credentials hold, with the
/// id that the server gives. No file is read and no stored account is looked at.
pub proof fn law_set_token_is_the_one_used<E>(
    env: EnvironmentView,
    configured: Option<Seq<char>>,
    before: Seq<char>,
    token: Seq<char>,
    after: Seq<char>,
    host: Seq<char>,
    me: Json,
    id: Seq<char>,
)
    requires
        forall|i: int| 0 <= i < before.len() ==> is_white_space(#[trigger] before[i]),
        forall|i: int| 0 <= i < after.len() ==> is_white_space(#[trigger] after[i]),
        token.len() > 0,
        !is_white_space(token[0]),
        !is_white_space(token[token.len() - 1]),
        env.token == Some(before + token + after),
        env.host == Some(host),
        host.len() > 0,
        me.text_member("id"@) == Some(id),
    ensures
        first_step::<E>(env, configured).1 matches ResolutionStepView::Ask(request) && {
            &&& request.host == host
            &&& request.token == token
            &&& request.endpoint == "i"@
        },
        next_step(first_step::<E>(env, configured).0, ResponseView::<E>::Data(me)).1 matches
            ResolutionStepView::Done(c) && {
            &&& c.host == host
            &&& c.token == token
            &&& c.user_id == id
            &&& c.account_id == "env:"@ + id + "@"@ + host
        },
{
    law_token_is_used_as_it_is_set(before, token, after, env.token_file, Ok(Seq::empty()));
}

/// Where `NOTEBOT_TOKEN` is unset or white space alone, the file of `NOTEBOT_TOKEN_FILE` is
/// read, and the token in it, less the white space around it, is the one that the server is
/// asked about and that the credentials hold.
pub proof fn law_token_in_the_file_is_the_one_used<E>(
    env: EnvironmentView,
    configured: Option<Seq<char>>,
    path: Seq<char>,
    before: Seq<char>,
    token: Seq<char>,
    after: Seq<char>,
    host: Seq<char>,
    me: Json,
    id: Seq<char>,
)
    requires
        env.token matches Some(t) ==> forall|i: int|
            0 <= i < t.len() ==> is_white_space(#[trigger] t[i]),
        env.token_file == Some(path),
        path.len() > 0,
        forall|i: int| 0 <= i < before.len() ==> is_white_space(#[trigger] before[i]),
        forall|i: int| 0 <= i < after.len() ==> is_white_space(#[trigger] after[i]),
        token.len() > 0,
        !is_white_space(token[0]),
        !is_white_space(token[token.len() - 1]),
        env.host == Some(host),
        host.len() > 0,
        me.text_member("id"@) == Some(id),
    ensures
        ({
            let first = first_step::<E>(env, configured);
            let second = next_step(
                first.0,
                ResponseView::<E>::Contents(Ok(before + token + after)),
            );
            let third = next_step(second.0, ResponseView::<E>::Data(me));
            &&& first.1 == (ResolutionStepView::<E>::ReadFile { path })
            &&& second.1 matches ResolutionStepView::Ask(request) && {
                &&& request.host == host
                &&& request.token == token
                &&& request.endpoint == "i"@
            }
            &&& third.1 matches ResolutionStepView::Done(c) && {
                &&& c.host == host
                &&& c.token == token
                &&& c.user_id == id
            }
        }),
{
    law_token_is_used_as_it_stands_in_the_file(env.token, path, before, token, after, Seq::empty());
}

/// Without a token in the environment and without an account named, the first stored account
/// is the one used: its host and token are asked for under its id, and the credentials hold
/// them, with the ids and the name of that account.
pub proof fn law_first_stored_account_is_the_one_used<E>(
    env: EnvironmentView,
    accounts: Seq<AccountView>,
    host: Seq<char>,
    token: Seq<char>,
)
    requires
        env.token matches Some(t) ==> forall|i: int|
            0 <= i < t.len() ==> is_white_space(#[trigger] t[i]),
        env.token_file matches Some(path) ==> path == Seq::<char>::empty(),
        env.account is None,
        accounts.len() > 0,
    ensures
        ({
            let first = first_step::<E>(env, None);
            let second = next_step(first.0, ResponseView::<E>::Accounts(accounts));
            let third = next_step(second.0, ResponseView::<E>::Secret { host, token });
            &&& first.1 is LoadAccounts
            &&& second.1 == (ResolutionStepView::<E>::LoadSecret { account_id: accounts[0].id })
            &&& third.1 matches ResolutionStepView::Done(c) && {
                &&& c.account_id == accounts[0].id
                &&& c.host == host
                &&& c.token == token
                &&& c.user_id == accounts[0].user_id
                &&& c.username == accounts[0].username
            }
        }),
{
    law_no_token_without_settings(env.token, Ok(Seq::empty()));
}

/// Without a token in the environment, the store is asked for the account that is named there,
/// else for the configured one, under the name as it stands where that is no handle; and the
/// account that the store has under it is the one used.
pub proof fn law_named_account_is_the_one_used<E>(
    env: EnvironmentView,
    configured: Option<Seq<char>>,
    spec: Seq<char>,
    accounts: Seq<AccountView>,
    stored: AccountView,
    host: Seq<char>,
    token: Seq<char>,
)
    requires
        env.token matches Some(t) ==> forall|i: int|
            0 <= i < t.len() ==> is_white_space(#[trigger] t[i]),
        env.token_file matches Some(path) ==> path == Seq::<char>::empty(),
        env.account == Some(spec) || env.account is None && configured == Some(spec),
        accounts.len() > 0,
        !(spec.len() > 0 && spec[0] == '@' && spec.skip(1).contains('@')),
    ensures
        ({
            let first = first_step::<E>(env, configured);
            let second = next_step(first.0, ResponseView::<E>::Accounts(accounts));
            let third = next_step(second.0, ResponseView::<E>::Account(Some(stored)));
            let last = next_step(third.0, ResponseView::<E>::Secret { host, token });
            &&& first.1 is LoadAccounts
            &&& second.1 == (ResolutionStepView::<E>::QueryAccount { id: spec })
            &&& third.1 == (ResolutionStepView::<E>::LoadSecret { account_id: stored.id })
            &&& last.1 matches ResolutionStepView::Done(c) && {
                &&& c.account_id == stored.id
                &&& c.host == host
                &&& c.token == token
                &&& c.user_id == stored.user_id
                &&& c.username == stored.username
            }
        }),
{
    law_no_token_without_settings(env.token, Ok(Seq::empty()));
    law_store_is_asked_for_the_specification(accounts, spec);
    law_other_specifications_are_ids_or_names(accounts, spec, stored);
}

/// Without a token in the environment, a handle that is named there, else configured, leads to
/// the first stored account with its user name, up to the case of ASCII letters, whose host
/// holds its host: the host and the token of that one are asked for, and the credentials hold
/// them, with the ids and the name of that account. Where there is none, the search ends.
pub proof fn law_handle_leads_to_its_account<E>(
    env: EnvironmentView,
    configured: Option<Seq<char>>,
    user: Seq<char>,
    server: Seq<char>,
    accounts: Seq<AccountView>,
    host: Seq<char>,
    token: Seq<char>,
)
    requires
        env.token matches Some(t) ==> forall|i: int|
            0 <= i < t.len() ==> is_white_space(#[trigger] t[i]),
        env.token_file matches Some(path) ==> path == Seq::<char>::empty(),
        env.account == Some(seq!['@'] + user + seq!['@'] + server) || env.account is None
            && configured == Some(seq!['@'] + user + seq!['@'] + server),
        accounts.len() > 0,
        !user.contains('@'),
    ensures
        ({
            let first = first_step::<E>(env, configured);
            let second = next_step(first.0, ResponseView::<E>::Accounts(accounts));
            let last = next_step(second.0, ResponseView::<E>::Secret { host, token });
            &&& first.1 is LoadAccounts
            &&& second.1 is LoadSecret || second.1 is Fail
            &&& second.1 is LoadSecret ==> exists|i: int|
                0 <= i < accounts.len() && second.1 == (ResolutionStepView::<E>::LoadSecret {
                    account_id: (#[trigger] accounts[i]).id,
                }) && same_ignoring_ascii_case(accounts[i].username, user) && occurs_in(
                    accounts[i].host,
                    server,
                ) && (forall|j: int|
                    0 <= j < i ==> !(same_ignoring_ascii_case(
                        (#[trigger] accounts[j]).username,
                        user,
                    ) && occurs_in(accounts[j].host, server))) && (last.1 matches
                    ResolutionStepView::Done(c) && {
                    &&& c.account_id == accounts[i].id
                    &&& c.host == host
                    &&& c.token == token
                    &&& c.user_id == accounts[i].user_id
                    &&& c.username == accounts[i].username
                })
            &&& second.1 is Fail ==> forall|j: int|
                0 <= j < accounts.len() ==> !(same_ignoring_ascii_case(
                    (#[trigger] accounts[j]).username,
                    user,
                ) && occurs_in(accounts[j].host, server))
        }),
{
    law_no_token_without_settings(env.token, Ok(Seq::empty()));
    law_handle_names_user_and_host(user, server, seq!['@'] + user + seq!['@'] + server);
    law_handle_means_its_user(accounts, user, server, None);
}

/// A token file that cannot be used, or that is used without a host, ends the search with the
/// reason as soon as it is read.
pub proof fn law_bad_token_file_ends_the_search<E>(
    env: EnvironmentView,
    configured: Option<Seq<char>>,
    contents: Result<Seq<char>, Seq<char>>,
)
    requires
        token_file_of(env.token, env.token_file) is Some,
    ensures
        ({
            let first = first_step::<E>(env, configured);
            let second = next_step(first.0, ResponseView::<E>::Contents(contents));
            &&& first.1 == (ResolutionStepView::<E>::ReadFile {
                path: token_file_of(env.token, env.token_file)->0,
            })
            &&& env_token(env.token, env.token_file, contents) matches Err(e) ==> second == (
                ResolutionView::Nothing,
                ResolutionStepView::<E>::Fail(FailureView::Refused(e)),
            )
            &&& env_token(env.token, env.token_file, contents) is Ok && (env.host is None
                || env.host == Some(Seq::<char>::empty())) ==> second == (
                ResolutionView::Nothing,
                ResolutionStepView::<E>::Fail(
                    FailureView::Refused(
                        ErrorView::Config("NOTEBOT_TOKEN is set but NOTEBOT_HOST is missing"@),
                    ),
                ),
            )
        }),
{
}

/// A token that is set without a host is refused at once.
pub proof fn law_token_needs_a_host<E>(
    env: EnvironmentView,
    configured: Option<Seq<char>>,
    token: Seq<char>,
)
    requires
        env.token == Some(token),
        token.len() > 0,
        !is_white_space(token[0]),
        !is_white_space(token[token.len() - 1]),
        env.host is None || env.host == Some(Seq::<char>::empty()),
    ensures
        first_step::<E>(env, configured) == (
            ResolutionView::Nothing,
            ResolutionStepView::<E>::Fail(
                FailureView::Refused(
                    ErrorView::Config("NOTEBOT_TOKEN is set but NOTEBOT_HOST is missing"@),
                ),
            ),
        ),
{
    law_token_is_used_as_it_is_set(
        Seq::empty(),
        token,
        Seq::empty(),
        env.token_file,
        Ok(Seq::empty()),
    );
}

/// A failure of the server or of the store ends the search and is handed on as it is; after
/// the end nothing happens any more.
pub proof fn law_failures_are_handed_on<E>(
    state: ResolutionView,
    e: E,
    response: ResponseView<E>,
)
    ensures
        !(state is Nothing) ==> next_step(state, ResponseView::Failed(e)) == (
            ResolutionView::Nothing,
            ResolutionStepView::Fail(FailureView::Failed(e)),
        ),
        next_step(ResolutionView::Nothing, response) == (
            ResolutionView::Nothing,
            ResolutionStepView::<E>::Idle,
        ),
{
}

/// An answer to another question than the one that was asked changes nothing; the answer to
/// the one that was asked is never passed over.
pub proof fn law_only_the_answer_asked_for_counts<E>(
    state: ResolutionView,
    response: ResponseView<E>,
)
    requires
        !(response is Failed),
        !(state is Nothing),
    ensures
        ({
            let asked_for = match state {
                ResolutionView::TokenFile { .. } => response is Contents,
                ResolutionView::Identity { .. } => response is Data,
                ResolutionView::Accounts { .. } => response is Accounts,
                ResolutionView::AccountById { .. } => response is Account,
                ResolutionView::Secret { .. } => response is Secret,
                ResolutionView::Nothing => false,
            };
            &&& !asked_for ==> next_step(state, response) == (state, ResolutionStepView::<E>::Idle)
            &&& asked_for ==> !(next_step(state, response).1 is Idle)
        }),
{
}

/// Of the environment, everything is seen under its own name.
pub proof fn law_environment_is_seen_whole(env: Environment)
    ensures
        env.token matches Some(s) ==> env@.token == Some(s@),
        env.token is None ==> env@.token is None,
        env.token_file matches Some(s) ==> env@.token_file == Some(s@),
        env.token_file is None ==> env@.token_file is None,
        env.host matches Some(s) ==> env@.host == Some(s@),
        env.host is None ==> env@.host is None,
        env.account matches Some(s) ==> env@.account == Some(s@),
        env.account is None ==> env@.account is None,
{
}

/// Answers and steps are seen as what they are, with all that they hold.
pub proof fn law_answers_and_steps_are_seen_whole<E>(
    response: Response<E>,
    step: ResolutionStep<E>,
)
    ensures
        response matches Response::Contents(Ok(s)) ==> response@ == ResponseView::<E>::Contents(
            Ok(s@),
        ),
        response matches Response::Contents(Err(s)) ==> response@ == ResponseView::<E>::Contents(
            Err(s@),
        ),
        response matches Response::Data(v) ==> response@ == ResponseView::<E>::Data(json_view(v)),
        response matches Response::Accounts(a) ==> response@ == ResponseView::<E>::Accounts(
            accounts_view(a@),
        ),
        response matches Response::Account(Some(a)) ==> response@ == ResponseView::<E>::Account(
            Some(a@),
        ),
        response matches Response::Account(None) ==> response@ == ResponseView::<E>::Account(None),
        response matches Response::Secret { host, token } ==> response@ == (ResponseView::<
            E,
        >::Secret { host: host@, token: token@ }),
        response matches Response::Failed(e) ==> response@ == ResponseView::Failed(e),
        step matches ResolutionStep::ReadFile { path } ==> step@ == (ResolutionStepView::<
            E,
        >::ReadFile { path: path@ }),
        step matches ResolutionStep::Ask(request) ==> step@ == ResolutionStepView::<E>::Ask(
            request@,
        ),
        step is LoadAccounts <==> step@ is LoadAccounts,
        step matches ResolutionStep::QueryAccount { id } ==> step@ == (ResolutionStepView::<
            E,
        >::QueryAccount { id: id@ }),
        step matches ResolutionStep::LoadSecret { account_id } ==> step@ == (ResolutionStepView::<
            E,
        >::LoadSecret { account_id: account_id@ }),
        step matches ResolutionStep::Done(c) ==> step@ == ResolutionStepView::<E>::Done(c@),
        step matches ResolutionStep::Fail(Failure::Refused(e)) ==> step@ == ResolutionStepView::<
            E,
        >::Fail(FailureView::Refused(e@)),
        step matches ResolutionStep::Fail(Failure::Failed(e)) ==> step@ == ResolutionStepView::Fail(
            FailureView::Failed(e),
        ),
        step is Idle <==> step@ is Idle,
{
}


} // verus!
