//! The bot: how it is built, which events reach its handler, and its life from connection to
//! disconnection.

use std::sync::Arc;

use serde_json::Value;
use vstd::prelude::*;

use crate::context::{BotAccount, BotAccountView, Ctx, CtxView};
use crate::credentials::{token_credentials, Credentials, CredentialsView};
use crate::error::NotebotError;
use crate::event::{
    event_of, law_every_mention_is_an_event, parse_event, BotEvent, Decoded, DecodedView, EventView,
};
use crate::json::{json_view, Json};
use crate::models::{opt_text, texts, NormalizedNote, NoteView};
use crate::resolution::{first_step, Environment, Resolution, ResolutionStep};
use crate::text::same;

verus! {

// ---------------------------------------------------------------------------
// Building.

/// What a bot, or its builder, is set to.
pub struct BotView<H> {
    pub account_spec: Option<Seq<char>>,
    pub on_mention: Option<H>,
    pub ignore_bots: bool,
}

/// Builds a bot whose handlers are values of type `H`.
pub struct BotBuilder<H> {
    account_spec: Option<String>,
    on_mention: Option<H>,
    ignore_bots: bool,
}

impl<H> View for BotBuilder<H> {
    type V = BotView<H>;

    closed spec fn view(&self) -> BotView<H> {
        BotView {
            account_spec: opt_text(self.account_spec),
            on_mention: self.on_mention,
            ignore_bots: self.ignore_bots,
        }
    }
}

impl<H> BotBuilder<H> {
    /// The account to use: `@user@host`, an account id or a user name. Without it the first
    /// stored account is used. The environment variable `NOTEBOT_ACCOUNT` goes before it.
    pub fn account(self, spec: String) -> (r: Self)
        ensures
            r@ == (BotView { account_spec: Some(spec@), ..self@ }),
    {
        BotBuilder { account_spec: Some(spec), ..self }
    }

    /// The handler of mentions.
    pub fn on_mention(self, handler: H) -> (r: Self)
        ensures
            r@ == (BotView { on_mention: Some(handler), ..self@ }),
    {
        BotBuilder { on_mention: Some(handler), ..self }
    }

    /// Whether mentions by accounts that are marked as bots are ignored (they are by default),
    /// so that two bots do not answer each other for ever.
    pub fn ignore_bots(self, ignore: bool) -> (r: Self)
        ensures
            r@ == (BotView { ignore_bots: ignore, ..self@ }),
    {
        BotBuilder { ignore_bots: ignore, ..self }
    }

    /// The bot. Nothing that a builder can be set to is refused.
    pub fn build(self) -> (r: Result<Bot<H>, NotebotError>)
        ensures
            r matches Ok(bot) && bot@ == self@,
    {
        Ok(
            Bot {
                account_spec: self.account_spec,
                on_mention: self.on_mention,
                ignore_bots: self.ignore_bots,
            },
        )
    }
}

/// A bot whose handlers are values of type `H`.
pub struct Bot<H> {
    account_spec: Option<String>,
    on_mention: Option<H>,
    ignore_bots: bool,
}

impl<H> View for Bot<H> {
    type V = BotView<H>;

    closed spec fn view(&self) -> BotView<H> {
        BotView {
            account_spec: opt_text(self.account_spec),
            on_mention: self.on_mention,
            ignore_bots: self.ignore_bots,
        }
    }
}

// ---------------------------------------------------------------------------
// Dispatch.

/// Whether a mention reaches the handler: one's own notes never do, those of other bots only
/// where bots are not ignored.
pub open spec fn is_handled(note: NoteView, own_id: Seq<char>, ignore_bots: bool) -> bool {
    note.user.id != own_id && !(ignore_bots && note.user.is_bot)
}

/// Whether a mention reaches the handler. That one's own notes do not cannot be switched off.
pub fn should_handle(note: &NormalizedNote, self_user_id: &str, ignore_bots: bool) -> (r: bool)
    ensures
        r == is_handled(note@, self_user_id@, ignore_bots),
        r == (note.user.id@ != self_user_id@ && !(ignore_bots && note.user.is_bot)),
{
    if same(note.user.id.as_str(), self_user_id) {
        return false;
    }
    if ignore_bots && note.user.is_bot {
        return false;
    }
    true
}

/// What is to be done about a stream message.
pub enum Dispatch<'a, H, C> {
    Ignore,
    /// Ignore the mention by a bot, and report that.
    IgnoreBot { note_id: String },
    /// Report the state of the connection.
    Report { state: String },
    /// Call the handler.
    Call { handler: &'a H, ctx: Ctx<C> },
}

pub enum DispatchView<H, C> {
    Ignore,
    IgnoreBot { note_id: Seq<char> },
    Report { state: Seq<char> },
    Call { handler: H, ctx: CtxView<C> },
}

impl<'a, H, C> View for Dispatch<'a, H, C> {
    type V = DispatchView<H, C>;

    open spec fn view(&self) -> DispatchView<H, C> {
        match self {
            Dispatch::Ignore => DispatchView::Ignore,
            Dispatch::IgnoreBot { note_id } => DispatchView::IgnoreBot { note_id: note_id@ },
            Dispatch::Report { state } => DispatchView::Report { state: state@ },
            Dispatch::Call { handler, ctx } => DispatchView::Call { handler: **handler, ctx: ctx@ },
        }
    }
}

/// What a bot does about an event.
pub open spec fn dispatch_of<H, C>(
    bot: BotView<H>,
    event: Option<EventView>,
    client: C,
    account: BotAccountView,
) -> DispatchView<H, C> {
    match event {
        Some(EventView::Status { state }) => DispatchView::Report { state },
        Some(EventView::Mention(note)) => if note.user.id == account.user_id {
            DispatchView::Ignore
        } else if !is_handled(note, account.user_id, bot.ignore_bots) {
            DispatchView::IgnoreBot { note_id: note.id }
        } else {
            match bot.on_mention {
                Some(handler) => DispatchView::Call {
                    handler,
                    ctx: CtxView { client, account, note },
                },
                None => DispatchView::Ignore,
            }
        },
        _ => DispatchView::Ignore,
    }
}

impl<H> Bot<H> {
    /// A builder with nothing set, which ignores bots.
    pub fn builder() -> (r: BotBuilder<H>)
        ensures
            r@ == (BotView::<H> { account_spec: None, on_mention: None, ignore_bots: true }),
    {
        BotBuilder { account_spec: None, on_mention: None, ignore_bots: true }
    }

    /// Begins the search for the bot's credentials in the environment `env`.
    pub fn resolve_credentials<E>(&self, env: Environment) -> (r: (Resolution, ResolutionStep<E>))
        ensures
            (r.0@, r.1@) == first_step::<E>(env@, self@.account_spec),
    {
        let configured = match &self.account_spec {
            Some(spec) => Some(spec.clone()),
            None => None,
        };
        Resolution::start(env, configured)
    }

    /// What is to be done about the stream message `name` with `payload`, whose note or
    /// notification decodes to `decoded`.
    pub fn handle_event<C>(
        &self,
        name: &str,
        payload: &Value,
        decoded: Decoded,
        client: Arc<C>,
        account: Arc<BotAccount>,
    ) -> (r: Dispatch<'_, H, C>)
        ensures
            r@ == dispatch_of(
                self@,
                event_of(name@, json_view(*payload), decoded@),
                *client,
                account@,
            ),
            r matches Dispatch::Call { handler, ctx } ==> {
                &&& self@.on_mention == Some(*handler)
                &&& decoded matches Decoded::Note(note) && ctx@.note == note@
                &&& ctx@.account == account@
                &&& ctx@.client == *client
            },
    {
        match parse_event(name, payload, decoded) {
            Some(BotEvent::Status { state }) => Dispatch::Report { state },
            Some(BotEvent::Mention(note)) => {
                if !should_handle(&*note, account.user_id.as_str(), self.ignore_bots) {
                    return if same(note.user.id.as_str(), account.user_id.as_str()) {
                        Dispatch::Ignore
                    } else {
                        Dispatch::IgnoreBot { note_id: note.id.clone() }
                    };
                }
                match &self.on_mention {
                    Some(handler) => Dispatch::Call {
                        handler,
                        ctx: Ctx::new(client, account, *note),
                    },
                    None => Dispatch::Ignore,
                }
            },
            _ => Dispatch::Ignore,
        }
    }
}

// ---------------------------------------------------------------------------
// The life of a running bot.

/// How far a running bot has come.
#[derive(Debug, PartialEq, Eq, Structural, Clone, Copy)]
pub enum Phase {
    Connecting,
    Subscribing,
    Listening,
    Disconnecting,
    Stopped,
}

/// What happens to a running bot.
#[derive(Debug)]
pub enum Occurrence<E> {
    /// What was asked for last is done.
    Done,
    /// What was asked for last failed.
    Failed(E),
    /// The process is told to end.
    Shutdown,
    /// The stream of messages is closed.
    Closed,
    /// A stream message arrived.
    Message,
}

/// What a running bot does next.
#[derive(Debug)]
pub enum Step<E> {
    /// Connect to the stream.
    Connect { account_id: String, host: String, token: String },
    /// Subscribe to the account's own channel.
    Subscribe { account_id: String },
    /// Wait for messages and for the end of the process.
    Listen,
    /// See what is to be done about the message that arrived, then wait on.
    Dispatch,
    /// Disconnect from the stream.
    Disconnect { account_id: String },
    /// End well.
    Finish,
    /// End with that error.
    Fail(E),
    /// Nothing.
    Idle,
}

pub enum StepView<E> {
    Connect { account_id: Seq<char>, host: Seq<char>, token: Seq<char> },
    Subscribe { account_id: Seq<char> },
    Listen,
    Dispatch,
    Disconnect { account_id: Seq<char> },
    Finish,
    Fail(E),
    Idle,
}

impl<E> View for Step<E> {
    type V = StepView<E>;

    open spec fn view(&self) -> StepView<E> {
        match self {
            Step::Connect { account_id, host, token } => StepView::Connect {
                account_id: account_id@,
                host: host@,
                token: token@,
            },
            Step::Subscribe { account_id } => StepView::Subscribe { account_id: account_id@ },
            Step::Listen => StepView::Listen,
            Step::Dispatch => StepView::Dispatch,
            Step::Disconnect { account_id } => StepView::Disconnect { account_id: account_id@ },
            Step::Finish => StepView::Finish,
            Step::Fail(e) => StepView::Fail(*e),
            Step::Idle => StepView::Idle,
        }
    }
}

/// The account that a bot with these credentials runs as.
pub open spec fn account_of(credentials: CredentialsView) -> BotAccountView {
    BotAccountView {
        id: credentials.account_id,
        host: credentials.host,
        token: credentials.token,
        user_id: credentials.user_id,
    }
}

/// The phase after `occurrence`, and what is done about it. An error while connecting or
/// subscribing ends the bot; once it listens, only the end of the process or of the stream
/// does, and it disconnects first.
pub open spec fn step_of<E>(
    account: BotAccountView,
    phase: Phase,
    occurrence: Occurrence<E>,
) -> (Phase, StepView<E>) {
    match (phase, occurrence) {
        (Phase::Connecting, Occurrence::Done) => (
            Phase::Subscribing,
            StepView::Subscribe { account_id: account.id },
        ),
        (Phase::Connecting, Occurrence::Failed(e)) => (Phase::Stopped, StepView::Fail(e)),
        (Phase::Subscribing, Occurrence::Done) => (Phase::Listening, StepView::Listen),
        (Phase::Subscribing, Occurrence::Failed(e)) => (Phase::Stopped, StepView::Fail(e)),
        (Phase::Listening, Occurrence::Message) => (Phase::Listening, StepView::Dispatch),
        (Phase::Listening, Occurrence::Shutdown) => (
            Phase::Disconnecting,
            StepView::Disconnect { account_id: account.id },
        ),
        (Phase::Listening, Occurrence::Closed) => (
            Phase::Disconnecting,
            StepView::Disconnect { account_id: account.id },
        ),
        (Phase::Disconnecting, Occurrence::Done) => (Phase::Stopped, StepView::Finish),
        _ => (phase, StepView::Idle),
    }
}

/// A running bot.
pub struct Session {
    account: Arc<BotAccount>,
    phase: Phase,
}

impl Session {
    /// The account that the bot runs as.
    pub closed spec fn account_spec(&self) -> BotAccountView {
        self.account@
    }

    /// How far the bot has come.
    pub closed spec fn phase_spec(&self) -> Phase {
        self.phase
    }

    /// A bot that is about to connect with these credentials, and the step that does so.
    pub fn start<E>(credentials: Credentials) -> (r: (Session, Step<E>))
        ensures
            r.0.account_spec() == account_of(credentials@),
            r.0.phase_spec() == Phase::Connecting,
            r.1@ == (StepView::<E>::Connect {
                account_id: credentials@.account_id,
                host: credentials@.host,
                token: credentials@.token,
            }),
    {
        let step = Step::Connect {
            account_id: credentials.account_id.clone(),
            host: credentials.host.clone(),
            token: credentials.token.clone(),
        };
        let account = BotAccount {
            id: credentials.account_id,
            host: credentials.host,
            token: credentials.token,
            user_id: credentials.user_id,
        };
        (Session { account: Arc::new(account), phase: Phase::Connecting }, step)
    }

    /// The account that the bot runs as.
    pub fn account(&self) -> (r: &Arc<BotAccount>)
        ensures
            r@ == self.account_spec(),
    {
        &self.account
    }

    /// How far the bot has come.
    pub fn phase(&self) -> (r: Phase)
        ensures
            r == self.phase_spec(),
    {
        self.phase
    }

    /// What the bot does about `occurrence`.
    pub fn advance<E>(&mut self, occurrence: Occurrence<E>) -> (r: Step<E>)
        ensures
            final(self).account_spec() == old(self).account_spec(),
            (final(self).phase_spec(), r@) == step_of(
                old(self).account_spec(),
                old(self).phase_spec(),
                occurrence,
            ),
    {
        match (self.phase, occurrence) {
            (Phase::Connecting, Occurrence::Done) => {
                self.phase = Phase::Subscribing;
                Step::Subscribe { account_id: self.account.id.clone() }
            },
            (Phase::Subscribing, Occurrence::Done) => {
                self.phase = Phase::Listening;
                Step::Listen
            },
            (Phase::Connecting, Occurrence::Failed(e)) => {
                self.phase = Phase::Stopped;
                Step::Fail(e)
            },
            (Phase::Subscribing, Occurrence::Failed(e)) => {
                self.phase = Phase::Stopped;
                Step::Fail(e)
            },
            (Phase::Listening, Occurrence::Message) => Step::Dispatch,
            (Phase::Listening, Occurrence::Shutdown) => {
                self.phase = Phase::Disconnecting;
                Step::Disconnect { account_id: self.account.id.clone() }
            },
            (Phase::Listening, Occurrence::Closed) => {
                self.phase = Phase::Disconnecting;
                Step::Disconnect { account_id: self.account.id.clone() }
            },
            (Phase::Disconnecting, Occurrence::Done) => {
                self.phase = Phase::Stopped;
                Step::Finish
            },
            _ => Step::Idle,
        }
    }
}

// ---------------------------------------------------------------------------
// Where the accounts are stored.

/// The directory that user data lie in.
#[derive(Debug)]
pub enum DataDir<P> {
    /// The one that the platform names.
    Platform(P),
    /// The usual one below this home directory.
    Home(String),
}

/// The path of the account store: a directory, and the names below it in order.
#[derive(Debug)]
pub struct DbPath<P> {
    pub base: DataDir<P>,
    pub segments: Vec<String>,
}

/// The path of the account store. `data_dir` is the user data directory that the platform
/// names, if any; `home` is the value of `HOME`. Without both, the current directory takes the
/// place of the home directory.
pub fn notecli_db_path<P>(data_dir: Option<P>, home: Option<String>) -> (r: DbPath<P>)
    ensures
        match (data_dir, home) {
            (Some(dir), _) => r.base == DataDir::Platform(dir),
            (None, Some(h)) => r.base matches DataDir::Home(d) && d@ == h@,
            (None, None) => r.base matches DataDir::Home(d) && d@ == "."@,
        },
        texts(r.segments@) == (if data_dir is Some {
            seq!["notecli"@, "notecli.db"@]
        } else {
            seq![".local/share"@, "notecli"@, "notecli.db"@]
        }),
{
    let mut segments: Vec<String> = Vec::new();
    let base = match data_dir {
        Some(dir) => DataDir::Platform(dir),
        None => {
            segments.push(".local/share".to_string());
            match home {
                Some(h) => DataDir::Home(h),
                None => DataDir::Home(".".to_string()),
            }
        },
    };
    segments.push("notecli".to_string());
    segments.push("notecli.db".to_string());
    assert(data_dir is Some ==> texts(segments@) =~= seq!["notecli"@, "notecli.db"@]);
    assert(data_dir is None ==> texts(segments@) =~= seq![
        ".local/share"@,
        "notecli"@,
        "notecli.db"@,
    ]);
    DbPath { base, segments }
}

// ---------------------------------------------------------------------------
// Laws.

/// The bot never answers itself: whatever it is set to, no note of its own account reaches the
/// handler.
pub proof fn law_own_notes_never_reach_the_handler<H, C>(
    bot: BotView<H>,
    name: Seq<char>,
    payload: Json,
    decoded: DecodedView,
    client: C,
    account: BotAccountView,
)
    ensures
        dispatch_of(bot, event_of(name, payload, decoded), client, account) matches
            DispatchView::Call { ctx, .. } ==> ctx.note.user.id != account.user_id,
        decoded matches DecodedView::Note(note) ==> note.user.id == account.user_id ==> !(
        dispatch_of(bot, event_of(name, payload, decoded), client, account) is Call),
{
}

/// The id by which a bot that runs on a token knows its own notes is the one that the server
/// says the token belongs to.
pub proof fn law_own_id_comes_from_the_server(host: Seq<char>, token: Seq<char>, me: Json)
    ensures
        token_credentials(host, token, me) matches Ok(c) ==> {
            &&& me.text_member("id"@) == Some(account_of(c).user_id)
            &&& account_of(c).host == host
            &&& account_of(c).token == token
        },
        token_credentials(host, token, me) is Ok <==> me.text_member("id"@) is Some,
{
}

/// A bot that ignores bots never answers one.
pub proof fn law_bots_are_ignored<H, C>(
    bot: BotView<H>,
    event: Option<EventView>,
    client: C,
    account: BotAccountView,
)
    requires
        bot.ignore_bots,
    ensures
        dispatch_of(bot, event, client, account) matches DispatchView::Call { ctx, .. }
            ==> !ctx.note.user.is_bot,
{
}

/// Only a mention reaches the handler, and the handler gets the note of that mention and the
/// account of the bot.
pub proof fn law_only_mentions_reach_the_handler<H, C>(
    bot: BotView<H>,
    event: Option<EventView>,
    client: C,
    account: BotAccountView,
)
    ensures
        dispatch_of(bot, event, client, account) matches DispatchView::Call { handler, ctx } ==> {
            &&& bot.on_mention == Some(handler)
            &&& event == Some(EventView::Mention(ctx.note))
            &&& ctx.account == account
            &&& ctx.client == client
        },
{
}

/// A mention by another account reaches the handler where there is one, unless the account is
/// a bot and bots are ignored.
pub proof fn law_mentions_reach_the_handler<H, C>(
    bot: BotView<H>,
    note: NoteView,
    client: C,
    account: BotAccountView,
)
    requires
        bot.on_mention is Some,
        note.user.id != account.user_id,
        !note.user.is_bot || !bot.ignore_bots,
    ensures
        dispatch_of(bot, Some(EventView::Mention(note)), client, account) == (DispatchView::Call {
            handler: bot.on_mention->0,
            ctx: CtxView { client, account, note },
        }),
{
}

/// The phase of a bot to which all of `occurrences` have happened, in order.
pub open spec fn phase_after<E>(
    account: BotAccountView,
    occurrences: Seq<Occurrence<E>>,
) -> Phase
    decreases occurrences.len(),
{
    if occurrences.len() == 0 {
        Phase::Connecting
    } else {
        step_of(
            account,
            phase_after(account, occurrences.drop_last()),
            occurrences.last(),
        ).0
    }
}

/// What a bot to which all of `occurrences` happen does about each of them.
pub open spec fn steps_after<E>(
    account: BotAccountView,
    occurrences: Seq<Occurrence<E>>,
) -> Seq<StepView<E>>
    decreases occurrences.len(),
{
    if occurrences.len() == 0 {
        Seq::empty()
    } else {
        steps_after(account, occurrences.drop_last()).push(
            step_of(
                account,
                phase_after(account, occurrences.drop_last()),
                occurrences.last(),
            ).1,
        )
    }
}

/// What has been done by the time a phase is reached.
spec fn history<E>(account: BotAccountView, phase: Phase, steps: Seq<StepView<E>>) -> bool {
    &&& phase == Phase::Subscribing ==> exists|i: int|
        0 <= i < steps.len() && #[trigger] steps[i] == (StepView::<E>::Subscribe {
            account_id: account.id,
        })
    &&& phase == Phase::Listening ==> exists|i: int|
        0 <= i < steps.len() && #[trigger] steps[i] is Listen
    &&& phase == Phase::Disconnecting ==> exists|i: int|
        0 <= i < steps.len() && #[trigger] steps[i] == (StepView::<E>::Disconnect {
            account_id: account.id,
        })
    &&& phase == Phase::Connecting || phase == Phase::Subscribing || phase == Phase::Listening
        ==> forall|i: int| 0 <= i < steps.len() ==> !(#[trigger] steps[i] is Disconnect)
    &&& phase != Phase::Stopped ==> forall|i: int|
        0 <= i < steps.len() ==> !(#[trigger] steps[i] is Finish) && !(steps[i] is Fail)
}

proof fn lemma_history<E>(account: BotAccountView, occurrences: Seq<Occurrence<E>>)
    ensures
        history(account, phase_after(account, occurrences), steps_after(account, occurrences)),
        steps_after(account, occurrences).len() == occurrences.len(),
    decreases occurrences.len(),
{
    if occurrences.len() > 0 {
        let before = occurrences.drop_last();
        lemma_history(account, before);
        let old_steps = steps_after(account, before);
        let steps = steps_after(account, occurrences);
        assert(steps.last() == steps[steps.len() - 1]);
        lemma_done_steps_stay(old_steps, steps.last());
    }
}

/// What has been done stays done.
proof fn lemma_done_steps_stay<E>(steps: Seq<StepView<E>>, next: StepView<E>)
    ensures
        forall|i: int|
            #![trigger steps[i]]
            #![trigger steps.push(next)[i]]
            0 <= i < steps.len() ==> steps[i] == steps.push(next)[i],
{
}

/// Up to the last occurrence, a bot does what it would do without it; and what the last one
/// meets is what has been done by then.
proof fn lemma_last_occurrence<E>(account: BotAccountView, occurrences: Seq<Occurrence<E>>)
    requires
        occurrences.len() > 0,
    ensures
        ({
            let before = occurrences.drop_last();
            let old_steps = steps_after(account, before);
            let steps = steps_after(account, occurrences);
            &&& history(account, phase_after(account, before), old_steps)
            &&& old_steps.len() == before.len()
            &&& steps.len() == occurrences.len()
            &&& forall|i: int|
                #![trigger old_steps[i]]
                #![trigger steps[i]]
                0 <= i < old_steps.len() ==> old_steps[i] == steps[i]
        }),
{
    let before = occurrences.drop_last();
    lemma_history(account, before);
    lemma_history(account, occurrences);
}

/// A bot that ends well has disconnected its own account before.
pub proof fn law_bot_disconnects_before_it_ends<E>(
    account: BotAccountView,
    occurrences: Seq<Occurrence<E>>,
    end: int,
)
    requires
        0 <= end < occurrences.len(),
        steps_after(account, occurrences)[end] is Finish,
    ensures
        exists|i: int|
            0 <= i < end && #[trigger] steps_after(account, occurrences)[i] == (StepView::<
                E,
            >::Disconnect { account_id: account.id }),
    decreases occurrences.len(),
{
    lemma_last_occurrence(account, occurrences);
    if end < occurrences.len() - 1 {
        law_bot_disconnects_before_it_ends(account, occurrences.drop_last(), end);
    }
}

/// A bot listens only once it has subscribed to the channel of its own account.
pub proof fn law_bot_listens_only_once_subscribed<E>(
    account: BotAccountView,
    occurrences: Seq<Occurrence<E>>,
    at: int,
)
    requires
        0 <= at < occurrences.len(),
        steps_after(account, occurrences)[at] is Listen,
    ensures
        exists|i: int|
            0 <= i < at && #[trigger] steps_after(account, occurrences)[i] == (StepView::<
                E,
            >::Subscribe { account_id: account.id }),
    decreases occurrences.len(),
{
    lemma_last_occurrence(account, occurrences);
    if at < occurrences.len() - 1 {
        law_bot_listens_only_once_subscribed(account, occurrences.drop_last(), at);
    }
}

/// A bot dispatches messages only once it listens.
pub proof fn law_bot_dispatches_only_what_it_listens_to<E>(
    account: BotAccountView,
    occurrences: Seq<Occurrence<E>>,
    at: int,
)
    requires
        0 <= at < occurrences.len(),
        steps_after(account, occurrences)[at] is Dispatch,
    ensures
        exists|i: int| 0 <= i < at && #[trigger] steps_after(account, occurrences)[i] is Listen,
    decreases occurrences.len(),
{
    lemma_last_occurrence(account, occurrences);
    if at < occurrences.len() - 1 {
        law_bot_dispatches_only_what_it_listens_to(account, occurrences.drop_last(), at);
    }
}

/// Once a bot disconnects, or has ended, it neither dispatches messages nor connects,
/// subscribes or disconnects again.
pub proof fn law_disconnected_bot_only_ends<E>(
    account: BotAccountView,
    occurrences: Seq<Occurrence<E>>,
    at: int,
    later: int,
)
    requires
        0 <= at < later < occurrences.len(),
        ({
            let step = steps_after(account, occurrences)[at];
            step is Disconnect || step is Finish || step is Fail
        }),
    ensures
        steps_after(account, occurrences)[later] is Idle || steps_after(
            account,
            occurrences,
        )[later] is Finish,
    decreases occurrences.len(),
{
    lemma_last_occurrence(account, occurrences);
    if later < occurrences.len() - 1 {
        law_disconnected_bot_only_ends(account, occurrences.drop_last(), at, later);
    }
}

/// While a bot listens, no failure ends it: only the end of the process or of the stream does.
pub proof fn law_listening_bot_survives_failures<E>(account: BotAccountView, e: E)
    ensures
        step_of(account, Phase::Listening, Occurrence::Failed(e)) == (
            Phase::Listening,
            StepView::<E>::Idle,
        ),
{
}

/// A mention is handled exactly where another account wrote it, and that is no bot or bots are
/// not ignored; what the note says, or who can read it, makes no difference.
pub proof fn law_handled_are_all_but_own_and_bots(
    note: NoteView,
    own_id: Seq<char>,
    ignore_bots: bool,
)
    ensures
        note.user.id == own_id ==> !is_handled(note, own_id, ignore_bots),
        note.user.id != own_id && !note.user.is_bot ==> is_handled(note, own_id, ignore_bots),
        note.user.id != own_id && note.user.is_bot ==> is_handled(note, own_id, ignore_bots)
            == !ignore_bots,
{
}

/// A mention message by another account, with a note that decodes, calls the handler with that
/// note, the account of the bot and the client, whatever the note says. A bot is ignored where
/// bots are, and that is reported with the id of its note.
pub proof fn law_mention_messages_reach_the_handler<H, C>(
    bot: BotView<H>,
    payload: Json,
    note: NoteView,
    client: C,
    account: BotAccountView,
)
    requires
        payload.member("note"@) is Some,
        note.user.id != account.user_id,
    ensures
        ({
            let event = event_of("stream-mention"@, payload, DecodedView::Note(note));
            let done = dispatch_of(bot, event, client, account);
            &&& !(note.user.is_bot && bot.ignore_bots) ==> (bot.on_mention matches Some(h)
                ==> done == (DispatchView::Call {
                handler: h,
                ctx: CtxView { client, account, note },
            }))
            &&& !(note.user.is_bot && bot.ignore_bots) && bot.on_mention is None ==> done is Ignore
            &&& note.user.is_bot && bot.ignore_bots ==> done == (DispatchView::<H, C>::IgnoreBot {
                note_id: note.id,
            })
        }),
{
    law_every_mention_is_an_event(payload, note, DecodedView::Note(note));
}

/// A state of the connection is reported as it stands; what is neither a mention nor such a
/// state is ignored, and so are one's own notes.
pub proof fn law_other_events_are_reported_or_ignored<H, C>(
    bot: BotView<H>,
    event: Option<EventView>,
    client: C,
    account: BotAccountView,
)
    ensures
        event matches Some(EventView::Status { state: s }) ==> dispatch_of(
            bot,
            event,
            client,
            account,
        ) == (DispatchView::<H, C>::Report { state: s }),
        event is None ==> dispatch_of(bot, event, client, account) is Ignore,
        event matches Some(EventView::Note { .. }) ==> dispatch_of(bot, event, client, account)
            is Ignore,
        event matches Some(EventView::Notification(_)) ==> dispatch_of(
            bot,
            event,
            client,
            account,
        ) is Ignore,
        event matches Some(EventView::Mention(note)) ==> note.user.id == account.user_id
            ==> dispatch_of(bot, event, client, account) is Ignore,
{
}

/// A bot runs as the account of its credentials, each part of it as it stands there.
pub proof fn law_bot_runs_as_its_credentials_say(credentials: CredentialsView)
    ensures
        account_of(credentials).id == credentials.account_id,
        account_of(credentials).host == credentials.host,
        account_of(credentials).token == credentials.token,
        account_of(credentials).user_id == credentials.user_id,
{
}

/// Once connected, a bot subscribes to the channel of its own account; once subscribed, it
/// listens. An error on the way ends it with that error.
pub proof fn law_bot_subscribes_then_listens<E>(account: BotAccountView, e: E)
    ensures
        step_of(account, Phase::Connecting, Occurrence::<E>::Done) == (
            Phase::Subscribing,
            StepView::<E>::Subscribe { account_id: account.id },
        ),
        step_of(account, Phase::Subscribing, Occurrence::<E>::Done) == (
            Phase::Listening,
            StepView::<E>::Listen,
        ),
        step_of(account, Phase::Connecting, Occurrence::Failed(e)) == (
            Phase::Stopped,
            StepView::Fail(e),
        ),
        step_of(account, Phase::Subscribing, Occurrence::Failed(e)) == (
            Phase::Stopped,
            StepView::Fail(e),
        ),
{
}

/// A listening bot dispatches every message and listens on. Told to end, or without its
/// stream, it disconnects its own account, and ends well once that is done.
pub proof fn law_listening_bot_dispatches_until_the_end<E>(account: BotAccountView)
    ensures
        step_of(account, Phase::Listening, Occurrence::<E>::Message) == (
            Phase::Listening,
            StepView::<E>::Dispatch,
        ),
        step_of(account, Phase::Listening, Occurrence::<E>::Shutdown) == (
            Phase::Disconnecting,
            StepView::<E>::Disconnect { account_id: account.id },
        ),
        step_of(account, Phase::Listening, Occurrence::<E>::Closed) == (
            Phase::Disconnecting,
            StepView::<E>::Disconnect { account_id: account.id },
        ),
        step_of(account, Phase::Disconnecting, Occurrence::<E>::Done) == (
            Phase::Stopped,
            StepView::<E>::Finish,
        ),
{
}

/// Whatever else happens to a bot changes nothing.
pub proof fn law_nothing_else_moves_a_bot<E>(
    account: BotAccountView,
    phase: Phase,
    occurrence: Occurrence<E>,
)
    requires
        match phase {
            Phase::Connecting => !(occurrence is Done || occurrence is Failed),
            Phase::Subscribing => !(occurrence is Done || occurrence is Failed),
            Phase::Listening => occurrence is Done || occurrence is Failed,
            Phase::Disconnecting => !(occurrence is Done),
            Phase::Stopped => true,
        },
    ensures
        step_of(account, phase, occurrence) == (phase, StepView::<E>::Idle),
{
}

/// However many messages arrive, a listening bot dispatches each of them and still listens.
pub proof fn law_every_message_is_dispatched<E>(
    account: BotAccountView,
    before: Seq<Occurrence<E>>,
    messages: Seq<Occurrence<E>>,
)
    requires
        phase_after(account, before) == Phase::Listening,
        forall|i: int| 0 <= i < messages.len() ==> #[trigger] messages[i] is Message,
    ensures
        phase_after(account, before + messages) == Phase::Listening,
        steps_after(account, before + messages).len() == before.len() + messages.len(),
        forall|i: int|
            before.len() <= i < before.len() + messages.len() ==> #[trigger] steps_after(
                account,
                before + messages,
            )[i] is Dispatch,
    decreases messages.len(),
{
    lemma_history(account, before + messages);
    if messages.len() == 0 {
        assert(before + messages =~= before);
    } else {
        let all = before + messages;
        assert(all.drop_last() =~= before + messages.drop_last());
        assert(all.last() == messages[messages.len() - 1]);
        assert forall|i: int| 0 <= i < messages.drop_last().len() implies
            #[trigger] messages.drop_last()[i] is Message by {
            assert(messages[i] is Message);
        }
        law_every_message_is_dispatched(account, before, messages.drop_last());
        lemma_done_steps_stay(
            steps_after(account, all.drop_last()),
            steps_after(account, all).last(),
        );
    }
}

/// What is done about a message, and the steps of a bot, are seen as what they are.
pub proof fn law_dispatch_and_steps_are_seen_whole<H, C, E>(
    dispatch: Dispatch<'_, H, C>,
    step: Step<E>,
)
    ensures
        dispatch is Ignore <==> dispatch@ is Ignore,
        dispatch matches Dispatch::IgnoreBot { note_id } ==> dispatch@ == (DispatchView::<
            H,
            C,
        >::IgnoreBot { note_id: note_id@ }),
        dispatch matches Dispatch::Report { state } ==> dispatch@ == (DispatchView::<H, C>::Report {
            state: state@,
        }),
        dispatch matches Dispatch::Call { handler, ctx } ==> dispatch@ == (DispatchView::Call {
            handler: *handler,
            ctx: ctx@,
        }),
        step matches Step::Connect { account_id, host, token } ==> step@ == (StepView::<
            E,
        >::Connect { account_id: account_id@, host: host@, token: token@ }),
        step matches Step::Subscribe { account_id } ==> step@ == (StepView::<E>::Subscribe {
            account_id: account_id@,
        }),
        step is Listen <==> step@ is Listen,
        step is Dispatch <==> step@ is Dispatch,
        step matches Step::Disconnect { account_id } ==> step@ == (StepView::<E>::Disconnect {
            account_id: account_id@,
        }),
        step is Finish <==> step@ is Finish,
        step matches Step::Fail(e) ==> step@ == StepView::Fail(e),
        step is Idle <==> step@ is Idle,
{
}


} // verus!
