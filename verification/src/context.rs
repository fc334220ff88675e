//! What a handler gets: the note that it was called for, and the requests by which it answers.
//! The Misskey client keeps no state, so the context brings the host and the token along.

use std::sync::Arc;

use serde_json::Value;
use vstd::prelude::*;

use crate::error::{ErrorView, NotebotError};
use crate::json::{
    boolean, distinct_keys, fields_view, get, json_view, object, object_of, string, strings, Json,
};
use crate::models::{opt_text, texts, ApiRequest, ApiRequestView, NormalizedNote, NoteView};
use crate::text::same;

verus! {

// ---------------------------------------------------------------------------
// Data.

/// The account that the bot runs as.
#[derive(Debug)]
pub struct BotAccount {
    pub id: String,
    pub host: String,
    pub token: String,
    pub user_id: String,
}

pub struct BotAccountView {
    pub id: Seq<char>,
    pub host: Seq<char>,
    pub token: Seq<char>,
    pub user_id: Seq<char>,
}

impl View for BotAccount {
    type V = BotAccountView;

    open spec fn view(&self) -> BotAccountView {
        BotAccountView {
            id: self.id@,
            host: self.host@,
            token: self.token@,
            user_id: self.user_id@,
        }
    }
}

/// A note to be created: the parameters that a bot sets. All others stay unset.
#[derive(Debug)]
pub struct CreateNoteParams {
    pub text: Option<String>,
    pub visibility: Option<String>,
    pub local_only: Option<bool>,
    pub reply_id: Option<String>,
}

pub struct CreateNoteParamsView {
    pub text: Option<Seq<char>>,
    pub visibility: Option<Seq<char>>,
    pub local_only: Option<bool>,
    pub reply_id: Option<Seq<char>>,
}

impl View for CreateNoteParams {
    type V = CreateNoteParamsView;

    open spec fn view(&self) -> CreateNoteParamsView {
        CreateNoteParamsView {
            text: opt_text(self.text),
            visibility: opt_text(self.visibility),
            local_only: self.local_only,
            reply_id: opt_text(self.reply_id),
        }
    }
}

/// A call that creates a note.
#[derive(Debug)]
pub struct CreateNote {
    pub host: String,
    pub token: String,
    pub account_id: String,
    pub params: CreateNoteParams,
}

pub struct CreateNoteView {
    pub host: Seq<char>,
    pub token: Seq<char>,
    pub account_id: Seq<char>,
    pub params: CreateNoteParamsView,
}

impl View for CreateNote {
    type V = CreateNoteView;

    open spec fn view(&self) -> CreateNoteView {
        CreateNoteView {
            host: self.host@,
            token: self.token@,
            account_id: self.account_id@,
            params: self.params@,
        }
    }
}

/// A call that puts a reaction on a note.
#[derive(Debug)]
pub struct CreateReaction {
    pub host: String,
    pub token: String,
    pub note_id: String,
    pub reaction: String,
}

pub struct CreateReactionView {
    pub host: Seq<char>,
    pub token: Seq<char>,
    pub note_id: Seq<char>,
    pub reaction: Seq<char>,
}

impl View for CreateReaction {
    type V = CreateReactionView;

    open spec fn view(&self) -> CreateReactionView {
        CreateReactionView {
            host: self.host@,
            token: self.token@,
            note_id: self.note_id@,
            reaction: self.reaction@,
        }
    }
}

/// The call that sends a reply.
#[derive(Debug)]
pub enum Reply {
    CreateNote(CreateNote),
    /// A direct message goes by a call of its own, which names who can read it.
    Direct(ApiRequest),
}

pub enum ReplyView {
    CreateNote(CreateNoteView),
    Direct(ApiRequestView),
}

impl View for Reply {
    type V = ReplyView;

    open spec fn view(&self) -> ReplyView {
        match self {
            Reply::CreateNote(call) => ReplyView::CreateNote(call@),
            Reply::Direct(request) => ReplyView::Direct(request@),
        }
    }
}

// ---------------------------------------------------------------------------
// Replies.

/// The visibility of a reply: that of the note, but `home` for a `public` one.
pub open spec fn visibility_of_reply(original: Seq<char>) -> Seq<char> {
    if original == "public"@ {
        "home"@
    } else {
        original
    }
}

/// The visibility of a reply to a note with visibility `original`. It is inherited, but
/// `public` becomes `home`: replies of a bot do not fill the public timeline.
pub fn reply_visibility<'a>(original: &'a str) -> (r: &'a str)
    ensures
        r@ == visibility_of_reply(original@),
        original@ == "public"@ ==> r@ == "home"@,
        original@ != "public"@ ==> r@ == original@,
{
    if same(original, "public") {
        "home"
    } else {
        original
    }
}

/// All ids but `own_id`.
pub open spec fn other_than(own_id: Seq<char>) -> spec_fn(Seq<char>) -> bool {
    |id: Seq<char>| id != own_id
}

/// Who reads a reply to a direct message: those who could read the note, then its author;
/// never the bot itself.
pub open spec fn recipients(note: NoteView, own_id: Seq<char>) -> Seq<Seq<char>> {
    let others = note.visible_user_ids.filter(other_than(own_id));
    if note.user.id != own_id && !others.contains(note.user.id) {
        others.push(note.user.id)
    } else {
        others
    }
}

/// The members of the request body of a reply to a direct message. A reply that stays on its
/// server says so; any other says nothing about it.
pub open spec fn direct_reply_members(
    text: Seq<char>,
    note_id: Seq<char>,
    readers: Seq<Seq<char>>,
    local_only: bool,
) -> Map<Seq<char>, Json> {
    let members = Map::empty().insert("text"@, Json::Text(text)).insert(
        "replyId"@,
        Json::Text(note_id),
    ).insert("visibility"@, Json::Text("specified"@)).insert(
        "visibleUserIds"@,
        Json::Array(readers.map_values(|id: Seq<char>| Json::Text(id))),
    );
    if local_only {
        members.insert("localOnly"@, Json::Bool(true))
    } else {
        members
    }
}

/// The request body of a reply to a direct message.
pub open spec fn direct_reply_body(
    text: Seq<char>,
    note_id: Seq<char>,
    readers: Seq<Seq<char>>,
    local_only: bool,
) -> Json {
    Json::Object(direct_reply_members(text, note_id, readers, local_only))
}

/// The call that answers the direct message `note` with `text`.
pub open spec fn direct_reply_of(
    account: BotAccountView,
    note: NoteView,
    text: Seq<char>,
) -> ApiRequestView {
    ApiRequestView {
        host: account.host,
        token: account.token,
        endpoint: "notes/create"@,
        body: direct_reply_body(
            text,
            note.id,
            recipients(note, account.user_id),
            note.local_only,
        ),
    }
}

/// The call that answers `note` with `text`.
pub open spec fn reply_of(account: BotAccountView, note: NoteView, text: Seq<char>) -> ReplyView {
    if visibility_of_reply(note.visibility) == "specified"@ {
        ReplyView::Direct(direct_reply_of(account, note, text))
    } else {
        ReplyView::CreateNote(
            CreateNoteView {
                host: account.host,
                token: account.token,
                account_id: account.id,
                params: CreateNoteParamsView {
                    text: Some(text),
                    visibility: Some(visibility_of_reply(note.visibility)),
                    local_only: if note.local_only {
                        Some(true)
                    } else {
                        None
                    },
                    reply_id: Some(note.id),
                },
            },
        )
    }
}

/// The call that posts `text` as a note of its own.
pub open spec fn post_of(account: BotAccountView, text: Seq<char>) -> CreateNoteView {
    CreateNoteView {
        host: account.host,
        token: account.token,
        account_id: account.id,
        params: CreateNoteParamsView {
            text: Some(text),
            visibility: None,
            local_only: None,
            reply_id: None,
        },
    }
}

/// The call that puts `reaction` on `note`.
pub open spec fn reaction_of(
    account: BotAccountView,
    note: NoteView,
    reaction: Seq<char>,
) -> CreateReactionView {
    CreateReactionView {
        host: account.host,
        token: account.token,
        note_id: note.id,
        reaction,
    }
}

/// The note that the server says it created, still to be decoded; `data` is the answer to the
/// call of a direct reply.
pub fn created_note<'a>(data: &'a Value) -> (r: Result<&'a Value, NotebotError>)
    ensures
        match r {
            Ok(note) => json_view(*data).member("createdNote"@) == Some(json_view(*note)),
            Err(e) => json_view(*data).member("createdNote"@) is None && e@
                == ErrorView::UnexpectedResponse("notes/create: no createdNote"@),
        },
{
    match get(data, "createdNote") {
        Some(note) => Ok(note),
        None => Err(
            NotebotError::UnexpectedResponse("notes/create: no createdNote".to_string()),
        ),
    }
}

/// Whether `ids` holds `id`.
fn holds(ids: &Vec<String>, id: &String) -> (r: bool)
    ensures
        r == texts(ids@).contains(id@),
{
    for i in 0..ids.len()
        invariant
            forall|j: int| 0 <= j < i ==> texts(ids@)[j] != id@,
    {
        if ids[i] == *id {
            assert(texts(ids@)[i as int] == id@);
            return true;
        }
    }
    false
}

/// The ids without `id`, in order.
fn without(ids: &Vec<String>, id: &String) -> (r: Vec<String>)
    ensures
        texts(r@) == texts(ids@).filter(other_than(id@)),
{
    let ghost keep = other_than(id@);
    let mut r: Vec<String> = Vec::new();
    proof {
        reveal(Seq::filter);
        assert(texts(r@) =~= texts(ids@).take(0).filter(keep));
    }
    for i in 0..ids.len()
        invariant
            keep == other_than(id@),
            texts(r@) == texts(ids@).take(i as int).filter(keep),
    {
        let ghost before = r@;
        if ids[i] != *id {
            r.push(ids[i].clone());
            assert(texts(r@) =~= texts(before).push(ids@[i as int]@));
        }
        proof {
            reveal(Seq::filter);
            assert(texts(ids@).take(i + 1).drop_last() =~= texts(ids@).take(i as int));
            assert(texts(ids@).take(i + 1).last() == ids@[i as int]@);
        }
    }
    assert(texts(ids@).take(ids@.len() as int) =~= texts(ids@));
    r
}

/// The context of one call of a handler.
pub struct Ctx<C> {
    client: Arc<C>,
    account: Arc<BotAccount>,
    note: NormalizedNote,
}

pub struct CtxView<C> {
    pub client: C,
    pub account: BotAccountView,
    pub note: NoteView,
}

impl<C> View for Ctx<C> {
    type V = CtxView<C>;

    closed spec fn view(&self) -> CtxView<C> {
        CtxView { client: *self.client, account: self.account@, note: self.note@ }
    }
}

impl<C> Ctx<C> {
    pub(crate) fn new(client: Arc<C>, account: Arc<BotAccount>, note: NormalizedNote) -> (r: Self)
        ensures
            r@ == (CtxView { client: *client, account: account@, note: note@ }),
    {
        Ctx { client, account, note }
    }

    /// The note that the handler was called for.
    pub fn note(&self) -> (r: &NormalizedNote)
        ensures
            r@ == self@.note,
    {
        &self.note
    }

    /// The call that answers the note. The visibility is inherited (`public` becomes `home`),
    /// and so is whether the note stays on its server.
    pub fn reply(&self, text: &str) -> (r: Reply)
        ensures
            r@ == reply_of(self@.account, self@.note, text@),
            r is Direct <==> self@.note.visibility == "specified"@,
            match r {
                Reply::CreateNote(call) => {
                    &&& call.host@ == self@.account.host
                    &&& call.token@ == self@.account.token
                    &&& call.account_id@ == self@.account.id
                    &&& call.params.text matches Some(t) && t@ == text@
                    &&& call.params.reply_id matches Some(id) && id@ == self@.note.id
                },
                Reply::Direct(request) => {
                    &&& request.host@ == self@.account.host
                    &&& request.token@ == self@.account.token
                    &&& request.endpoint@ == "notes/create"@
                },
            },
    {
        proof {
            lemma_visibilities_differ();
        }
        let visibility = reply_visibility(self.note.visibility.as_str());
        if same(visibility, "specified") {
            return Reply::Direct(self.reply_specified(text));
        }
        Reply::CreateNote(
            CreateNote {
                host: self.account.host.clone(),
                token: self.account.token.clone(),
                account_id: self.account.id.clone(),
                params: CreateNoteParams {
                    text: Some(text.to_string()),
                    visibility: Some(visibility.to_string()),
                    local_only: if self.note.local_only {
                        Some(true)
                    } else {
                        None
                    },
                    reply_id: Some(self.note.id.clone()),
                },
            },
        )
    }

    /// The call that answers a direct message: to those who could read it and to its author,
    /// but not to the bot itself. Whether the note stays on its server is inherited.
    pub fn reply_specified(&self, text: &str) -> (r: ApiRequest)
        ensures
            r@ == direct_reply_of(self@.account, self@.note, text@),
            r.host@ == self@.account.host,
            r.token@ == self@.account.token,
            r.endpoint@ == "notes/create"@,
    {
        let mut ids = without(&self.note.visible_user_ids, &self.account.user_id);
        let ghost others = texts(ids@);
        if self.note.user.id != self.account.user_id && !holds(&ids, &self.note.user.id) {
            ids.push(self.note.user.id.clone());
            assert(texts(ids@) =~= others.push(self.note.user.id@));
        }
        assert(texts(ids@) == recipients(self@.note, self@.account.user_id));
        let ghost readers = ids@;
        let mut fields: Vec<(String, Value)> = Vec::new();
        fields.push(("text".to_string(), string(text)));
        fields.push(("replyId".to_string(), string(self.note.id.as_str())));
        fields.push(("visibility".to_string(), string("specified")));
        fields.push(("visibleUserIds".to_string(), strings(ids)));
        if self.note.local_only {
            fields.push(("localOnly".to_string(), boolean(true)));
        }
        proof {
            assert(readers.map_values(|s: String| Json::Text(s@)) =~= texts(readers).map_values(
                |id: Seq<char>| Json::Text(id),
            ));
            lemma_direct_reply_fields(
                fields_view(fields@),
                text@,
                self.note.id@,
                texts(readers),
                self.note.local_only,
            );
        }
        ApiRequest {
            host: self.account.host.clone(),
            token: self.account.token.clone(),
            endpoint: "notes/create".to_string(),
            body: object(fields),
        }
    }

    /// The call that posts a note of its own, with the visibility that the account defaults to.
    pub fn post(&self, text: &str) -> (r: CreateNote)
        ensures
            r@ == post_of(self@.account, text@),
            r.host@ == self@.account.host,
            r.token@ == self@.account.token,
            r.account_id@ == self@.account.id,
            r.params.text matches Some(t) && t@ == text@,
            r.params.visibility is None,
            r.params.local_only is None,
            r.params.reply_id is None,
    {
        CreateNote {
            host: self.account.host.clone(),
            token: self.account.token.clone(),
            account_id: self.account.id.clone(),
            params: CreateNoteParams {
                text: Some(text.to_string()),
                visibility: None,
                local_only: None,
                reply_id: None,
            },
        }
    }

    /// The call that puts a reaction on the note.
    pub fn react(&self, reaction: &str) -> (r: CreateReaction)
        ensures
            r@ == reaction_of(self@.account, self@.note, reaction@),
            r.host@ == self@.account.host,
            r.token@ == self@.account.token,
            r.note_id@ == self@.note.id,
            r.reaction@ == reaction@,
    {
        CreateReaction {
            host: self.account.host.clone(),
            token: self.account.token.clone(),
            note_id: self.note.id.clone(),
            reaction: reaction.to_string(),
        }
    }

    /// The bare client, with the host and the token to call it with.
    pub fn client(&self) -> (r: (&C, &str, &str))
        ensures
            *r.0 == self@.client,
            r.1@ == self@.account.host,
            r.2@ == self@.account.token,
    {
        (&*self.client, self.account.host.as_str(), self.account.token.as_str())
    }
}

/// The keys of a direct reply differ, each in its length.
proof fn lemma_direct_reply_keys()
    ensures
        "text"@.len() == 4,
        "replyId"@.len() == 7,
        "localOnly"@.len() == 9,
        "visibility"@.len() == 10,
        "visibleUserIds"@.len() == 14,
{
    reveal_strlit("text");
    reveal_strlit("replyId");
    reveal_strlit("localOnly");
    reveal_strlit("visibility");
    reveal_strlit("visibleUserIds");
}

/// The fields of a direct reply make its request body.
proof fn lemma_direct_reply_fields(
    fields: Seq<(Seq<char>, Json)>,
    text: Seq<char>,
    note_id: Seq<char>,
    readers: Seq<Seq<char>>,
    local_only: bool,
)
    requires
        fields.len() == (if local_only {
            5int
        } else {
            4int
        }),
        fields[0] == ("text"@, Json::Text(text)),
        fields[1] == ("replyId"@, Json::Text(note_id)),
        fields[2] == ("visibility"@, Json::Text("specified"@)),
        fields[3] == (
            "visibleUserIds"@,
            Json::Array(readers.map_values(|id: Seq<char>| Json::Text(id))),
        ),
        local_only ==> fields[4] == ("localOnly"@, Json::Bool(true)),
    ensures
        distinct_keys(fields),
        Json::Object(object_of(fields)) == direct_reply_body(text, note_id, readers, local_only),
{
    lemma_direct_reply_keys();
    assert forall|i: int, j: int| 0 <= i < j < fields.len() implies (#[trigger] fields[i]).0 != (
    #[trigger] fields[j]).0 by {
        assert(fields[i].0.len() != fields[j].0.len());
    }
    reveal_with_fuel(object_of, 6);
}

// ---------------------------------------------------------------------------
// Laws.

/// The visibility that a reply is sent with.
pub open spec fn sent_visibility(reply: ReplyView) -> Option<Seq<char>> {
    match reply {
        ReplyView::CreateNote(call) => call.params.visibility,
        ReplyView::Direct(request) => request.body.text_member("visibility"@),
    }
}

/// The note that a reply answers.
pub open spec fn answered_note(reply: ReplyView) -> Option<Seq<char>> {
    match reply {
        ReplyView::CreateNote(call) => call.params.reply_id,
        ReplyView::Direct(request) => request.body.text_member("replyId"@),
    }
}

/// The text of a reply.
pub open spec fn sent_text(reply: ReplyView) -> Option<Seq<char>> {
    match reply {
        ReplyView::CreateNote(call) => call.params.text,
        ReplyView::Direct(request) => request.body.text_member("text"@),
    }
}

/// The host and the token that a reply is sent with.
pub open spec fn sent_with(reply: ReplyView) -> (Seq<char>, Seq<char>) {
    match reply {
        ReplyView::CreateNote(call) => (call.host, call.token),
        ReplyView::Direct(request) => (request.host, request.token),
    }
}

/// Whether a reply says that it stays on its server; nothing where it does not say so.
pub open spec fn sent_local_only(reply: ReplyView) -> Option<bool> {
    match reply {
        ReplyView::CreateNote(call) => call.params.local_only,
        ReplyView::Direct(request) => match request.body.member("localOnly"@) {
            Some(Json::Bool(b)) => Some(b),
            _ => None,
        },
    }
}

/// What the body of a direct reply holds.
proof fn lemma_direct_reply_members(
    text: Seq<char>,
    note_id: Seq<char>,
    readers: Seq<Seq<char>>,
    local_only: bool,
)
    ensures
        ({
            let body = direct_reply_body(text, note_id, readers, local_only);
            &&& body.text_member("text"@) == Some(text)
            &&& body.text_member("replyId"@) == Some(note_id)
            &&& body.text_member("visibility"@) == Some("specified"@)
            &&& body.member("visibleUserIds"@) == Some(
                Json::Array(readers.map_values(|id: Seq<char>| Json::Text(id))),
            )
            &&& local_only ==> body.member("localOnly"@) == Some(Json::Bool(true))
            &&& !local_only ==> body.member("localOnly"@) is None
        }),
{
    lemma_direct_reply_keys();
}

/// The visibilities that are told apart differ, each in its length.
proof fn lemma_visibilities_differ()
    ensures
        "public"@.len() == 6,
        "home"@.len() == 4,
        "specified"@.len() == 9,
{
    reveal_strlit("public");
    reveal_strlit("home");
    reveal_strlit("specified");
}

/// A reply never appears on the public timeline, and has the visibility of the note that it
/// answers where that is not public: `home` for a public note.
pub proof fn law_reply_inherits_visibility(
    account: BotAccountView,
    note: NoteView,
    text: Seq<char>,
)
    ensures
        sent_visibility(reply_of(account, note, text)) == Some(
            visibility_of_reply(note.visibility),
        ),
        sent_visibility(reply_of(account, note, text)) != Some("public"@),
        note.visibility != "public"@ ==> sent_visibility(reply_of(account, note, text)) == Some(
            note.visibility,
        ),
{
    lemma_direct_reply_members(
        text,
        note.id,
        recipients(note, account.user_id),
        note.local_only,
    );
    lemma_visibilities_differ();
}

/// Replying to a reply of the bot does not narrow the visibility further.
pub proof fn law_reply_visibility_is_stable(original: Seq<char>)
    ensures
        visibility_of_reply(visibility_of_reply(original)) == visibility_of_reply(original),
{
}

/// A reply answers the note that it was made for, with the given text, by the account of the
/// bot.
pub proof fn law_reply_answers_the_note(account: BotAccountView, note: NoteView, text: Seq<char>)
    ensures
        answered_note(reply_of(account, note, text)) == Some(note.id),
        sent_text(reply_of(account, note, text)) == Some(text),
        sent_with(reply_of(account, note, text)) == (account.host, account.token),
{
    lemma_direct_reply_members(
        text,
        note.id,
        recipients(note, account.user_id),
        note.local_only,
    );
}

/// A reply stays on its server exactly where the note does, direct messages included; where
/// the note does not, the reply says nothing about it.
pub proof fn law_reply_inherits_local_only(
    account: BotAccountView,
    note: NoteView,
    text: Seq<char>,
)
    ensures
        sent_local_only(reply_of(account, note, text)) == (if note.local_only {
            Some(true)
        } else {
            None
        }),
{
    lemma_direct_reply_members(
        text,
        note.id,
        recipients(note, account.user_id),
        note.local_only,
    );
}

/// A note is answered by a direct message exactly where it is one, and then the author reads
/// the answer, those who could read the note do, nobody else does, and the bot does not write
/// to itself.
pub proof fn law_direct_reply_reaches_the_right_readers(
    account: BotAccountView,
    note: NoteView,
    text: Seq<char>,
    id: Seq<char>,
)
    ensures
        reply_of(account, note, text) is Direct <==> note.visibility == "specified"@,
        reply_of(account, note, text) matches ReplyView::Direct(request) ==> request.body.member(
            "visibleUserIds"@,
        ) == Some(
            Json::Array(
                recipients(note, account.user_id).map_values(|id: Seq<char>| Json::Text(id)),
            ),
        ),
        recipients(note, account.user_id).contains(id) <==> id != account.user_id && (id
            == note.user.id || note.visible_user_ids.contains(id)),
{
    lemma_visibilities_differ();
    lemma_direct_reply_members(
        text,
        note.id,
        recipients(note, account.user_id),
        note.local_only,
    );
    let own = account.user_id;
    let keep = other_than(own);
    let others = note.visible_user_ids.filter(keep);
    lemma_filter_contains(note.visible_user_ids, keep, id);
    lemma_filter_contains(note.visible_user_ids, keep, note.user.id);
    let all = recipients(note, own);
    if all != others {
        assert(all == others.push(note.user.id));
        assert(all[others.len() as int] == note.user.id);
        if others.contains(id) {
            let i = others.index_of(id);
            assert(all[i] == id);
        }
        if all.contains(id) && id != note.user.id {
            let i = all.index_of(id);
            assert(others[i] == id);
        }
    }
}

/// Nobody is named twice among the readers of a direct reply, where nobody was named twice
/// among those of the note.
pub proof fn law_direct_reply_readers_are_distinct(note: NoteView, own_id: Seq<char>)
    requires
        note.visible_user_ids.no_duplicates(),
    ensures
        recipients(note, own_id).no_duplicates(),
{
    lemma_filter_distinct(note.visible_user_ids, other_than(own_id));
}

/// A filtered sequence holds what the sequence holds and the filter keeps.
proof fn lemma_filter_contains(
    s: Seq<Seq<char>>,
    keep: spec_fn(Seq<char>) -> bool,
    id: Seq<char>,
)
    ensures
        s.filter(keep).contains(id) <==> s.contains(id) && keep(id),
    decreases s.len(),
{
    reveal(Seq::filter);
    if s.len() > 0 {
        let rest = s.drop_last();
        lemma_filter_contains(rest, keep, id);
        assert(s == rest.push(s.last()));
        assert(s.contains(id) <==> rest.contains(id) || id == s.last()) by {
            assert(s[s.len() - 1] == s.last());
            if rest.contains(id) {
                assert(s[rest.index_of(id)] == id);
            }
            if s.contains(id) && id != s.last() {
                assert(rest[s.index_of(id)] == id);
            }
        }
        let f = rest.filter(keep);
        if keep(s.last()) {
            assert(f.push(s.last())[f.len() as int] == s.last());
            if f.contains(id) {
                assert(f.push(s.last())[f.index_of(id)] == id);
            }
            if f.push(s.last()).contains(id) && id != s.last() {
                assert(f[f.push(s.last()).index_of(id)] == id);
            }
        }
    }
}

/// A filtered sequence has no duplicates where the sequence has none.
proof fn lemma_filter_distinct(s: Seq<Seq<char>>, keep: spec_fn(Seq<char>) -> bool)
    requires
        s.no_duplicates(),
    ensures
        s.filter(keep).no_duplicates(),
    decreases s.len(),
{
    reveal(Seq::filter);
    if s.len() > 0 {
        let rest = s.drop_last();
        lemma_filter_distinct(rest, keep);
        lemma_filter_contains(rest, keep, s.last());
    }
}

/// A post is the given text as it stands, from the account of the bot: it answers no note, and
/// who sees it is left to what the account defaults to.
pub proof fn law_post_says_what_it_is_given(account: BotAccountView, text: Seq<char>)
    ensures
        post_of(account, text).params.text == Some(text),
        post_of(account, text).params.visibility is None,
        post_of(account, text).params.local_only is None,
        post_of(account, text).params.reply_id is None,
        post_of(account, text).host == account.host,
        post_of(account, text).token == account.token,
        post_of(account, text).account_id == account.id,
{
}

/// Posts tell texts apart: two texts make the same post only where they are the same.
pub proof fn law_different_texts_make_different_posts(
    account: BotAccountView,
    text: Seq<char>,
    other: Seq<char>,
)
    requires
        post_of(account, text) == post_of(account, other),
    ensures
        text == other,
{
    law_post_says_what_it_is_given(account, text);
    law_post_says_what_it_is_given(account, other);
}

/// A reaction is the given one as it stands, on the note itself, from the account of the bot.
pub proof fn law_reaction_is_put_on_the_note(
    account: BotAccountView,
    note: NoteView,
    reaction: Seq<char>,
)
    ensures
        reaction_of(account, note, reaction).reaction == reaction,
        reaction_of(account, note, reaction).note_id == note.id,
        reaction_of(account, note, reaction).host == account.host,
        reaction_of(account, note, reaction).token == account.token,
{
}

/// Public notes are answered to `home`, all others with the visibility that they have.
pub proof fn law_only_public_becomes_home(original: Seq<char>)
    ensures
        original == "public"@ ==> visibility_of_reply(original) == "home"@,
        original != "public"@ ==> visibility_of_reply(original) == original,
{
}

/// A note that is no direct message is answered by creating a note: the given text as it
/// stands, in reply to that note, from the account of the bot, as visible as the note but never
/// public, and kept on the server exactly where the note is.
pub proof fn law_reply_to_an_open_note(account: BotAccountView, note: NoteView, text: Seq<char>)
    requires
        note.visibility != "specified"@,
    ensures
        reply_of(account, note, text) matches ReplyView::CreateNote(call) && {
            &&& call.host == account.host
            &&& call.token == account.token
            &&& call.account_id == account.id
            &&& call.params.text == Some(text)
            &&& call.params.reply_id == Some(note.id)
            &&& note.visibility == "public"@ ==> call.params.visibility == Some("home"@)
            &&& note.visibility != "public"@ ==> call.params.visibility == Some(note.visibility)
            &&& note.local_only ==> call.params.local_only == Some(true)
            &&& !note.local_only ==> call.params.local_only is None
        },
{
    lemma_visibilities_differ();
}

/// A direct message is answered by creating a note too, whoever and however many its readers
/// are: the given text as it stands, in reply to that message, from the account of the bot,
/// for the named readers alone.
pub proof fn law_reply_to_a_direct_message(account: BotAccountView, note: NoteView, text: Seq<char>)
    ensures
        note.visibility == "specified"@ ==> reply_of(account, note, text) == ReplyView::Direct(
            direct_reply_of(account, note, text),
        ),
        direct_reply_of(account, note, text).host == account.host,
        direct_reply_of(account, note, text).token == account.token,
        direct_reply_of(account, note, text).endpoint == "notes/create"@,
        direct_reply_of(account, note, text).body matches Json::Object(members) && {
            &&& forall|key: Seq<char>| #[trigger]
                members.contains_key(key) <==> {
                    ||| key == "text"@
                    ||| key == "replyId"@
                    ||| key == "visibility"@
                    ||| key == "visibleUserIds"@
                    ||| note.local_only && key == "localOnly"@
                }
            &&& members["text"@] == Json::Text(text)
            &&& members["replyId"@] == Json::Text(note.id)
            &&& members["visibility"@] == Json::Text("specified"@)
            &&& note.local_only ==> members["localOnly"@] == Json::Bool(true)
            &&& members["visibleUserIds"@] matches Json::Array(ids) && {
                let readers = recipients(note, account.user_id);
                &&& ids.len() == readers.len()
                &&& forall|i: int|
                    0 <= i < readers.len() ==> #[trigger] ids[i] == Json::Text(readers[i])
            }
        },
        reply_of(account, note, text) matches ReplyView::Direct(request) ==> request.endpoint
            == "notes/create"@,
{
    lemma_visibilities_differ();
    lemma_direct_reply_keys();
}

/// Where the bot is not among the readers of a note, the readers of its answer are just those,
/// in their order, and the author at the end where they are neither among them nor the bot.
pub proof fn law_readers_stay_in_their_order(note: NoteView, own_id: Seq<char>)
    requires
        !note.visible_user_ids.contains(own_id),
    ensures
        note.user.id == own_id || note.visible_user_ids.contains(note.user.id) ==> recipients(
            note,
            own_id,
        ) == note.visible_user_ids,
        note.user.id != own_id && !note.visible_user_ids.contains(note.user.id) ==> recipients(
            note,
            own_id,
        ) == note.visible_user_ids.push(note.user.id),
{
    lemma_filter_keeps_all(note.visible_user_ids, other_than(own_id));
}

/// That the bot is among the readers of a note makes no difference to who reads its answer.
pub proof fn law_own_id_makes_no_difference(
    note: NoteView,
    own_id: Seq<char>,
    before: Seq<Seq<char>>,
    after: Seq<Seq<char>>,
)
    requires
        note.visible_user_ids == before.push(own_id) + after,
    ensures
        recipients(note, own_id) == recipients(
            NoteView { visible_user_ids: before + after, ..note },
            own_id,
        ),
{
    let keep = other_than(own_id);
    lemma_filter_without_one(before, own_id, after, keep);
}

/// A filter that keeps every item keeps the sequence.
proof fn lemma_filter_keeps_all(s: Seq<Seq<char>>, keep: spec_fn(Seq<char>) -> bool)
    requires
        forall|i: int| 0 <= i < s.len() ==> keep(#[trigger] s[i]),
    ensures
        s.filter(keep) == s,
    decreases s.len(),
{
    reveal(Seq::filter);
    if s.len() > 0 {
        let rest = s.drop_last();
        assert forall|i: int| 0 <= i < rest.len() implies keep(#[trigger] rest[i]) by {
            assert(keep(s[i]));
        }
        lemma_filter_keeps_all(rest, keep);
        assert(keep(s[s.len() - 1]));
        assert(rest.push(s.last()) =~= s);
    }
}

/// An item that a filter drops makes no difference to what it keeps.
proof fn lemma_filter_without_one(
    before: Seq<Seq<char>>,
    id: Seq<char>,
    after: Seq<Seq<char>>,
    keep: spec_fn(Seq<char>) -> bool,
)
    requires
        !keep(id),
    ensures
        (before.push(id) + after).filter(keep) == (before + after).filter(keep),
    decreases after.len(),
{
    reveal(Seq::filter);
    if after.len() == 0 {
        assert(before.push(id) + after =~= before.push(id));
        assert(before.push(id).drop_last() =~= before);
        assert(before + after =~= before);
    } else {
        lemma_filter_without_one(before, id, after.drop_last(), keep);
        assert((before.push(id) + after).drop_last() =~= before.push(id) + after.drop_last());
        assert((before + after).drop_last() =~= before + after.drop_last());
    }
}

/// Of the account of a bot and of a note to be created, everything is seen under its own name.
pub proof fn law_account_and_note_are_seen_whole(account: BotAccount, params: CreateNoteParams)
    ensures
        account@.id == account.id@,
        account@.host == account.host@,
        account@.token == account.token@,
        account@.user_id == account.user_id@,
        params.text matches Some(s) ==> params@.text == Some(s@),
        params.text is None ==> params@.text is None,
        params.visibility matches Some(s) ==> params@.visibility == Some(s@),
        params.visibility is None ==> params@.visibility is None,
        params@.local_only == params.local_only,
        params.reply_id matches Some(s) ==> params@.reply_id == Some(s@),
        params.reply_id is None ==> params@.reply_id is None,
{
}

/// Of a call, everything is seen under its own name.
pub proof fn law_calls_are_seen_whole(call: CreateNote, reaction: CreateReaction, reply: Reply)
    ensures
        call@.host == call.host@,
        call@.token == call.token@,
        call@.account_id == call.account_id@,
        call@.params == call.params@,
        reaction@.host == reaction.host@,
        reaction@.token == reaction.token@,
        reaction@.note_id == reaction.note_id@,
        reaction@.reaction == reaction.reaction@,
        reply matches Reply::CreateNote(c) ==> reply@ == ReplyView::CreateNote(c@),
        reply matches Reply::Direct(r) ==> reply@ == ReplyView::Direct(r@),
{
}


} // verus!
