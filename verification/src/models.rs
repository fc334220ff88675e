//! The data that the bot reads from Misskey and sends to it.

use serde_json::Value;
use vstd::prelude::*;

use crate::json::{json_view, Json};

verus! {

/// The characters of each of a list of texts.
pub open spec fn texts(items: Seq<String>) -> Seq<Seq<char>> {
    items.map_values(|s: String| s@)
}

/// The characters of a text that may be absent.
pub open spec fn opt_text(item: Option<String>) -> Option<Seq<char>> {
    match item {
        Some(s) => Some(s@),
        None => None,
    }
}

/// The characters of a borrowed text that may be absent.
pub open spec fn opt_str(item: Option<&str>) -> Option<Seq<char>> {
    match item {
        Some(s) => Some(s@),
        None => None,
    }
}

/// The author of a note.
#[derive(Debug)]
pub struct NormalizedUser {
    pub id: String,
    pub username: String,
    /// Whether the account is marked as a bot.
    pub is_bot: bool,
}

pub struct UserView {
    pub id: Seq<char>,
    pub username: Seq<char>,
    pub is_bot: bool,
}

impl View for NormalizedUser {
    type V = UserView;

    open spec fn view(&self) -> UserView {
        UserView { id: self.id@, username: self.username@, is_bot: self.is_bot }
    }
}

/// A note (post): what the bot reads of it.
#[derive(Debug)]
pub struct NormalizedNote {
    pub id: String,
    pub text: Option<String>,
    pub user: NormalizedUser,
    /// `public`, `home`, `followers` or `specified` (a direct message).
    pub visibility: String,
    /// Whether the note stays on its server.
    pub local_only: bool,
    /// Who can read a `specified` note.
    pub visible_user_ids: Vec<String>,
}

pub struct NoteView {
    pub id: Seq<char>,
    pub text: Option<Seq<char>>,
    pub user: UserView,
    pub visibility: Seq<char>,
    pub local_only: bool,
    pub visible_user_ids: Seq<Seq<char>>,
}

impl View for NormalizedNote {
    type V = NoteView;

    open spec fn view(&self) -> NoteView {
        NoteView {
            id: self.id@,
            text: opt_text(self.text),
            user: self.user@,
            visibility: self.visibility@,
            local_only: self.local_only,
            visible_user_ids: texts(self.visible_user_ids@),
        }
    }
}

/// A notification: what the bot reads of it.
#[derive(Debug)]
pub struct NormalizedNotification {
    pub id: String,
    pub notification_type: String,
    pub user: Option<NormalizedUser>,
    pub note: Option<NormalizedNote>,
    pub reaction: Option<String>,
}

pub struct NotificationView {
    pub id: Seq<char>,
    pub notification_type: Seq<char>,
    pub user: Option<UserView>,
    pub note: Option<NoteView>,
    pub reaction: Option<Seq<char>>,
}

impl View for NormalizedNotification {
    type V = NotificationView;

    open spec fn view(&self) -> NotificationView {
        NotificationView {
            id: self.id@,
            notification_type: self.notification_type@,
            user: match self.user {
                Some(user) => Some(user@),
                None => None,
            },
            note: match self.note {
                Some(note) => Some(note@),
                None => None,
            },
            reaction: opt_text(self.reaction),
        }
    }
}

/// An account that is logged in on this machine: what the bot reads of it.
#[derive(Debug)]
pub struct Account {
    pub id: String,
    pub host: String,
    pub user_id: String,
    pub username: String,
}

pub struct AccountView {
    pub id: Seq<char>,
    pub host: Seq<char>,
    pub user_id: Seq<char>,
    pub username: Seq<char>,
}

impl View for Account {
    type V = AccountView;

    open spec fn view(&self) -> AccountView {
        AccountView {
            id: self.id@,
            host: self.host@,
            user_id: self.user_id@,
            username: self.username@,
        }
    }
}

/// Accounts in the order in which they are stored.
pub open spec fn accounts_view(accounts: Seq<Account>) -> Seq<AccountView> {
    accounts.map_values(|a: Account| a@)
}

/// A call of an endpoint of the Misskey API.
#[derive(Debug)]
pub struct ApiRequest {
    pub host: String,
    pub token: String,
    pub endpoint: String,
    pub body: Value,
}

pub struct ApiRequestView {
    pub host: Seq<char>,
    pub token: Seq<char>,
    pub endpoint: Seq<char>,
    pub body: Json,
}

impl View for ApiRequest {
    type V = ApiRequestView;

    open spec fn view(&self) -> ApiRequestView {
        ApiRequestView {
            host: self.host@,
            token: self.token@,
            endpoint: self.endpoint@,
            body: json_view(self.body),
        }
    }
}

// ---------------------------------------------------------------------------
// Laws.

/// Of a list of texts, every one is seen at its place, with all of its characters.
pub proof fn law_texts_are_seen_whole(items: Seq<String>)
    ensures
        texts(items).len() == items.len(),
        forall|i: int| 0 <= i < items.len() ==> #[trigger] texts(items)[i] == items[i]@,
{
}

/// A text that may be absent is seen with all of its characters, and its absence is seen.
pub proof fn law_optional_text_is_seen_whole(item: Option<String>, borrowed: Option<&str>)
    ensures
        item matches Some(s) ==> opt_text(item) == Some(s@),
        item is None ==> opt_text(item) is None,
        borrowed matches Some(s) ==> opt_str(borrowed) == Some(s@),
        borrowed is None ==> opt_str(borrowed) is None,
{
}

/// Of a note, everything is seen under its own name, and of its author too.
pub proof fn law_note_is_seen_whole(note: NormalizedNote)
    ensures
        note@.id == note.id@,
        note.text matches Some(s) ==> note@.text == Some(s@),
        note.text is None ==> note@.text is None,
        note@.user.id == note.user.id@,
        note@.user.username == note.user.username@,
        note@.user.is_bot == note.user.is_bot,
        note@.visibility == note.visibility@,
        note@.local_only == note.local_only,
        note@.visible_user_ids.len() == note.visible_user_ids@.len(),
        forall|i: int|
            0 <= i < note.visible_user_ids@.len() ==> #[trigger] note@.visible_user_ids[i]
                == note.visible_user_ids@[i]@,
{
}

/// Of a notification, everything is seen under its own name.
pub proof fn law_notification_is_seen_whole(n: NormalizedNotification)
    ensures
        n@.id == n.id@,
        n@.notification_type == n.notification_type@,
        n.user matches Some(user) ==> n@.user == Some(user@),
        n.user is None ==> n@.user is None,
        n.note matches Some(note) ==> n@.note == Some(note@),
        n.note is None ==> n@.note is None,
        n.reaction matches Some(s) ==> n@.reaction == Some(s@),
        n.reaction is None ==> n@.reaction is None,
{
}

/// Of stored accounts, every one is seen at its place, and everything of it under its own name.
pub proof fn law_accounts_are_seen_whole(accounts: Seq<Account>)
    ensures
        accounts_view(accounts).len() == accounts.len(),
        forall|i: int|
            0 <= i < accounts.len() ==> {
                let seen = #[trigger] accounts_view(accounts)[i];
                &&& seen.id == accounts[i].id@
                &&& seen.host == accounts[i].host@
                &&& seen.user_id == accounts[i].user_id@
                &&& seen.username == accounts[i].username@
            },
        forall|a: Account|
            {
                &&& (#[trigger] a@).id == a.id@
                &&& a@.host == a.host@
                &&& a@.user_id == a.user_id@
                &&& a@.username == a.username@
            },
{
}

/// Of a request, everything is seen under its own name.
pub proof fn law_request_is_seen_whole(request: ApiRequest)
    ensures
        request@.host == request.host@,
        request@.token == request.token@,
        request@.endpoint == request.endpoint@,
        request@.body == json_view(request.body),
{
}


} // verus!
