//! The events of the Misskey stream, typed, and the memory of the notes already seen.

use std::collections::VecDeque;

use serde_json::Value;
use vstd::hash_set::StringHashSet;
use vstd::prelude::*;

use crate::json::{get, json_view, text_member, Json};
use crate::models::{
    texts, NormalizedNote, NormalizedNotification, NoteView, NotificationView,
};
use crate::text::same;

verus! {

// ---------------------------------------------------------------------------
// Events.

/// An event that the bot knows.
#[derive(Debug)]
pub enum BotEvent {
    /// Somebody mentioned the bot.
    Mention(Box<NormalizedNote>),
    /// A note arrived on a subscribed timeline.
    Note { subscription_id: String, note: Box<NormalizedNote> },
    Notification(Box<NormalizedNotification>),
    /// The state of the connection changed.
    Status { state: String },
}

pub enum EventView {
    Mention(NoteView),
    Note { subscription_id: Seq<char>, note: NoteView },
    Notification(NotificationView),
    Status { state: Seq<char> },
}

impl View for BotEvent {
    type V = EventView;

    open spec fn view(&self) -> EventView {
        match self {
            BotEvent::Mention(note) => EventView::Mention(note@),
            BotEvent::Note { subscription_id, note } => EventView::Note {
                subscription_id: subscription_id@,
                note: note@,
            },
            BotEvent::Notification(n) => EventView::Notification(n@),
            BotEvent::Status { state } => EventView::Status { state: state@ },
        }
    }
}

/// An event that may be absent, as a mathematical value.
pub open spec fn opt_event(event: Option<BotEvent>) -> Option<EventView> {
    match event {
        Some(e) => Some(e@),
        None => None,
    }
}

/// What a stream message carries, before its note or notification is decoded.
pub enum EventBody<'a> {
    /// `stream-mention`: the note that mentions the bot.
    Mention(&'a Value),
    /// `stream-note`: a note of the timeline with that subscription.
    Note { subscription_id: String, note: &'a Value },
    /// `stream-notification`: the notification.
    Notification(&'a Value),
    /// `stream-status`: the state of the connection.
    Status { state: String },
}

pub enum BodyView {
    Mention(Json),
    Note { subscription_id: Seq<char>, note: Json },
    Notification(Json),
    Status { state: Seq<char> },
}

impl<'a> View for EventBody<'a> {
    type V = BodyView;

    open spec fn view(&self) -> BodyView {
        match self {
            EventBody::Mention(note) => BodyView::Mention(json_view(**note)),
            EventBody::Note { subscription_id, note } => BodyView::Note {
                subscription_id: subscription_id@,
                note: json_view(**note),
            },
            EventBody::Notification(n) => BodyView::Notification(json_view(**n)),
            EventBody::Status { state } => BodyView::Status { state: state@ },
        }
    }
}

/// What the stream message `name` with `payload` carries. Messages under any other name,
/// and those that lack what their name promises, carry nothing.
pub open spec fn body_of(name: Seq<char>, payload: Json) -> Option<BodyView> {
    if name == "stream-mention"@ {
        match payload.member("note"@) {
            Some(note) => Some(BodyView::Mention(note)),
            None => None,
        }
    } else if name == "stream-note"@ {
        match (payload.text_member("subscriptionId"@), payload.member("note"@)) {
            (Some(subscription_id), Some(note)) => Some(BodyView::Note { subscription_id, note }),
            _ => None,
        }
    } else if name == "stream-notification"@ {
        match payload.member("notification"@) {
            Some(n) => Some(BodyView::Notification(n)),
            None => None,
        }
    } else if name == "stream-status"@ {
        match payload.text_member("state"@) {
            Some(state) => Some(BodyView::Status { state }),
            None => None,
        }
    } else {
        None
    }
}

/// The names of the messages that are told apart differ, each in its length.
proof fn lemma_names_differ()
    ensures
        "stream-mention"@.len() == 14,
        "stream-note"@.len() == 11,
        "stream-notification"@.len() == 19,
        "stream-status"@.len() == 13,
{
    reveal_strlit("stream-mention");
    reveal_strlit("stream-note");
    reveal_strlit("stream-notification");
    reveal_strlit("stream-status");
}

/// Finds what a stream message carries.
pub fn locate_event<'a>(name: &str, payload: &'a Value) -> (r: Option<EventBody<'a>>)
    ensures
        match r {
            Some(body) => body_of(name@, json_view(*payload)) == Some(body@),
            None => body_of(name@, json_view(*payload)) is None,
        },
{
    if same(name, "stream-mention") {
        match get(payload, "note") {
            Some(note) => Some(EventBody::Mention(note)),
            None => None,
        }
    } else if same(name, "stream-note") {
        match (text_member(payload, "subscriptionId"), get(payload, "note")) {
            (Some(id), Some(note)) => Some(
                EventBody::Note { subscription_id: id.to_string(), note },
            ),
            _ => None,
        }
    } else if same(name, "stream-notification") {
        match get(payload, "notification") {
            Some(n) => Some(EventBody::Notification(n)),
            None => None,
        }
    } else if same(name, "stream-status") {
        match text_member(payload, "state") {
            Some(state) => Some(EventBody::Status { state: state.to_string() }),
            None => None,
        }
    } else {
        None
    }
}

/// The note or the notification of a stream message, decoded.
pub enum Decoded {
    Note(NormalizedNote),
    Notification(NormalizedNotification),
    /// It could not be decoded, or the message carries neither.
    Nothing,
}

pub enum DecodedView {
    Note(NoteView),
    Notification(NotificationView),
    Nothing,
}

impl View for Decoded {
    type V = DecodedView;

    open spec fn view(&self) -> DecodedView {
        match self {
            Decoded::Note(note) => DecodedView::Note(note@),
            Decoded::Notification(n) => DecodedView::Notification(n@),
            Decoded::Nothing => DecodedView::Nothing,
        }
    }
}

/// The event of a stream message whose note or notification decodes to `decoded`.
pub open spec fn event_of(
    name: Seq<char>,
    payload: Json,
    decoded: DecodedView,
) -> Option<EventView> {
    match (body_of(name, payload), decoded) {
        (Some(BodyView::Mention(_)), DecodedView::Note(note)) => Some(EventView::Mention(note)),
        (
            Some(BodyView::Note { subscription_id, note: _ }),
            DecodedView::Note(note),
        ) => Some(EventView::Note { subscription_id, note }),
        (Some(BodyView::Notification(_)), DecodedView::Notification(n)) => Some(
            EventView::Notification(n),
        ),
        (Some(BodyView::Status { state }), _) => Some(EventView::Status { state }),
        _ => None,
    }
}

/// The event of a stream message. `decoded` is what the note or the notification that
/// [`locate_event`] finds in it decodes to. Unknown messages and those that do not decode are
/// no events.
pub fn parse_event(name: &str, payload: &Value, decoded: Decoded) -> (r: Option<BotEvent>)
    ensures
        opt_event(r) == event_of(name@, json_view(*payload), decoded@),
        name@ == "stream-mention"@ && json_view(*payload).member("note"@) is Some ==> (
        decoded matches Decoded::Note(n) ==> r matches Some(BotEvent::Mention(note)) && *note == n),
        name@ == "stream-note"@ && json_view(*payload).member("note"@) is Some ==> (decoded matches
            Decoded::Note(n) ==> (json_view(*payload).text_member("subscriptionId"@) matches Some(
            id,
        ) ==> r matches Some(BotEvent::Note { subscription_id, note }) && subscription_id@ == id
            && *note == n)),
        name@ == "stream-notification"@ && json_view(*payload).member("notification"@) is Some ==> (
        decoded matches Decoded::Notification(n) ==> r matches Some(BotEvent::Notification(m)) && *m
            == n),
        name@ == "stream-status"@ ==> (json_view(*payload).text_member("state"@) matches Some(s)
            ==> r matches Some(BotEvent::Status { state }) && state@ == s),
{
    proof {
        lemma_names_differ();
    }
    match locate_event(name, payload) {
        None => None,
        Some(EventBody::Mention(_)) => match decoded {
            Decoded::Note(note) => Some(BotEvent::Mention(Box::new(note))),
            _ => None,
        },
        Some(EventBody::Note { subscription_id, note: _ }) => match decoded {
            Decoded::Note(note) => Some(
                BotEvent::Note { subscription_id, note: Box::new(note) },
            ),
            _ => None,
        },
        Some(EventBody::Notification(_)) => match decoded {
            Decoded::Notification(n) => Some(BotEvent::Notification(Box::new(n))),
            _ => None,
        },
        Some(EventBody::Status { state }) => Some(BotEvent::Status { state }),
    }
}

// ---------------------------------------------------------------------------
// The notes already seen.

/// The ids that are known, least recently used first, once `id` has been inserted. It is then
/// the most recently used one, known before or not; where a new id makes more than `cap`, the
/// least recently used one goes.
pub open spec fn seen_after(ids: Seq<Seq<char>>, cap: nat, id: Seq<char>) -> Seq<Seq<char>> {
    if ids.contains(id) {
        ids.remove(ids.index_of(id)).push(id)
    } else if ids.len() < cap {
        ids.push(id)
    } else {
        ids.push(id).drop_first()
    }
}

/// The ids that are known once all of `inserted` have been inserted, in order.
pub open spec fn seen_after_all(
    ids: Seq<Seq<char>>,
    cap: nat,
    inserted: Seq<Seq<char>>,
) -> Seq<Seq<char>>
    decreases inserted.len(),
{
    if inserted.len() == 0 {
        ids
    } else {
        seen_after(seen_after_all(ids, cap, inserted.drop_last()), cap, inserted.last())
    }
}

/// Tells new note ids from those already seen (an LRU). A mention can arrive both as a mention
/// and as a notification, and once more after a reconnection. At most `cap` ids are remembered:
/// those that were inserted last.
pub struct SeenCache {
    set: StringHashSet,
    order: VecDeque<String>,
    cap: usize,
}

impl View for SeenCache {
    type V = Seq<Seq<char>>;

    /// The known ids, least recently used first.
    closed spec fn view(&self) -> Seq<Seq<char>> {
        texts(self.order@)
    }
}

impl SeenCache {
    /// How many ids are remembered at most.
    pub closed spec fn capacity(&self) -> nat {
        self.cap as nat
    }

    /// The ids are distinct, no more than the capacity, and those of the set.
    pub closed spec fn wf(&self) -> bool {
        &&& self@.no_duplicates()
        &&& self@.len() <= self.capacity()
        &&& self.set@ == self@.to_set()
    }

    /// An empty memory for at most `cap` ids.
    pub fn new(cap: usize) -> (r: Self)
        ensures
            r.wf(),
            r.capacity() == cap,
            r@ == Seq::<Seq<char>>::empty(),
    {
        let r = SeenCache { set: StringHashSet::new(), order: VecDeque::new(), cap };
        assert(r@ =~= Seq::<Seq<char>>::empty());
        assert(r.set@ =~= r@.to_set());
        r
    }

    /// Makes a known id the most recently used one.
    fn touch(&mut self, id: &str)
        requires
            old(self).wf(),
            old(self)@.contains(id@),
        ensures
            final(self).wf(),
            final(self).capacity() == old(self).capacity(),
            final(self)@ == seen_after(old(self)@, old(self).capacity(), id@),
    {
        let ghost ids = self@;
        let mut i: usize = 0;
        while !same(self.order[i].as_str(), id)
            invariant
                self@ == ids,
                ids.contains(id@),
                *self == *old(self),
                self.wf(),
                i < ids.len(),
                ids.len() == self.order@.len(),
                forall|j: int| 0 <= j < i ==> ids[j] != id@,
            decreases ids.len() - i,
        {
            assert(ids[i as int] != id@);
            assert(i + 1 < ids.len()) by {
                let k = ids.index_of(id@);
                assert(ids[k] == id@);
            }
            i += 1;
        }
        assert(ids[i as int] == id@);
        assert(ids.index_of(id@) == i);
        if let Some(known) = self.order.remove(i) {
            self.order.push_back(known);
        }
        proof {
            assert(self@ =~= ids.remove(i as int).push(id@));
            lemma_touched(ids, id@);
        }
    }

    /// Records a new id and says `true`; says `false` for a known one, which becomes the most
    /// recently used.
    pub fn insert(&mut self, id: &str) -> (r: bool)
        requires
            old(self).wf(),
        ensures
            final(self).wf(),
            final(self).capacity() == old(self).capacity(),
            final(self)@ == seen_after(old(self)@, old(self).capacity(), id@),
            r == !old(self)@.contains(id@),
    {
        if self.set.contains(id) {
            self.touch(id);
            return false;
        }
        let ghost ids = self@;
        self.set.insert(id.to_string());
        self.order.push_back(id.to_string());
        assert(self@ =~= ids.push(id@));
        assert(self.set@ =~= self@.to_set()) by {
            assert(ids.push(id@)[ids.len() as int] == id@);
            assert forall|x: Seq<char>| ids.contains(x) implies ids.push(id@).contains(x) by {
                let i = ids.index_of(x);
                assert(ids.push(id@)[i] == x);
            }
        }
        if self.order.len() > self.cap {
            let ghost pushed = self@;
            if let Some(oldest) = self.order.pop_front() {
                self.set.remove(oldest.as_str());
                assert(self@ =~= pushed.drop_first());
                assert(oldest@ == pushed[0]);
                assert(self.set@ =~= self@.to_set()) by {
                    assert forall|x: Seq<char>| pushed.contains(x) && x != pushed[0] implies
                        self@.contains(x) by {
                        let i = pushed.index_of(x);
                        assert(self@[i - 1] == x);
                    }
                    assert forall|x: Seq<char>| self@.contains(x) implies
                        pushed.contains(x) && x != pushed[0] by {
                        let i = self@.index_of(x);
                        assert(pushed[i + 1] == x);
                    }
                }
            }
        }
        true
    }
}

/// A known id that becomes the most recently used leaves the known ids what they are.
proof fn lemma_touched(ids: Seq<Seq<char>>, id: Seq<char>)
    requires
        ids.no_duplicates(),
        ids.contains(id),
    ensures
        ids.remove(ids.index_of(id)).push(id).no_duplicates(),
        ids.remove(ids.index_of(id)).push(id).len() == ids.len(),
        ids.remove(ids.index_of(id)).push(id).to_set() == ids.to_set(),
{
    let q = ids.index_of(id);
    let touched = ids.remove(q).push(id);
    assert forall|x: Seq<char>| ids.contains(x) implies touched.contains(x) by {
        let k = ids.index_of(x);
        if k < q {
            assert(touched[k] == x);
        } else if k == q {
            assert(touched[ids.len() - 1] == x);
        } else {
            assert(touched[k - 1] == x);
        }
    }
    assert forall|x: Seq<char>| touched.contains(x) implies ids.contains(x) by {
        let k = touched.index_of(x);
        if k < q {
            assert(ids[k] == x);
        } else if k < ids.len() - 1 {
            assert(ids[k + 1] == x);
        }
    }
    assert(touched.to_set() =~= ids.to_set());
}

// ---------------------------------------------------------------------------
// Laws.

/// A message under a name that the bot does not know is no event, whatever it carries.
pub proof fn law_unknown_messages_are_ignored(name: Seq<char>, payload: Json, decoded: DecodedView)
    requires
        name != "stream-mention"@,
        name != "stream-note"@,
        name != "stream-notification"@,
        name != "stream-status"@,
    ensures
        event_of(name, payload, decoded) is None,
{
}

/// A message whose note or notification does not decode is no event; only the state of the
/// connection needs no decoding.
pub proof fn law_undecodable_messages_are_ignored(name: Seq<char>, payload: Json)
    requires
        name != "stream-status"@,
    ensures
        event_of(name, payload, DecodedView::Nothing) is None,
{
}

/// Only a `stream-mention` message is a mention, and the mention is the note that it carries.
pub proof fn law_mentions_come_from_mention_messages(
    name: Seq<char>,
    payload: Json,
    decoded: DecodedView,
)
    ensures
        event_of(name, payload, decoded) matches Some(EventView::Mention(note)) ==> name
            == "stream-mention"@ && payload.member("note"@) is Some && decoded
            == DecodedView::Note(note),
{
}

/// The ids that a cache knows are distinct and no more than its capacity.
pub proof fn law_cache_is_bounded(cache: SeenCache)
    requires
        cache.wf(),
    ensures
        cache@.no_duplicates(),
        cache@.len() <= cache.capacity(),
{
}

/// However many ids are inserted, the known ones stay distinct and no more than the capacity.
pub proof fn law_memory_is_bounded(ids: Seq<Seq<char>>, cap: nat, inserted: Seq<Seq<char>>)
    requires
        ids.no_duplicates(),
        ids.len() <= cap,
    ensures
        seen_after_all(ids, cap, inserted).no_duplicates(),
        seen_after_all(ids, cap, inserted).len() <= cap,
    decreases inserted.len(),
{
    if inserted.len() > 0 {
        law_memory_is_bounded(ids, cap, inserted.drop_last());
        let before = seen_after_all(ids, cap, inserted.drop_last());
        if before.contains(inserted.last()) {
            lemma_touched(before, inserted.last());
        }
    }
}

/// Inserting a known id neither adds an id nor forgets one.
pub proof fn law_known_id_changes_only_the_order(
    ids: Seq<Seq<char>>,
    cap: nat,
    id: Seq<char>,
)
    requires
        ids.no_duplicates(),
        ids.contains(id),
    ensures
        seen_after(ids, cap, id).to_set() == ids.to_set(),
        seen_after(ids, cap, id).len() == ids.len(),
{
    lemma_touched(ids, id);
}

/// An id that was just inserted is known, as the most recently used one, unless nothing at all
/// is remembered.
pub proof fn law_inserted_id_is_known(ids: Seq<Seq<char>>, cap: nat, id: Seq<char>)
    requires
        ids.len() <= cap,
        cap > 0,
    ensures
        seen_after(ids, cap, id).contains(id),
        seen_after(ids, cap, id).last() == id,
{
    let after = seen_after(ids, cap, id);
    assert(after[after.len() - 1] == id);
}

/// The id at position `at` moves by at most one place away from the most recently used end
/// when another one is inserted.
proof fn lemma_known_id_moves_slowly(
    ids: Seq<Seq<char>>,
    cap: nat,
    at: int,
    id: Seq<char>,
) -> (place: int)
    requires
        0 <= at < ids.len() <= cap,
        ids.len() - at < cap,
    ensures
        0 <= place < seen_after(ids, cap, id).len() <= cap,
        seen_after(ids, cap, id)[place] == ids[at],
        seen_after(ids, cap, id).len() - place <= ids.len() - at + 1,
{
    if ids.contains(id) {
        let q = ids.index_of(id);
        if id == ids[at] {
            ids.len() - 1
        } else if q < at {
            at - 1
        } else {
            at
        }
    } else if ids.len() < cap {
        at
    } else {
        at - 1
    }
}

/// The id at position `at` stays known through `inserted` as long as it, those used after it
/// and the inserted ones are together no more than the capacity.
pub proof fn law_known_id_is_kept(
    ids: Seq<Seq<char>>,
    cap: nat,
    at: int,
    inserted: Seq<Seq<char>>,
)
    requires
        0 <= at < ids.len() <= cap,
        ids.len() - at + inserted.len() <= cap,
    ensures
        seen_after_all(ids, cap, inserted).contains(ids[at]),
{
    let place = lemma_place_of_known_id(ids, cap, at, inserted);
    assert(seen_after_all(ids, cap, inserted)[place] == ids[at]);
}

/// Where a known id stands after `inserted`.
proof fn lemma_place_of_known_id(
    ids: Seq<Seq<char>>,
    cap: nat,
    at: int,
    inserted: Seq<Seq<char>>,
) -> (place: int)
    requires
        0 <= at < ids.len() <= cap,
        ids.len() - at + inserted.len() <= cap,
    ensures
        0 <= place < seen_after_all(ids, cap, inserted).len() <= cap,
        seen_after_all(ids, cap, inserted)[place] == ids[at],
        seen_after_all(ids, cap, inserted).len() - place <= ids.len() - at + inserted.len(),
    decreases inserted.len(),
{
    if inserted.len() == 0 {
        at
    } else {
        let before = seen_after_all(ids, cap, inserted.drop_last());
        let p = lemma_place_of_known_id(ids, cap, at, inserted.drop_last());
        lemma_known_id_moves_slowly(before, cap, p, inserted.last())
    }
}

/// An id is known as long as it is among the last ones inserted, counted up to the capacity,
/// whether or not it was known when it was inserted.
pub proof fn law_recent_ids_are_known(
    ids: Seq<Seq<char>>,
    cap: nat,
    inserted: Seq<Seq<char>>,
    k: int,
)
    requires
        ids.no_duplicates(),
        ids.len() <= cap,
        0 <= k < inserted.len(),
        inserted.len() - k <= cap,
    ensures
        seen_after_all(ids, cap, inserted).contains(inserted[k]),
{
    let place = lemma_place_of_recent_id(ids, cap, inserted, k);
    assert(seen_after_all(ids, cap, inserted)[place] == inserted[k]);
}

/// Where a recently inserted id stands.
proof fn lemma_place_of_recent_id(
    ids: Seq<Seq<char>>,
    cap: nat,
    inserted: Seq<Seq<char>>,
    k: int,
) -> (place: int)
    requires
        ids.no_duplicates(),
        ids.len() <= cap,
        0 <= k < inserted.len(),
        inserted.len() - k <= cap,
    ensures
        0 <= place < seen_after_all(ids, cap, inserted).len() <= cap,
        seen_after_all(ids, cap, inserted)[place] == inserted[k],
        seen_after_all(ids, cap, inserted).len() - place <= inserted.len() - k,
    decreases inserted.len(),
{
    law_memory_is_bounded(ids, cap, inserted);
    law_memory_is_bounded(ids, cap, inserted.drop_last());
    let before = seen_after_all(ids, cap, inserted.drop_last());
    if k == inserted.len() - 1 {
        law_inserted_id_is_known(before, cap, inserted.last());
        seen_after_all(ids, cap, inserted).len() - 1
    } else {
        let p = lemma_place_of_recent_id(ids, cap, inserted.drop_last(), k);
        lemma_known_id_moves_slowly(before, cap, p, inserted.last())
    }
}

/// Inserting a new id into a full memory forgets the least recently used id and nothing else.
pub proof fn law_full_memory_forgets_the_least_recently_used(
    ids: Seq<Seq<char>>,
    cap: nat,
    id: Seq<char>,
)
    requires
        ids.no_duplicates(),
        ids.len() == cap,
        cap > 0,
        !ids.contains(id),
    ensures
        seen_after(ids, cap, id) == ids.drop_first().push(id),
        !seen_after(ids, cap, id).contains(ids.first()),
{
    assert(seen_after(ids, cap, id) =~= ids.drop_first().push(id));
    assert forall|i: int| 0 <= i < cap implies seen_after(ids, cap, id)[i] != ids.first() by {
        if i < cap - 1 {
            assert(seen_after(ids, cap, id)[i] == ids[i + 1]);
        } else {
            assert(seen_after(ids, cap, id)[i] == id);
            assert(ids.contains(ids[0]));
        }
    }
}

/// When `id` was inserted last: the position among `inserted`, -1 where it never was.
pub open spec fn last_use(inserted: Seq<Seq<char>>, id: Seq<char>) -> int
    decreases inserted.len(),
{
    if inserted.len() == 0 {
        -1
    } else if inserted.last() == id {
        inserted.len() - 1
    } else {
        last_use(inserted.drop_last(), id)
    }
}

/// The known ids stand in the order in which they were inserted last.
pub proof fn law_ids_stand_in_order_of_use(
    cap: nat,
    inserted: Seq<Seq<char>>,
    i: int,
    j: int,
)
    requires
        0 <= i < j < seen_after_all(Seq::empty(), cap, inserted).len(),
    ensures
        last_use(inserted, seen_after_all(Seq::empty(), cap, inserted)[i]) < last_use(
            inserted,
            seen_after_all(Seq::empty(), cap, inserted)[j],
        ),
    decreases inserted.len(),
{
    let before_inserted = inserted.drop_last();
    let before = seen_after_all(Seq::empty(), cap, before_inserted);
    let id = inserted.last();
    let after = seen_after(before, cap, id);
    law_memory_is_bounded(Seq::empty(), cap, inserted);
    law_memory_is_bounded(Seq::empty(), cap, before_inserted);
    assert(after[after.len() - 1] == id);
    // Where the ids at `i` and `j` stood before, and that the inserted one is at the end.
    assert(after[i] != id);
    lemma_last_use_is_past(before_inserted, after[i]);
    if j < after.len() - 1 {
        assert(after[j] != id);
        let q = if before.contains(id) {
            before.index_of(id)
        } else if before.len() < cap {
            before.len() as int
        } else {
            0int
        };
        let old_i = if i < q {
            i
        } else {
            i + 1
        };
        let old_j = if j < q {
            j
        } else {
            j + 1
        };
        assert(before[old_i] == after[i]);
        assert(before[old_j] == after[j]);
        law_ids_stand_in_order_of_use(cap, before_inserted, old_i, old_j);
    }
}

proof fn lemma_last_use_is_past(inserted: Seq<Seq<char>>, id: Seq<char>)
    ensures
        -1 <= last_use(inserted, id) < inserted.len(),
    decreases inserted.len(),
{
    if inserted.len() > 0 {
        lemma_last_use_is_past(inserted.drop_last(), id);
    }
}

/// Only inserted ids are known: no new id is ever taken for a known one.
pub proof fn law_known_ids_were_inserted(cap: nat, inserted: Seq<Seq<char>>, id: Seq<char>)
    requires
        seen_after_all(Seq::empty(), cap, inserted).contains(id),
    ensures
        inserted.contains(id),
    decreases inserted.len(),
{
    if inserted.len() > 0 {
        let before = seen_after_all(Seq::empty(), cap, inserted.drop_last());
        let after = seen_after(before, cap, inserted.last());
        let i = after.index_of(id);
        assert(inserted[inserted.len() - 1] == inserted.last());
        if before.contains(id) {
            law_known_ids_were_inserted(cap, inserted.drop_last(), id);
            let k = inserted.drop_last().index_of(id);
            assert(inserted[k] == id);
        } else {
            if before.contains(inserted.last()) {
                let q = before.index_of(inserted.last());
                assert(i < q ==> before[i] == id);
                assert(q <= i < before.len() - 1 ==> before[i + 1] == id);
            } else if before.len() < cap {
                assert(i < before.len() ==> before[i] == id);
            } else {
                assert(i < before.len() - 1 ==> before[i + 1] == id);
            }
            assert(id == inserted.last());
        }
    }
}

/// Every mention message with a note that decodes is a mention of that note, whatever the note
/// says, whoever wrote it and whoever can read it. Without a note, or where something else or
/// nothing was decoded, it is no event.
pub proof fn law_every_mention_is_an_event(payload: Json, note: NoteView, decoded: DecodedView)
    ensures
        payload.member("note"@) is Some ==> event_of(
            "stream-mention"@,
            payload,
            DecodedView::Note(note),
        ) == Some(EventView::Mention(note)),
        payload.member("note"@) is None ==> event_of("stream-mention"@, payload, decoded) is None,
        !(decoded is Note) ==> event_of("stream-mention"@, payload, decoded) is None,
{
    lemma_names_differ();
}

/// Every message of a timeline with a subscription and a note that decodes is that note under
/// that subscription. Without one of these it is no event.
pub proof fn law_every_timeline_note_is_an_event(
    payload: Json,
    note: NoteView,
    decoded: DecodedView,
)
    ensures
        payload.member("note"@) is Some ==> (payload.text_member("subscriptionId"@) matches Some(id)
            ==> event_of("stream-note"@, payload, DecodedView::Note(note)) == Some(
            EventView::Note { subscription_id: id, note },
        )),
        payload.member("note"@) is None || payload.text_member("subscriptionId"@) is None
            ==> event_of("stream-note"@, payload, decoded) is None,
        !(decoded is Note) ==> event_of("stream-note"@, payload, decoded) is None,
{
    lemma_names_differ();
}

/// Every notification message with a notification that decodes is that notification. Without
/// one it is no event.
pub proof fn law_every_notification_is_an_event(
    payload: Json,
    notification: NotificationView,
    decoded: DecodedView,
)
    ensures
        payload.member("notification"@) is Some ==> event_of(
            "stream-notification"@,
            payload,
            DecodedView::Notification(notification),
        ) == Some(EventView::Notification(notification)),
        payload.member("notification"@) is None ==> event_of(
            "stream-notification"@,
            payload,
            decoded,
        ) is None,
        !(decoded is Notification) ==> event_of("stream-notification"@, payload, decoded) is None,
{
    lemma_names_differ();
}

/// Every message about the connection that names its state is an event with that state,
/// whatever was decoded. Without a state it is no event.
pub proof fn law_every_status_is_an_event(payload: Json, decoded: DecodedView)
    ensures
        payload.text_member("state"@) matches Some(s) ==> event_of(
            "stream-status"@,
            payload,
            decoded,
        ) == Some(EventView::Status { state: s }),
        payload.text_member("state"@) is None ==> event_of("stream-status"@, payload, decoded)
            is None,
{
    lemma_names_differ();
}

/// What a message carries is what stands in it under the key that its name calls for, as it
/// stands there, and nothing where that is missing or the name is unknown.
pub proof fn law_messages_carry_what_stands_in_them(name: Seq<char>, payload: Json)
    ensures
        payload.member("note"@) matches Some(note) ==> {
            &&& body_of("stream-mention"@, payload) == Some(BodyView::Mention(note))
            &&& payload.text_member("subscriptionId"@) matches Some(id) ==> body_of(
                "stream-note"@,
                payload,
            ) == Some(BodyView::Note { subscription_id: id, note })
            &&& payload.text_member("subscriptionId"@) is None ==> body_of(
                "stream-note"@,
                payload,
            ) is None
        },
        payload.member("note"@) is None ==> body_of("stream-mention"@, payload) is None && body_of(
            "stream-note"@,
            payload,
        ) is None,
        payload.member("notification"@) matches Some(n) ==> body_of("stream-notification"@, payload)
            == Some(BodyView::Notification(n)),
        payload.member("notification"@) is None ==> body_of("stream-notification"@, payload)
            is None,
        payload.text_member("state"@) matches Some(s) ==> body_of("stream-status"@, payload) == Some(
            BodyView::Status { state: s },
        ),
        payload.text_member("state"@) is None ==> body_of("stream-status"@, payload) is None,
        name != "stream-mention"@ && name != "stream-note"@ && name != "stream-notification"@ && name
            != "stream-status"@ ==> body_of(name, payload) is None,
{
    lemma_names_differ();
}

/// Events, what messages carry and what was decoded of them are seen as what they are.
pub proof fn law_events_are_seen_whole(
    event: Option<BotEvent>,
    body: EventBody<'_>,
    decoded: Decoded,
)
    ensures
        event is None ==> opt_event(event) is None,
        event matches Some(BotEvent::Mention(n)) ==> opt_event(event) == Some(
            EventView::Mention(n@),
        ),
        event matches Some(BotEvent::Note { subscription_id, note }) ==> opt_event(event) == Some(
            EventView::Note { subscription_id: subscription_id@, note: note@ },
        ),
        event matches Some(BotEvent::Notification(n)) ==> opt_event(event) == Some(
            EventView::Notification(n@),
        ),
        event matches Some(BotEvent::Status { state }) ==> opt_event(event) == Some(
            EventView::Status { state: state@ },
        ),
        body matches EventBody::Mention(n) ==> body@ == BodyView::Mention(json_view(*n)),
        body matches EventBody::Note { subscription_id, note } ==> body@ == (BodyView::Note {
            subscription_id: subscription_id@,
            note: json_view(*note),
        }),
        body matches EventBody::Notification(n) ==> body@ == BodyView::Notification(json_view(*n)),
        body matches EventBody::Status { state } ==> body@ == (BodyView::Status { state: state@ }),
        decoded matches Decoded::Note(n) ==> decoded@ == DecodedView::Note(n@),
        decoded matches Decoded::Notification(n) ==> decoded@ == DecodedView::Notification(n@),
        decoded is Nothing ==> decoded@ is Nothing,
{
}

/// A known id goes to the end, and the others keep their places before it.
pub proof fn law_known_id_goes_to_the_end(
    before: Seq<Seq<char>>,
    id: Seq<char>,
    after: Seq<Seq<char>>,
    cap: nat,
)
    requires
        (before.push(id) + after).no_duplicates(),
    ensures
        seen_after(before.push(id) + after, cap, id) == (before + after).push(id),
{
    let ids = before.push(id) + after;
    assert(ids[before.len() as int] == id);
    assert(ids.contains(id));
    let q = ids.index_of(id);
    assert(ids[q] == id);
    assert(q == before.len());
    assert(ids.remove(q) =~= before + after);
}

/// A new id goes to the end, and the known ones keep their places where there is room for it;
/// where there is none, the first of all goes.
pub proof fn law_new_id_goes_to_the_end(ids: Seq<Seq<char>>, cap: nat, id: Seq<char>)
    requires
        !ids.contains(id),
    ensures
        ids.len() < cap ==> seen_after(ids, cap, id) == ids.push(id),
        ids.len() >= cap ==> seen_after(ids, cap, id) == ids.push(id).skip(1),
{
    assert(ids.push(id).drop_first() =~= ids.push(id).skip(1));
}

/// What is known after some insertions and one more is what the last one makes of what was
/// known before it; without insertions nothing changes.
pub proof fn law_insertions_follow_each_other(
    ids: Seq<Seq<char>>,
    cap: nat,
    inserted: Seq<Seq<char>>,
    id: Seq<char>,
)
    ensures
        seen_after_all(ids, cap, Seq::empty()) == ids,
        seen_after_all(ids, cap, inserted.push(id)) == seen_after(
            seen_after_all(ids, cap, inserted),
            cap,
            id,
        ),
{
    assert(inserted.push(id).drop_last() =~= inserted);
}


} // verus!
