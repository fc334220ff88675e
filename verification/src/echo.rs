//! A bot that sends back what it is told.

use vstd::prelude::*;
use vstd::string::*;

use crate::context::{
    reaction_of, reply_of, BotAccountView, CreateReaction, CreateReactionView, Ctx, Reply,
    ReplyView,
};
use crate::models::NoteView;
use crate::text::{
    chars_of, is_white_space, is_whitespace, law_trimming_start_takes_white_space_only,
    lemma_trimmed_start_is_clean, strip_prefix, trim_start, trimmed_start,
};

verus! {

/// `s` from its first white space on.
pub open spec fn after_word(s: Seq<char>) -> Seq<char>
    decreases s.len(),
{
    if s.len() > 0 && !is_white_space(s.first()) {
        after_word(s.drop_first())
    } else {
        s
    }
}

/// `s` without the mentions (`@user`, `@user@host`) and the white space at its beginning.
pub open spec fn without_mentions(s: Seq<char>) -> Seq<char>
    decreases s.len(),
{
    proof {
        lemma_trimmed_start_is_suffix(s);
        lemma_after_word_is_suffix(trimmed_start(s).drop_first());
    }
    if trimmed_start(s).len() > 0 && trimmed_start(s).first() == '@' {
        without_mentions(after_word(trimmed_start(s).drop_first()))
    } else {
        trimmed_start(s)
    }
}

/// Whether `t` is the end of `s`.
pub open spec fn is_suffix(t: Seq<char>, s: Seq<char>) -> bool {
    t.len() <= s.len() && t == s.skip(s.len() - t.len())
}

/// What is left is the end of the text.
pub proof fn lemma_trimmed_start_is_suffix(s: Seq<char>)
    ensures
        is_suffix(trimmed_start(s), s),
    decreases s.len(),
{
    if s.len() > 0 && is_white_space(s.first()) {
        let rest = s.drop_first();
        lemma_trimmed_start_is_suffix(rest);
        assert(rest.skip(rest.len() - trimmed_start(rest).len()) =~= s.skip(
            s.len() - trimmed_start(rest).len(),
        ));
    } else {
        assert(s.skip(0) =~= s);
    }
}

/// What is left is the end of the text.
pub proof fn lemma_after_word_is_suffix(s: Seq<char>)
    ensures
        is_suffix(after_word(s), s),
    decreases s.len(),
{
    if s.len() > 0 && !is_white_space(s.first()) {
        let rest = s.drop_first();
        lemma_after_word_is_suffix(rest);
        assert(rest.skip(rest.len() - after_word(rest).len()) =~= s.skip(
            s.len() - after_word(rest).len(),
        ));
    } else {
        assert(s.skip(0) =~= s);
    }
}

/// `s` from its first white space on.
fn skip_word<'a>(s: &'a str) -> (r: &'a str)
    ensures
        r@ == after_word(s@),
{
    let x = chars_of(s);
    let mut i: usize = 0;
    assert(s@.skip(0) == s@);
    while i < x.len() && !is_whitespace(x[i])
        invariant
            x@ == s@,
            i <= x.len(),
            after_word(s@.skip(i as int)) == after_word(s@),
        decreases x.len() - i,
    {
        assert(s@.skip(i as int).drop_first() == s@.skip(i + 1));
        i += 1;
    }
    assert(s@.skip(i as int) == s@.subrange(i as int, s@.len() as int));
    s.substring_char(i, x.len())
}

/// Takes the mentions (`@user`, `@user@host`) off the beginning of a text.
pub fn strip_leading_mentions<'a>(text: &'a str) -> (r: &'a str)
    ensures
        r@ == without_mentions(text@),
{
    let mut rest = trim_start(text);
    proof {
        lemma_trimming_start_twice(text@);
    }
    loop
        invariant
            without_mentions(rest@) == without_mentions(text@),
            trimmed_start(rest@) == rest@,
        decreases rest@.len(),
    {
        match strip_prefix(rest, '@') {
            None => {
                return rest;
            },
            Some(after) => {
                let tail = skip_word(after);
                rest = trim_start(tail);
                proof {
                    lemma_after_word_is_suffix(after@);
                    lemma_trimmed_start_is_suffix(tail@);
                    lemma_trimming_start_twice(tail@);
                }
            },
        }
    }
}

/// White space that is gone from the beginning stays gone.
proof fn lemma_trimming_start_twice(s: Seq<char>)
    ensures
        trimmed_start(trimmed_start(s)) == trimmed_start(s),
        without_mentions(trimmed_start(s)) == without_mentions(s),
    decreases s.len(),
{
    if s.len() > 0 && is_white_space(s.first()) {
        lemma_trimming_start_twice(s.drop_first());
    }
}

/// How the bot answers.
#[derive(Debug)]
pub enum Answer {
    React(CreateReaction),
    Reply(Reply),
}

pub enum AnswerView {
    React(CreateReactionView),
    Reply(ReplyView),
}

impl View for Answer {
    type V = AnswerView;

    open spec fn view(&self) -> AnswerView {
        match self {
            Answer::React(call) => AnswerView::React(call@),
            Answer::Reply(reply) => AnswerView::Reply(reply@),
        }
    }
}

/// What a note says to the bot; nothing where it has no text.
pub open spec fn message_of(note: NoteView) -> Seq<char> {
    match note.text {
        Some(text) => without_mentions(text),
        None => Seq::empty(),
    }
}

/// How the bot answers a note: with what it says, or by waving where it says nothing.
pub open spec fn answer_of(account: BotAccountView, note: NoteView) -> AnswerView {
    if message_of(note).len() == 0 {
        AnswerView::React(reaction_of(account, note, "👋"@))
    } else {
        AnswerView::Reply(reply_of(account, note, message_of(note)))
    }
}

/// The call by which the bot answers the note that it is called for.
pub fn echo<C>(ctx: &Ctx<C>) -> (r: Answer)
    ensures
        r@ == answer_of(ctx@.account, ctx@.note),
        r matches Answer::React(call) ==> call.note_id@ == ctx@.note.id && call.reaction@ == "👋"@,
{
    let body = match &ctx.note().text {
        Some(text) => strip_leading_mentions(text.as_str()),
        None => {
            return Answer::React(ctx.react("👋"));
        },
    };
    if body.is_empty() {
        Answer::React(ctx.react("👋"))
    } else {
        Answer::Reply(ctx.reply(body))
    }
}

/// What is left of a text is its end, and begins neither with a mention nor with white space.
pub proof fn law_no_mention_is_left(s: Seq<char>)
    ensures
        is_suffix(without_mentions(s), s),
        without_mentions(s).len() > 0 ==> without_mentions(s).first() != '@' && !is_white_space(
            without_mentions(s).first(),
        ),
    decreases s.len(),
{
    let start = trimmed_start(s);
    lemma_trimmed_start_is_suffix(s);
    lemma_trimmed_start_is_clean(s);
    if start.len() > 0 && start.first() == '@' {
        let after = start.drop_first();
        let tail = after_word(after);
        lemma_after_word_is_suffix(after);
        law_no_mention_is_left(tail);
        let left = without_mentions(s);
        assert(left == without_mentions(tail));
        assert(tail.skip(tail.len() - left.len()) =~= after.skip(after.len() - left.len()));
        assert(after.skip(after.len() - left.len()) =~= start.skip(start.len() - left.len()));
        assert(start.skip(start.len() - left.len()) =~= s.skip(s.len() - left.len()));
    }
}

/// A text that begins with neither is left as it is, so nothing more goes the second time.
pub proof fn law_plain_text_is_kept(s: Seq<char>)
    requires
        s.len() > 0 ==> s.first() != '@' && !is_white_space(s.first()),
    ensures
        without_mentions(s) == s,
{
}

/// A word without white space is passed over as a whole, up to the white space that follows it.
proof fn lemma_word_is_passed_over(word: Seq<char>, rest: Seq<char>)
    requires
        forall|i: int| 0 <= i < word.len() ==> !is_white_space(#[trigger] word[i]),
        rest.len() > 0 ==> is_white_space(rest[0]),
    ensures
        after_word(word + rest) == rest,
    decreases word.len(),
{
    if word.len() > 0 {
        assert(!is_white_space(word[0]));
        assert((word + rest).drop_first() =~= word.drop_first() + rest);
        assert forall|i: int| 0 <= i < word.drop_first().len() implies !is_white_space(
            #[trigger] word.drop_first()[i],
        ) by {
            assert(!is_white_space(word[i + 1]));
        }
        lemma_word_is_passed_over(word.drop_first(), rest);
    } else {
        assert(word + rest =~= rest);
    }
}

/// A mention at the beginning, with the white space before it, is taken off as a whole, up to
/// the white space that follows it; what is left is what is left of the rest.
pub proof fn law_leading_mention_is_taken_off(
    before: Seq<char>,
    name: Seq<char>,
    rest: Seq<char>,
)
    requires
        forall|i: int| 0 <= i < before.len() ==> is_white_space(#[trigger] before[i]),
        forall|i: int| 0 <= i < name.len() ==> !is_white_space(#[trigger] name[i]),
        rest.len() > 0 ==> is_white_space(rest[0]),
    ensures
        without_mentions(before + seq!['@'] + name + rest) == without_mentions(rest),
{
    let s = before + seq!['@'] + name + rest;
    let mention = seq!['@'] + name + rest;
    assert(s =~= before + mention);
    assert(mention[0] == '@');
    law_trimming_start_takes_white_space_only(before, mention);
    assert(mention.drop_first() =~= name + rest);
    lemma_word_is_passed_over(name, rest);
}

/// White space at the beginning is taken off, and a text behind it that is no mention is left
/// as it is, whatever it holds further on.
pub proof fn law_text_behind_white_space_is_kept(before: Seq<char>, text: Seq<char>)
    requires
        forall|i: int| 0 <= i < before.len() ==> is_white_space(#[trigger] before[i]),
        text.len() > 0 ==> text[0] != '@' && !is_white_space(text[0]),
    ensures
        without_mentions(before + text) == text,
{
    law_trimming_start_takes_white_space_only(before, text);
}

/// What is said behind the mention of the bot is sent back as it stands, in reply to the note;
/// so is what is said without a mention.
pub proof fn law_what_is_said_is_sent_back(
    account: BotAccountView,
    note: NoteView,
    name: Seq<char>,
    space: Seq<char>,
    said: Seq<char>,
)
    requires
        forall|i: int| 0 <= i < name.len() ==> !is_white_space(#[trigger] name[i]),
        forall|i: int| 0 <= i < space.len() ==> is_white_space(#[trigger] space[i]),
        space.len() > 0,
        said.len() > 0,
        said[0] != '@',
        !is_white_space(said[0]),
        note.text == Some(seq!['@'] + name + (space + said)) || note.text == Some(said),
    ensures
        answer_of(account, note) == AnswerView::Reply(reply_of(account, note, said)),
{
    let none = Seq::<char>::empty();
    assert(is_white_space(space[0]));
    assert((space + said)[0] == space[0]);
    law_leading_mention_is_taken_off(none, name, space + said);
    assert(none + seq!['@'] + name + (space + said) =~= seq!['@'] + name + (space + said));
    law_text_behind_white_space_is_kept(space, said);
    law_plain_text_is_kept(said);
}

/// A note that says nothing, or nothing behind the mention of the bot, is waved at: the
/// reaction is put on that note, from the account of the bot.
pub proof fn law_silence_is_waved_at(account: BotAccountView, note: NoteView, name: Seq<char>)
    requires
        forall|i: int| 0 <= i < name.len() ==> !is_white_space(#[trigger] name[i]),
        note.text is None || note.text == Some(seq!['@'] + name) || note.text == Some(
            Seq::<char>::empty(),
        ),
    ensures
        answer_of(account, note) matches AnswerView::React(call) && {
            &&& call.reaction == "👋"@
            &&& call.note_id == note.id
            &&& call.host == account.host
            &&& call.token == account.token
        },
{
    let none = Seq::<char>::empty();
    law_leading_mention_is_taken_off(none, name, none);
    assert(none + seq!['@'] + name + none =~= seq!['@'] + name);
    law_plain_text_is_kept(none);
}

/// Whatever a note says, it is answered with what is left of it behind its leading mentions,
/// or waved at where nothing is left.
pub proof fn law_answer_is_what_is_left(account: BotAccountView, note: NoteView, text: Seq<char>)
    requires
        note.text == Some(text),
    ensures
        without_mentions(text).len() > 0 ==> answer_of(account, note) == AnswerView::Reply(
            reply_of(account, note, without_mentions(text)),
        ),
        without_mentions(text).len() == 0 ==> answer_of(account, note) == AnswerView::React(
            reaction_of(account, note, "👋"@),
        ),
{
}

/// An answer is seen as what it is.
pub proof fn law_answer_is_seen_whole(answer: Answer)
    ensures
        answer matches Answer::React(call) ==> answer@ == AnswerView::React(call@),
        answer matches Answer::Reply(reply) ==> answer@ == AnswerView::Reply(reply@),
{
}


} // verus!
