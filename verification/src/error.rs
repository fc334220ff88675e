//! What can go wrong while a bot is set up or answers.

use vstd::prelude::*;
use vstd::string::*;

verus! {

/// An error of the bot.
#[derive(Debug)]
pub enum NotebotError {
    /// The Misskey client failed; its own message.
    Core(String),
    /// No account answers to what was asked for.
    AccountNotFound(String),
    /// The server answered something else than its API promises.
    UnexpectedResponse(String),
    /// The environment is set up wrongly.
    Config(String),
}

/// An error of the bot, as a mathematical value.
pub enum ErrorView {
    Core(Seq<char>),
    AccountNotFound(Seq<char>),
    UnexpectedResponse(Seq<char>),
    Config(Seq<char>),
}

impl View for NotebotError {
    type V = ErrorView;

    open spec fn view(&self) -> ErrorView {
        match self {
            NotebotError::Core(s) => ErrorView::Core(s@),
            NotebotError::AccountNotFound(s) => ErrorView::AccountNotFound(s@),
            NotebotError::UnexpectedResponse(s) => ErrorView::UnexpectedResponse(s@),
            NotebotError::Config(s) => ErrorView::Config(s@),
        }
    }
}

impl ErrorView {
    /// The message that a person reads.
    pub open spec fn message(self) -> Seq<char> {
        match self {
            ErrorView::Core(s) => s,
            ErrorView::AccountNotFound(s) => "account not found: "@ + s,
            ErrorView::UnexpectedResponse(s) => "unexpected API response: "@ + s,
            ErrorView::Config(s) => s,
        }
    }
}

impl NotebotError {
    /// The message that a person reads.
    pub fn message(&self) -> (r: String)
        ensures
            r@ == self@.message(),
    {
        match self {
            NotebotError::Core(s) => s.clone(),
            NotebotError::AccountNotFound(s) => "account not found: ".to_string().concat(s.as_str()),
            NotebotError::UnexpectedResponse(s) => {
                "unexpected API response: ".to_string().concat(s.as_str())
            },
            NotebotError::Config(s) => s.clone(),
        }
    }
}

// ---------------------------------------------------------------------------
// Laws.

/// An error is seen as what it is, with all that it says.
pub proof fn law_error_is_seen_whole(e: NotebotError)
    ensures
        e matches NotebotError::Core(s) ==> e@ == ErrorView::Core(s@),
        e matches NotebotError::AccountNotFound(s) ==> e@ == ErrorView::AccountNotFound(s@),
        e matches NotebotError::UnexpectedResponse(s) ==> e@ == ErrorView::UnexpectedResponse(s@),
        e matches NotebotError::Config(s) ==> e@ == ErrorView::Config(s@),
{
}

/// A message ends with all that the error says, and says before it what was not found or what
/// was unexpected; an error of the client or of the settings speaks for itself.
pub proof fn law_message_says_all(s: Seq<char>)
    ensures
        ErrorView::Core(s).message() == s,
        ErrorView::Config(s).message() == s,
        ErrorView::AccountNotFound(s).message() == "account not found: "@ + s,
        ErrorView::UnexpectedResponse(s).message() == "unexpected API response: "@ + s,
{
}


} // verus!
