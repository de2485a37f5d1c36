//! What a command can fail with.

use vstd::prelude::*;

use crate::text::opt_string;

verus! {

/// Why a command failed: a mistake of the user's, told in a message, or a failure `E` of the
/// work that the command asked for.
#[derive(Debug, PartialEq, Eq)]
pub enum CommandError<E> {
    User { message: String, hint: Option<String> },
    Outside(E),
}

/// [`CommandError`] with its texts as sequences of characters.
pub enum CommandErrorView<E> {
    User { message: Seq<char>, hint: Option<Seq<char>> },
    Outside(E),
}

impl<E> View for CommandError<E> {
    type V = CommandErrorView<E>;

    open spec fn view(&self) -> CommandErrorView<E> {
        match *self {
            CommandError::User { message, hint } => CommandErrorView::User {
                message: message@,
                hint: opt_string(hint),
            },
            CommandError::Outside(e) => CommandErrorView::Outside(e),
        }
    }
}

/// How a command ended, with the texts of its error as sequences of characters.
pub open spec fn outcome_view<E>(outcome: Result<(), CommandError<E>>) -> Result<
    (),
    CommandErrorView<E>,
> {
    match outcome {
        Ok(_) => Ok(()),
        Err(e) => Err(e@),
    }
}

/// The error that tells the user `message` and nothing more.
pub open spec fn user_error_view<E>(message: Seq<char>) -> CommandErrorView<E> {
    CommandErrorView::User { message, hint: None }
}

/// An error that tells the user `message`.
pub fn user_error<E>(message: String) -> (e: CommandError<E>)
    ensures
        e@ == user_error_view::<E>(message@),
{
    CommandError::User { message, hint: None }
}

/// An error that tells the user `message` and hints at a way out.
pub fn user_error_with_hint<E>(message: String, hint: String) -> (e: CommandError<E>)
    ensures
        e@ == (CommandErrorView::<E>::User { message: message@, hint: Some(hint@) }),
{
    CommandError::User { message, hint: Some(hint) }
}

} // verus!
