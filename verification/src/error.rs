//! Errors of the database layer and the text of an error with its causes.

use vstd::prelude::*;

verus! {

/// Why a database operation failed.
#[derive(Debug, Clone, PartialEq, Eq)]
pub enum DatabaseError {
    /// The data is not valid; the text says why.
    ValidationError(String),
    /// Anything else; the text is that of the underlying error.
    UnexpectedError(String),
}

/// What a database error says: the text that it holds. An unexpected error
/// reads as the underlying error does.
pub open spec fn database_error_message(error: DatabaseError) -> Seq<char> {
    match error {
        DatabaseError::ValidationError(text) => text@,
        DatabaseError::UnexpectedError(text) => text@,
    }
}

impl DatabaseError {
    /// What the error says.
    pub fn to_string(&self) -> (text: String)
        ensures
            text@ == database_error_message(*self),
    {
        match self {
            DatabaseError::ValidationError(text) => text.clone(),
            DatabaseError::UnexpectedError(text) => text.clone(),
        }
    }
}

/// The database error for an underlying error with the text `error`.
pub fn db_error(error: String) -> (wrapped: DatabaseError)
    ensures
        wrapped == DatabaseError::UnexpectedError(error),
        database_error_message(wrapped) == error@,
{
    DatabaseError::UnexpectedError(error)
}

/// The lines that name the causes of an error, each as `Caused by:`, a line
/// break, a tab, the cause and a line break.
pub open spec fn causes_text(causes: Seq<String>) -> Seq<char>
    decreases causes.len(),
{
    if causes.len() == 0 {
        Seq::empty()
    } else {
        causes_text(causes.drop_last()) + "Caused by:\n\t"@ + causes.last()@ + "\n"@
    }
}

/// The text of an error with its chain of causes: the error, an empty line,
/// and then each cause from the nearest to the root.
pub open spec fn error_chain_text(error: Seq<char>, causes: Seq<String>) -> Seq<char> {
    error + "\n\n"@ + causes_text(causes)
}

/// Writes an error with its chain of causes: the error, an empty line, and
/// then for each cause, from the nearest to the root, `Caused by:` and the
/// cause on a line of its own behind a tab.
pub fn error_chain_fmt_impl(error: &str, causes: &Vec<String>) -> (text: String)
    ensures
        text@ == error_chain_text(error@, causes@),
{
    let mut text = error.to_owned();
    text.append("\n\n");
    let mut i: usize = 0;
    while i < causes.len()
        invariant
            i <= causes.len(),
            text@ == error@ + "\n\n"@ + causes_text(causes@.take(i as int)),
        decreases causes.len() - i,
    {
        assert(causes@.take(i + 1).drop_last() == causes@.take(i as int));
        assert(causes@.take(i + 1).last() == causes@[i as int]);
        text.append("Caused by:\n\t");
        text.append(causes[i].as_str());
        text.append("\n");
        assert(text@ == error@ + "\n\n"@ + causes_text(causes@.take(i + 1)));
        i += 1;
    }
    assert(causes@.take(causes.len() as int) == causes@);
    text
}

} // verus!
