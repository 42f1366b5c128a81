//! The errors that lexing, parsing and execution report.

use vstd::prelude::*;

verus! {

/// A failure of one stage of the pipeline, with a human-readable reason.
#[derive(Debug)]
pub enum DatabaseError {
    /// The input could not be turned into tokens or into a statement.
    ParseError(String),
    /// A storage operation was refused.
    StorageError(String),
    /// An execution failure that storage does not account for.
    VMError(String),
    /// A statement that matches no known form.
    InvalidQuery,
}

/// The mathematical value of a [`DatabaseError`].
pub enum ErrorView {
    ParseError(Seq<char>),
    StorageError(Seq<char>),
    VMError(Seq<char>),
    InvalidQuery,
}

impl ErrorView {
    /// The line of diagnostic text that stands for the error.
    pub open spec fn message(self) -> Seq<char> {
        match self {
            ErrorView::ParseError(reason) => "Parsing error: "@ + reason,
            ErrorView::StorageError(reason) => "Storage error: "@ + reason,
            ErrorView::VMError(reason) => "VM execution error: "@ + reason,
            ErrorView::InvalidQuery => "Invalid query"@,
        }
    }
}

impl View for DatabaseError {
    type V = ErrorView;

    open spec fn view(&self) -> ErrorView {
        match self {
            DatabaseError::ParseError(reason) => ErrorView::ParseError(reason@),
            DatabaseError::StorageError(reason) => ErrorView::StorageError(reason@),
            DatabaseError::VMError(reason) => ErrorView::VMError(reason@),
            DatabaseError::InvalidQuery => ErrorView::InvalidQuery,
        }
    }
}

impl DatabaseError {
    /// A parse error with the given reason.
    pub(crate) fn parse(reason: &str) -> (e: DatabaseError)
        ensures
            e@ == ErrorView::ParseError(reason@),
    {
        DatabaseError::ParseError(reason.to_string())
    }

    /// A storage error with the given reason.
    pub(crate) fn storage(reason: &str) -> (e: DatabaseError)
        ensures
            e@ == ErrorView::StorageError(reason@),
    {
        DatabaseError::StorageError(reason.to_string())
    }

    /// The line of diagnostic text that stands for the error.
    pub fn message(&self) -> (text: String)
        ensures
            text@ == self@.message(),
    {
        match self {
            DatabaseError::ParseError(reason) => "Parsing error: ".to_string().concat(reason.as_str()),
            DatabaseError::StorageError(reason) => "Storage error: ".to_string().concat(reason.as_str()),
            DatabaseError::VMError(reason) => "VM execution error: ".to_string().concat(
                reason.as_str(),
            ),
            DatabaseError::InvalidQuery => "Invalid query".to_string(),
        }
    }
}

/// The items `done`, followed by the items that `rest` holds; or the error
/// that `rest` holds.
pub open spec fn followed_by<T>(done: Seq<T>, rest: Result<Seq<T>, ErrorView>) -> Result<
    Seq<T>,
    ErrorView,
> {
    match rest {
        Ok(items) => Ok(done + items),
        Err(e) => Err(e),
    }
}

/// An item may be handed over before or after the rest is computed.
pub proof fn lemma_followed_by_push<T>(done: Seq<T>, item: T, rest: Result<Seq<T>, ErrorView>)
    ensures
        followed_by(done, followed_by(seq![item], rest)) == followed_by(done.push(item), rest),
{
    if let Ok(items) = rest {
        assert(done + (seq![item] + items) =~= done.push(item) + items);
    }
}

/// Nothing more to come leaves the items as they are.
pub proof fn lemma_followed_by_nothing<T>(done: Seq<T>)
    ensures
        followed_by(done, Ok(Seq::empty())) == Ok::<Seq<T>, ErrorView>(done),
{
    assert(done + Seq::<T>::empty() =~= done);
}

} // verus!
