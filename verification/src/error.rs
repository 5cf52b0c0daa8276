//! Why a request to the cache fails.
use vstd::prelude::*;

verus! {

/// Why a request to the cache fails. A failure of a store holds the text that
/// the store's client gave for it.
#[derive(Debug, PartialEq, Eq)]
pub enum CacheError {
    Redis(String),
    Database(String),
    NotFound(String),
    Serialization(String),
}

/// What a `CacheError` stands for.
pub enum CacheErrorView {
    Redis(Seq<char>),
    Database(Seq<char>),
    NotFound(Seq<char>),
    Serialization(Seq<char>),
}

impl View for CacheError {
    type V = CacheErrorView;

    open spec fn view(&self) -> CacheErrorView {
        match self {
            CacheError::Redis(text) => CacheErrorView::Redis(text@),
            CacheError::Database(text) => CacheErrorView::Database(text@),
            CacheError::NotFound(key) => CacheErrorView::NotFound(key@),
            CacheError::Serialization(text) => CacheErrorView::Serialization(text@),
        }
    }
}

impl CacheErrorView {
    /// The line that tells a reader what went wrong.
    pub open spec fn message(self) -> Seq<char> {
        match self {
            CacheErrorView::Redis(text) => "Redis error: "@ + text,
            CacheErrorView::Database(text) => "Database error: "@ + text,
            CacheErrorView::NotFound(key) => "Item not found: "@ + key,
            CacheErrorView::Serialization(text) => "Serialization error: "@ + text,
        }
    }
}

/// `prefix` followed by `rest`.
pub(crate) fn join(prefix: &str, rest: &str) -> (text: String)
    ensures
        text@ == prefix@ + rest@,
{
    let mut text: String = prefix.to_owned();
    text.append(rest);
    text
}

impl CacheError {
    /// The line that tells a reader what went wrong.
    pub fn message(&self) -> (text: String)
        ensures
            text@ == self@.message(),
    {
        match self {
            CacheError::Redis(text) => join("Redis error: ", text.as_str()),
            CacheError::Database(text) => join("Database error: ", text.as_str()),
            CacheError::NotFound(key) => join("Item not found: ", key.as_str()),
            CacheError::Serialization(text) => join("Serialization error: ", text.as_str()),
        }
    }
}

/// What a result stands for whose success carries no value.
pub open spec fn done_view(result: Result<(), CacheError>) -> Result<(), CacheErrorView> {
    match result {
        Ok(()) => Ok(()),
        Err(e) => Err(e@),
    }
}

/// What a result stands for whose success carries bytes.
pub open spec fn data_view(result: Result<Vec<u8>, CacheError>) -> Result<
    Seq<u8>,
    CacheErrorView,
> {
    match result {
        Ok(data) => Ok(data@),
        Err(e) => Err(e@),
    }
}

/// An error keeps its kind, and the text or the key that it was made with, whole.
pub proof fn law_errors_keep_their_text(error: CacheError)
    ensures
        match error {
            CacheError::Redis(text) => error@ == CacheErrorView::Redis(text@),
            CacheError::Database(text) => error@ == CacheErrorView::Database(text@),
            CacheError::NotFound(key) => error@ == CacheErrorView::NotFound(key@),
            CacheError::Serialization(text) => error@ == CacheErrorView::Serialization(text@),
        },
{
}

/// A message begins with the words for its kind and ends with the whole text or
/// key, and nothing stands between them.
pub proof fn law_messages_end_with_their_text(error: &CacheError, message: String)
    requires
        call_ensures(CacheError::message, (error,), message),
    ensures
        match error {
            CacheError::Redis(text) => message@ == "Redis error: "@ + text@,
            CacheError::Database(text) => message@ == "Database error: "@ + text@,
            CacheError::NotFound(key) => message@ == "Item not found: "@ + key@,
            CacheError::Serialization(text) => message@ == "Serialization error: "@ + text@,
        },
{
}

} // verus!
