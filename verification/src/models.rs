use vstd::prelude::*;

use crate::clock::DateStamp;

verus! {

/// A stored quote row.
pub struct Quote {
    pub quote_id: i32,
    pub message: String,
    pub quote_author_id: i64,
    pub quote_author: String,
    pub date: DateStamp,
}

/// The fields of a quote row before the store assigns its identifier.
pub struct NewQuote {
    pub message: String,
    pub quote_author_id: i64,
    pub quote_author: String,
    pub date: DateStamp,
}

/// A stored tally row.
pub struct Can {
    pub can_id: i32,
    pub user_id: i64,
    pub user: String,
    pub date: DateStamp,
}

/// The fields of a tally row before the store assigns its identifier.
pub struct NewCan {
    pub user_id: i64,
    pub user: String,
    pub date: DateStamp,
}

/// A stored suggestion row, tied to its announcement message.
pub struct Suggestion {
    pub suggestion_id: i32,
    pub suggestion_text: String,
    pub suggestion_date: DateStamp,
    pub suggestion_author_id: i64,
    pub suggestion_message_id: i64,
}

/// The fields of a suggestion row before the store assigns its identifier.
pub struct NewSuggestion {
    pub suggestion_text: String,
    pub suggestion_date: DateStamp,
    pub suggestion_author_id: i64,
    pub suggestion_message_id: i64,
}

} // verus!
