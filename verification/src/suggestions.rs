use vstd::prelude::*;
use vstd::string::StringExecFns;

use crate::models::{NewSuggestion, Suggestion};
use crate::table::{
    find_by, lemma_find_by_at, lemma_find_by_none, lemma_find_by_some, lemma_remove_by_absent,
    lemma_remove_by_at, no_key, remove_by, unique_keys,
};
use crate::text::str_eq;

verus! {

/// The key column of the suggestions table.
pub open spec fn suggestion_id_key() -> spec_fn(Suggestion) -> int {
    |s: Suggestion| s.suggestion_id as int
}

/// The announcement-message column of the suggestions table, unique across
/// live rows.
pub open spec fn suggestion_message_key() -> spec_fn(Suggestion) -> int {
    |s: Suggestion| s.suggestion_message_id as int
}

/// The reaction that withdraws a suggestion.
pub open spec fn cancel_marker() -> Seq<char> {
    "\u{274c}"@
}

/// The footer appended to every announcement, naming the two voting markers.
pub open spec fn vote_footer() -> Seq<char> {
    "\n\nPlease vote on this suggestion using \u{2665}\u{fe0f} and \u{2660}\u{fe0f}"@
}

/// What a cancel-marker reaction asks the caller to do. The announcement
/// message must be deleted first; only once that deletion succeeded may the
/// record be removed, so a failed deletion never orphans the announcement.
#[derive(Clone, Copy, PartialEq, Eq, Structural, Debug)]
pub enum ReactionOutcome {
    /// Not the cancel marker, no matching record, or not the author.
    Ignore,
    /// Delete the announcement message, then remove this record.
    CancelSuggestion { suggestion_id: i32 },
}

/// The decision taken for a reaction-add event: a cancel marker placed by
/// the recorded author on a recorded announcement message withdraws that
/// suggestion; everything else is ignored.
pub open spec fn reaction_decision(rows: Seq<Suggestion>, emoji: Seq<char>, message_id: int,
    user_id: int) -> ReactionOutcome {
    if emoji != cancel_marker() {
        ReactionOutcome::Ignore
    } else {
        match find_by(rows, suggestion_message_key(), message_id) {
            None => ReactionOutcome::Ignore,
            Some(s) => if s.suggestion_author_id != user_id {
                ReactionOutcome::Ignore
            } else {
                (ReactionOutcome::CancelSuggestion { suggestion_id: s.suggestion_id })
            },
        }
    }
}

/// An announcement to post for a new suggestion.
pub struct Announcement {
    pub channel_id: u64,
    pub title: String,
    pub description: String,
    pub reactions: Vec<String>,
}

/// Why a suggestion submission was rejected.
#[derive(Clone, Copy, PartialEq, Eq, Structural, Debug)]
pub enum SubmitError {
    /// The current server has no channel named "suggestions".
    ChannelNotFound,
}

/// The suggestions table: rows in insertion order, with the identifier the
/// store will assign next.
pub struct SuggestionStore {
    rows: Vec<Suggestion>,
    next_id: i32,
}

impl SuggestionStore {
    /// The rows currently held, in insertion order.
    pub closed spec fn rows(&self) -> Seq<Suggestion> {
        self.rows@
    }

    /// The identifier the store assigns to the next inserted row.
    pub closed spec fn next_id(&self) -> int {
        self.next_id as int
    }

    /// Identifiers are strictly increasing in insertion order, positive and
    /// below the next free identifier; at most one live row exists per
    /// announcement-message identifier; every date is a calendar date.
    pub open spec fn wf(&self) -> bool {
        &&& 1 <= self.next_id() <= i32::MAX
        &&& forall|i: int, j: int|
            0 <= i < j < self.rows().len() ==> (#[trigger] self.rows()[i]).suggestion_id < (
            #[trigger] self.rows()[j]).suggestion_id
        &&& forall|i: int|
            0 <= i < self.rows().len() ==> 1 <= (#[trigger] self.rows()[i]).suggestion_id
                < self.next_id()
        &&& forall|i: int, j: int|
            0 <= i < j < self.rows().len() ==> (#[trigger] self.rows()[i]).suggestion_message_id
                != (#[trigger] self.rows()[j]).suggestion_message_id
        &&& forall|i: int|
            0 <= i < self.rows().len() ==> (#[trigger] self.rows()[i]).suggestion_date.wf()
    }

    /// Some row carries this identifier.
    pub open spec fn has_id(&self, id: int) -> bool {
        exists|i: int|
            0 <= i < self.rows().len() && (#[trigger] self.rows()[i]).suggestion_id == id
    }

    /// Some row is tied to this announcement message.
    pub open spec fn has_message(&self, message_id: int) -> bool {
        exists|i: int|
            0 <= i < self.rows().len() && (#[trigger] self.rows()[i]).suggestion_message_id
                == message_id
    }

    /// A well-formed store has unique identifiers and unique announcement
    /// messages.
    pub proof fn lemma_wf_unique(&self)
        requires
            self.wf(),
        ensures
            unique_keys(self.rows(), suggestion_id_key()),
            unique_keys(self.rows(), suggestion_message_key()),
    {
    }

    /// How many rows the store holds.
    pub fn len(&self) -> (n: usize)
        ensures
            n == self.rows().len(),
    {
        self.rows.len()
    }

    /// Reads the identifier the store assigns next.
    pub fn next_id_val(&self) -> (n: i32)
        ensures
            n == self.next_id(),
    {
        self.next_id
    }

    /// Reads one row.
    pub fn row(&self, i: usize) -> (r: &Suggestion)
        requires
            i < self.rows().len(),
        ensures
            *r == self.rows()[i as int],
    {
        &self.rows[i]
    }

    /// An empty store.
    pub fn new() -> (s: Self)
        ensures
            s.wf(),
            s.rows() =~= Seq::<Suggestion>::empty(),
            s.next_id() == 1,
    {
        SuggestionStore { rows: Vec::new(), next_id: 1 }
    }

    /// The position of the first row with this identifier, if any.
    fn index_of_id(&self, id: i32) -> (r: Option<usize>)
        ensures
            match r {
                Some(i) => i < self.rows().len() && self.rows()[i as int].suggestion_id == id
                    && forall|k: int|
                    0 <= k < i ==> (#[trigger] self.rows()[k]).suggestion_id != id,
                None => forall|k: int|
                    0 <= k < self.rows().len() ==> (#[trigger] self.rows()[k]).suggestion_id
                        != id,
            },
    {
        let mut i: usize = 0;
        while i < self.rows.len()
            invariant
                i <= self.rows().len(),
                forall|k: int| 0 <= k < i ==> (#[trigger] self.rows()[k]).suggestion_id != id,
            decreases self.rows().len() - i,
        {
            if self.rows[i].suggestion_id == id {
                return Some(i);
            }
            i += 1;
        }
        None
    }

    /// The position of the first row tied to this announcement message.
    fn index_of_message(&self, message_id: i64) -> (r: Option<usize>)
        ensures
            match r {
                Some(i) => i < self.rows().len()
                    && self.rows()[i as int].suggestion_message_id == message_id && forall|
                    k: int,
                |
                    0 <= k < i ==> (#[trigger] self.rows()[k]).suggestion_message_id
                        != message_id,
                None => forall|k: int|
                    0 <= k < self.rows().len() ==> (
                    #[trigger] self.rows()[k]).suggestion_message_id != message_id,
            },
    {
        let mut i: usize = 0;
        while i < self.rows.len()
            invariant
                i <= self.rows().len(),
                forall|k: int|
                    0 <= k < i ==> (#[trigger] self.rows()[k]).suggestion_message_id
                        != message_id,
            decreases self.rows().len() - i,
        {
            if self.rows[i].suggestion_message_id == message_id {
                return Some(i);
            }
            i += 1;
        }
        None
    }

    /// Inserts a new suggestion under the next free identifier. The caller
    /// hands a fresh announcement message, so the one-row-per-announcement
    /// invariant is kept.
    pub fn create_suggestion(&mut self, new_suggestion: NewSuggestion)
        requires
            old(self).wf(),
            old(self).next_id() < i32::MAX,
            !old(self).has_message(new_suggestion.suggestion_message_id as int),
            new_suggestion.suggestion_date.wf(),
        ensures
            final(self).wf(),
            final(self).rows() == old(self).rows().push(
                (Suggestion {
                    suggestion_id: old(self).next_id() as i32,
                    suggestion_text: new_suggestion.suggestion_text,
                    suggestion_date: new_suggestion.suggestion_date,
                    suggestion_author_id: new_suggestion.suggestion_author_id,
                    suggestion_message_id: new_suggestion.suggestion_message_id,
                }),
            ),
            final(self).next_id() == old(self).next_id() + 1,
    {
        let s = Suggestion {
            suggestion_id: self.next_id,
            suggestion_text: new_suggestion.suggestion_text,
            suggestion_date: new_suggestion.suggestion_date,
            suggestion_author_id: new_suggestion.suggestion_author_id,
            suggestion_message_id: new_suggestion.suggestion_message_id,
        };
        self.rows.push(s);
        self.next_id = self.next_id + 1;
        proof {
            assert(forall|i: int|
                0 <= i < old(self).rows().len() ==> #[trigger] self.rows()[i] == old(
                self).rows()[i]);
            assert(self.rows()[old(self).rows().len() as int].suggestion_id == old(
                self).next_id());
        }
    }

    /// Reloads one persisted row, oldest first: the row keeps the identifier
    /// the store once assigned, and the next free identifier moves past it.
    pub fn restore_suggestion(&mut self, row: Suggestion)
        requires
            old(self).wf(),
            old(self).next_id() <= row.suggestion_id < i32::MAX,
            !old(self).has_message(row.suggestion_message_id as int),
            row.suggestion_date.wf(),
        ensures
            final(self).wf(),
            final(self).rows() == old(self).rows().push(row),
            final(self).next_id() == row.suggestion_id + 1,
    {
        self.next_id = row.suggestion_id + 1;
        self.rows.push(row);
        proof {
            assert(forall|i: int|
                0 <= i < old(self).rows().len() ==> #[trigger] self.rows()[i] == old(
                self).rows()[i]);
            assert(self.rows()[old(self).rows().len() as int] == row);
        }
    }

    /// Looks a suggestion up by the announcement message it is tied to.
    pub fn get_suggestion_by_message_id(&self, message_id: i64) -> (r: Option<&Suggestion>)
        requires
            self.wf(),
        ensures
            match r {
                Some(s) => find_by(self.rows(), suggestion_message_key(), message_id as int)
                    == Some(*s),
                None => find_by(self.rows(), suggestion_message_key(), message_id as int)
                    is None,
            },
    {
        match self.index_of_message(message_id) {
            Some(i) => {
                proof {
                    lemma_find_by_at(self.rows(), suggestion_message_key(), message_id as int,
                        i as int);
                }
                Some(&self.rows[i])
            },
            None => {
                proof {
                    lemma_find_by_none(self.rows(), suggestion_message_key(),
                        message_id as int);
                }
                None
            },
        }
    }

    /// Deletes the record with this identifier regardless of reactions, for
    /// operator cleanup; reports whether one existed. A missing identifier
    /// performs no deletion and leaves the store untouched.
    pub fn remove_by_id(&mut self, id: i32) -> (existed: bool)
        requires
            old(self).wf(),
        ensures
            final(self).wf(),
            existed == old(self).has_id(id as int),
            final(self).rows() == remove_by(old(self).rows(), suggestion_id_key(), id as int),
            !existed ==> final(self).rows() == old(self).rows(),
            final(self).next_id() == old(self).next_id(),
            !final(self).has_id(id as int),
    {
        match self.index_of_id(id) {
            Some(i) => {
                proof {
                    lemma_remove_by_at(self.rows(), suggestion_id_key(), id as int, i as int);
                }
                self.rows.remove(i);
                proof {
                    assert forall|k: int| 0 <= k < self.rows().len() implies (
                    #[trigger] self.rows()[k]).suggestion_id != id by {
                        if k < i {
                        } else {
                            assert(self.rows()[k] == old(self).rows()[k + 1]);
                        }
                    }
                }
                true
            },
            None => {
                proof {
                    lemma_remove_by_absent(self.rows(), suggestion_id_key(), id as int);
                }
                false
            },
        }
    }

    /// Deletes a record known to exist, as the reaction handler does after
    /// the announcement message was successfully deleted.
    pub fn delete_suggestion(&mut self, suggestion_id: i32)
        requires
            old(self).wf(),
            old(self).has_id(suggestion_id as int),
        ensures
            final(self).wf(),
            final(self).rows() == remove_by(old(self).rows(), suggestion_id_key(),
                suggestion_id as int),
            final(self).next_id() == old(self).next_id(),
            !final(self).has_id(suggestion_id as int),
    {
        let _ = self.remove_by_id(suggestion_id);
    }

    /// Decides what a reaction-add event asks for. The caller performs the
    /// announcement deletion first and removes the record only afterwards.
    pub fn handle_reaction_add(&self, emoji: &str, message_id: i64, user_id: i64)
        -> (o: ReactionOutcome)
        requires
            self.wf(),
        ensures
            o == reaction_decision(self.rows(), emoji@, message_id as int, user_id as int),
    {
        if !is_cancel_marker(emoji) {
            return ReactionOutcome::Ignore;
        }
        match self.index_of_message(message_id) {
            None => {
                proof {
                    lemma_find_by_none(self.rows(), suggestion_message_key(),
                        message_id as int);
                }
                ReactionOutcome::Ignore
            },
            Some(i) => {
                proof {
                    lemma_find_by_at(self.rows(), suggestion_message_key(), message_id as int,
                        i as int);
                }
                if self.rows[i].suggestion_author_id != user_id {
                    ReactionOutcome::Ignore
                } else {
                    ReactionOutcome::CancelSuggestion {
                        suggestion_id: self.rows[i].suggestion_id,
                    }
                }
            },
        }
    }
}

/// Whether a reaction is the cancel marker; every other reaction is ignored
/// without touching the store.
pub fn is_cancel_marker(emoji: &str) -> (r: bool)
    ensures
        r == (emoji@ == cancel_marker()),
{
    str_eq(emoji, "\u{274c}")
}

/// Builds the announcement for a new suggestion: posted to the resolved
/// "suggestions" channel, titled, carrying the body and the voting footer,
/// and decorated with the two voting reaction markers. Fails exactly when no
/// such channel was resolved.
pub fn submit(suggestions_channel: Option<u64>, body: &str) -> (r: Result<
    Announcement,
    SubmitError,
>)
    ensures
        match r {
            Ok(a) => {
                &&& suggestions_channel is Some
                &&& a.channel_id == suggestions_channel->Some_0
                &&& a.title@ == "New suggestion"@
                &&& a.description@ == body@ + vote_footer()
                &&& a.reactions.deep_view() =~= seq!["\u{2665}\u{fe0f}"@, "\u{2660}\u{fe0f}"@]
            },
            Err(e) => suggestions_channel is None && e == SubmitError::ChannelNotFound,
        },
{
    match suggestions_channel {
        None => Err(SubmitError::ChannelNotFound),
        Some(channel_id) => {
            let mut title = String::new();
            title.append("New suggestion");
            proof {
                assert(title@ =~= "New suggestion"@);
            }
            let mut description = String::new();
            description.append(body);
            description.append(
                "\n\nPlease vote on this suggestion using \u{2665}\u{fe0f} and \u{2660}\u{fe0f}",
            );
            let mut reactions: Vec<String> = Vec::new();
            let mut hearts = String::new();
            hearts.append("\u{2665}\u{fe0f}");
            let mut spades = String::new();
            spades.append("\u{2660}\u{fe0f}");
            reactions.push(hearts);
            reactions.push(spades);
            proof {
                assert(reactions.deep_view() =~= seq![
                    "\u{2665}\u{fe0f}"@,
                    "\u{2660}\u{fe0f}"@,
                ]);
            }
            Ok(Announcement { channel_id, title, description, reactions })
        },
    }
}

/// The ephemeral reply confirming a created suggestion, carrying the link to
/// the announcement.
pub fn submit_reply(message_link: &str) -> (r: String)
    ensures
        r@ == "Successfully created suggestion!\n\n"@ + message_link@,
{
    let mut s = String::new();
    s.append("Successfully created suggestion!\n\n");
    s.append(message_link);
    s
}

/// Law: a removal by an identifier that no row carries reports that nothing
/// existed and performs no deletion.
pub proof fn lemma_remove_absent_is_noop(rows: Seq<Suggestion>, id: int)
    requires
        no_key(rows, suggestion_id_key(), id),
    ensures
        remove_by(rows, suggestion_id_key(), id) == rows,
{
    lemma_remove_by_absent(rows, suggestion_id_key(), id);
}

/// Law: a cancel-marker reaction from anyone but the recorded author of the
/// suggestion is ignored, so the record and the announcement stay untouched.
pub proof fn lemma_cancel_by_non_author_ignored(rows: Seq<Suggestion>, message_id: int,
    user_id: int)
    requires
        match find_by(rows, suggestion_message_key(), message_id) {
            Some(s) => s.suggestion_author_id != user_id,
            None => true,
        },
    ensures
        reaction_decision(rows, cancel_marker(), message_id, user_id)
            == ReactionOutcome::Ignore,
{
}

/// Law: a cancel-marker reaction from the recorded author withdraws exactly
/// one record — the store shrinks by one row — and an identical second
/// reaction after the removal is ignored.
pub proof fn lemma_cancel_by_author_once(rows: Seq<Suggestion>, message_id: int, user_id: int)
    requires
        unique_keys(rows, suggestion_id_key()),
        unique_keys(rows, suggestion_message_key()),
        find_by(rows, suggestion_message_key(), message_id) is Some,
        find_by(rows, suggestion_message_key(), message_id)->Some_0.suggestion_author_id
            == user_id,
    ensures
        ({
            let s = find_by(rows, suggestion_message_key(), message_id)->Some_0;
            let removed = remove_by(rows, suggestion_id_key(), s.suggestion_id as int);
            &&& reaction_decision(rows, cancel_marker(), message_id, user_id) == (
            ReactionOutcome::CancelSuggestion { suggestion_id: s.suggestion_id })
            &&& removed.len() == rows.len() - 1
            &&& reaction_decision(removed, cancel_marker(), message_id, user_id)
                == ReactionOutcome::Ignore
        }),
{
    let s = find_by(rows, suggestion_message_key(), message_id)->Some_0;
    lemma_find_by_some(rows, suggestion_message_key(), message_id);
    let i = choose|i: int|
        0 <= i < rows.len() && #[trigger] rows[i] == s && suggestion_message_key()(rows[i])
            == message_id;
    assert forall|k: int| 0 <= k < i implies suggestion_id_key()(#[trigger] rows[k])
        != s.suggestion_id as int by {
        assert(suggestion_id_key()(rows[k]) != suggestion_id_key()(rows[i]));
    }
    lemma_remove_by_at(rows, suggestion_id_key(), s.suggestion_id as int, i);
    let removed = rows.remove(i);
    assert forall|k: int| 0 <= k < removed.len() implies suggestion_message_key()(
    #[trigger] removed[k]) != message_id by {
        if k < i {
            assert(removed[k] == rows[k]);
            assert(suggestion_message_key()(rows[k]) != suggestion_message_key()(rows[i]));
        } else {
            assert(removed[k] == rows[k + 1]);
            assert(suggestion_message_key()(rows[k + 1]) != suggestion_message_key()(rows[i]));
        }
    }
    lemma_find_by_none(removed, suggestion_message_key(), message_id);
}

} // verus!
