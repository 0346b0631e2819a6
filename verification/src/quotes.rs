use vstd::prelude::*;
use vstd::string::StringExecFns;

use crate::clock::{format_mdy, mdy_str, DateStamp};
use crate::models::{NewQuote, Quote};
use crate::random::roll_range;
use crate::table::{
    find_by, lemma_find_by_at, lemma_find_by_none, lemma_find_by_some, lemma_remove_by_absent,
    lemma_remove_by_at, remove_by, unique_keys,
};
use crate::text::{dec_str, u64_string};

verus! {

/// The key column of the quotes table.
pub open spec fn quote_key() -> spec_fn(Quote) -> int {
    |q: Quote| q.quote_id as int
}

/// The reply line for a displayed quote: the text in quotation marks, the
/// quoted author, and the date.
pub open spec fn quote_line(q: Quote) -> Seq<char> {
    "\""@ + q.message@ + "\" - "@ + q.quote_author@ + ", "@ + mdy_str(q.date)
}

/// The quotes table: rows in insertion order, with the identifier the store
/// will assign next.
pub struct QuoteStore {
    rows: Vec<Quote>,
    next_id: i32,
}

impl QuoteStore {
    /// The rows currently held, in insertion order.
    pub closed spec fn rows(&self) -> Seq<Quote> {
        self.rows@
    }

    /// The identifier the store assigns to the next inserted row.
    pub closed spec fn next_id(&self) -> int {
        self.next_id as int
    }

    /// Identifiers are strictly increasing in insertion order, positive,
    /// below the next free identifier, and every date is a calendar date.
    pub open spec fn wf(&self) -> bool {
        &&& 1 <= self.next_id() <= i32::MAX
        &&& forall|i: int, j: int|
            0 <= i < j < self.rows().len() ==> (#[trigger] self.rows()[i]).quote_id < (
            #[trigger] self.rows()[j]).quote_id
        &&& forall|i: int|
            0 <= i < self.rows().len() ==> 1 <= (#[trigger] self.rows()[i]).quote_id
                < self.next_id()
        &&& forall|i: int| 0 <= i < self.rows().len() ==> (#[trigger] self.rows()[i]).date.wf()
    }

    /// Some row carries this identifier.
    pub open spec fn has_id(&self, id: int) -> bool {
        exists|i: int|
            0 <= i < self.rows().len() && (#[trigger] self.rows()[i]).quote_id == id
    }

    /// Strictly increasing identifiers are in particular unique.
    pub proof fn lemma_wf_unique_ids(&self)
        requires
            self.wf(),
        ensures
            unique_keys(self.rows(), quote_key()),
    {
    }

    /// How many rows the store holds.
    pub fn len(&self) -> (n: usize)
        ensures
            n == self.rows().len(),
    {
        self.rows.len()
    }

    /// Reads the identifier the store assigns next.
    pub fn next_id_val(&self) -> (n: i32)
        ensures
            n == self.next_id(),
    {
        self.next_id
    }

    /// Reads one row.
    pub fn row(&self, i: usize) -> (r: &Quote)
        requires
            i < self.rows().len(),
        ensures
            *r == self.rows()[i as int],
    {
        &self.rows[i]
    }

    /// An empty store.
    pub fn new() -> (s: Self)
        ensures
            s.wf(),
            s.rows() =~= Seq::<Quote>::empty(),
            s.next_id() == 1,
    {
        QuoteStore { rows: Vec::new(), next_id: 1 }
    }

    /// The position of the first row with this identifier, if any.
    fn index_of_id(&self, id: i32) -> (r: Option<usize>)
        ensures
            match r {
                Some(i) => i < self.rows().len() && self.rows()[i as int].quote_id == id
                    && forall|k: int|
                    0 <= k < i ==> (#[trigger] self.rows()[k]).quote_id != id,
                None => forall|k: int|
                    0 <= k < self.rows().len() ==> (#[trigger] self.rows()[k]).quote_id != id,
            },
    {
        let mut i: usize = 0;
        while i < self.rows.len()
            invariant
                i <= self.rows().len(),
                forall|k: int| 0 <= k < i ==> (#[trigger] self.rows()[k]).quote_id != id,
            decreases self.rows().len() - i,
        {
            if self.rows[i].quote_id == id {
                return Some(i);
            }
            i += 1;
        }
        None
    }

    /// Inserts a new quote under the next free identifier.
    pub fn create_quote(&mut self, new_quote: NewQuote)
        requires
            old(self).wf(),
            old(self).next_id() < i32::MAX,
            new_quote.date.wf(),
        ensures
            final(self).wf(),
            final(self).rows() == old(self).rows().push(
                (Quote {
                    quote_id: old(self).next_id() as i32,
                    message: new_quote.message,
                    quote_author_id: new_quote.quote_author_id,
                    quote_author: new_quote.quote_author,
                    date: new_quote.date,
                }),
            ),
            final(self).next_id() == old(self).next_id() + 1,
    {
        let q = Quote {
            quote_id: self.next_id,
            message: new_quote.message,
            quote_author_id: new_quote.quote_author_id,
            quote_author: new_quote.quote_author,
            date: new_quote.date,
        };
        self.rows.push(q);
        self.next_id = self.next_id + 1;
        proof {
            assert(forall|i: int|
                0 <= i < old(self).rows().len() ==> #[trigger] self.rows()[i] == old(
                self).rows()[i]);
            assert(self.rows()[old(self).rows().len() as int].quote_id == old(self).next_id());
        }
    }

    /// Reloads one persisted row, oldest first: the row keeps the identifier
    /// the store once assigned, and the next free identifier moves past it.
    pub fn restore_quote(&mut self, row: Quote)
        requires
            old(self).wf(),
            old(self).next_id() <= row.quote_id < i32::MAX,
            row.date.wf(),
        ensures
            final(self).wf(),
            final(self).rows() == old(self).rows().push(row),
            final(self).next_id() == row.quote_id + 1,
    {
        self.next_id = row.quote_id + 1;
        self.rows.push(row);
        proof {
            assert(forall|i: int|
                0 <= i < old(self).rows().len() ==> #[trigger] self.rows()[i] == old(
                self).rows()[i]);
            assert(self.rows()[old(self).rows().len() as int] == row);
        }
    }

    /// Fetches a quote: by identifier when one is given, else a uniformly
    /// random row. A random fetch on a non-empty store always yields a row
    /// that the store still holds.
    pub fn get_quote(&self, to_get: Option<i32>) -> (r: Option<&Quote>)
        requires
            self.wf(),
        ensures
            match to_get {
                Some(id) => (match r {
                    Some(q) => find_by(self.rows(), quote_key(), id as int) == Some(*q),
                    None => find_by(self.rows(), quote_key(), id as int) is None,
                }),
                None => (match r {
                    Some(q) => self.rows().len() > 0 && exists|i: int|
                        0 <= i < self.rows().len() && *q == #[trigger] self.rows()[i],
                    None => self.rows().len() == 0,
                }),
            },
    {
        match to_get {
            Some(id) => {
                match self.index_of_id(id) {
                    Some(i) => {
                        proof {
                            lemma_find_by_at(self.rows(), quote_key(), id as int, i as int);
                        }
                        Some(&self.rows[i])
                    },
                    None => {
                        proof {
                            lemma_find_by_none(self.rows(), quote_key(), id as int);
                        }
                        None
                    },
                }
            },
            None => {
                if self.rows.len() == 0 {
                    None
                } else {
                    let pick = roll_range(0, (self.rows.len() - 1) as u128);
                    let i = pick as usize;
                    Some(&self.rows[i])
                }
            },
        }
    }

    /// Deletes the quote with this identifier; reports whether one existed.
    /// A missing identifier leaves the store untouched.
    pub fn delete_quote(&mut self, to_delete: i32) -> (existed: bool)
        requires
            old(self).wf(),
        ensures
            final(self).wf(),
            existed == old(self).has_id(to_delete as int),
            final(self).rows() == remove_by(old(self).rows(), quote_key(), to_delete as int),
            final(self).next_id() == old(self).next_id(),
            !final(self).has_id(to_delete as int),
    {
        match self.index_of_id(to_delete) {
            Some(i) => {
                proof {
                    lemma_remove_by_at(self.rows(), quote_key(), to_delete as int, i as int);
                }
                self.rows.remove(i);
                proof {
                    assert forall|k: int| 0 <= k < self.rows().len() implies (
                    #[trigger] self.rows()[k]).quote_id != to_delete by {
                        if k < i {
                        } else {
                            assert(self.rows()[k] == old(self).rows()[k + 1]);
                        }
                    }
                }
                true
            },
            None => {
                proof {
                    lemma_remove_by_absent(self.rows(), quote_key(), to_delete as int);
                }
                false
            },
        }
    }

    /// Inserts a quote taken from a message: the quoting author is rendered
    /// as name, a number sign, and the discriminator. Replies that the quote
    /// was added.
    pub fn add_quote(&mut self, author_id: i64, author_name: &str, discriminator: u16,
        message: &str, date: DateStamp) -> (r: String)
        requires
            old(self).wf(),
            old(self).next_id() < i32::MAX,
            date.wf(),
        ensures
            final(self).wf(),
            final(self).next_id() == old(self).next_id() + 1,
            final(self).rows().len() == old(self).rows().len() + 1,
            final(self).rows().subrange(0, old(self).rows().len() as int) == old(self).rows(),
            final(self).rows().last().quote_id == old(self).next_id(),
            final(self).rows().last().message@ == message@,
            final(self).rows().last().quote_author_id == author_id,
            final(self).rows().last().quote_author@ == author_name@ + "#"@ + dec_str(
                discriminator as nat),
            final(self).rows().last().date == date,
            r@ == "Quote added!"@,
    {
        let mut tag = String::new();
        tag.append(author_name);
        tag.append("#");
        let disc = u64_string(discriminator as u64);
        tag.append(disc.as_str());
        let mut msg = String::new();
        msg.append(message);
        self.create_quote(NewQuote {
            message: msg,
            quote_author_id: author_id,
            quote_author: tag,
            date,
        });
        proof {
            assert(final(self).rows().subrange(0, old(self).rows().len() as int) =~= old(
                self).rows());
        }
        let mut r = String::new();
        r.append("Quote added!");
        proof {
            assert(r@ =~= "Quote added!"@);
        }
        r
    }

    /// The reply for displaying a quote: the quote line when one is found,
    /// else a no-quote notice. With no identifier the displayed quote is a
    /// random row, never a deleted one.
    pub fn quote(&self, quote_id: Option<i32>) -> (r: String)
        requires
            self.wf(),
        ensures
            match quote_id {
                Some(id) => (match find_by(self.rows(), quote_key(), id as int) {
                    Some(q) => r@ == quote_line(q),
                    None => r@ == "No quote found!"@,
                }),
                None => if self.rows().len() == 0 {
                    r@ == "No quote found!"@
                } else {
                    exists|i: int|
                        0 <= i < self.rows().len() && r@ == quote_line(
                            #[trigger] self.rows()[i])
                },
            },
    {
        let found = self.get_quote(quote_id);
        match found {
            Some(q) => {
                proof {
                    if quote_id is Some {
                        lemma_find_by_some(self.rows(), quote_key(), quote_id->Some_0 as int);
                    }
                }
                format_quote(q)
            },
            None => {
                let mut r = String::new();
                r.append("No quote found!");
                proof {
                    assert(r@ =~= "No quote found!"@);
                }
                r
            },
        }
    }

    /// Deletes a quote by identifier and replies whether it existed.
    pub fn remove_quote(&mut self, quote_id: i32) -> (r: String)
        requires
            old(self).wf(),
        ensures
            final(self).wf(),
            final(self).rows() == remove_by(old(self).rows(), quote_key(), quote_id as int),
            final(self).next_id() == old(self).next_id(),
            !final(self).has_id(quote_id as int),
            r@ == if old(self).has_id(quote_id as int) {
                "Successfully removed quote!"@
            } else {
                "Couldn't find quote with that ID!"@
            },
    {
        let existed = self.delete_quote(quote_id);
        let mut r = String::new();
        if existed {
            r.append("Successfully removed quote!");
            proof {
                assert(r@ =~= "Successfully removed quote!"@);
            }
        } else {
            r.append("Couldn't find quote with that ID!");
            proof {
                assert(r@ =~= "Couldn't find quote with that ID!"@);
            }
        }
        r
    }
}

/// Renders one quote as its reply line.
pub fn format_quote(q: &Quote) -> (r: String)
    requires
        q.date.wf(),
    ensures
        r@ == quote_line(*q),
{
    let mut s = String::new();
    s.append("\"");
    s.append(q.message.as_str());
    s.append("\" - ");
    s.append(q.quote_author.as_str());
    s.append(", ");
    let d = format_mdy(&q.date);
    s.append(d.as_str());
    proof {
        assert(s@ =~= quote_line(*q));
    }
    s
}

/// Law: a quote looked up by an identifier that was just deleted is not
/// found, for any table whose identifiers are unique.
pub proof fn lemma_deleted_quote_not_found(rows: Seq<Quote>, id: int)
    requires
        unique_keys(rows, quote_key()),
    ensures
        find_by(remove_by(rows, quote_key(), id), quote_key(), id) is None,
    decreases rows.len(),
{
    if rows.len() == 0 {
    } else if quote_key()(rows[0]) == id {
        let rest = rows.drop_first();
        assert forall|k: int| 0 <= k < rest.len() implies quote_key()(
        #[trigger] rest[k]) != id by {
            assert(rest[k] == rows[k + 1]);
        }
        lemma_find_by_none(rest, quote_key(), id);
    } else {
        let rest = rows.drop_first();
        assert(forall|i: int, j: int|
            0 <= i < j < rest.len() ==> quote_key()(#[trigger] rest[i]) != quote_key()(
            #[trigger] rest[j])) by {
            assert(forall|k: int| 0 <= k < rest.len() ==> #[trigger] rest[k] == rows[k + 1]);
        }
        lemma_deleted_quote_not_found(rest, id);
        assert((seq![rows[0]] + remove_by(rest, quote_key(), id)).drop_first() =~= remove_by(
            rest, quote_key(), id));
    }
}

} // verus!
