use vstd::prelude::*;
use vstd::string::StringExecFns;

use crate::clock::DateStamp;
use crate::models::{Can, NewCan};
use crate::text::{dec_str, u64_string};

verus! {

/// The tally table: append-only rows in insertion order, with the identifier
/// the store will assign next. The exposed count is the number of rows.
pub struct CanStore {
    rows: Vec<Can>,
    next_id: i32,
}

impl CanStore {
    /// The rows currently held, in insertion order.
    pub closed spec fn rows(&self) -> Seq<Can> {
        self.rows@
    }

    /// The identifier the store assigns to the next inserted row.
    pub closed spec fn next_id(&self) -> int {
        self.next_id as int
    }

    /// Identifiers are strictly increasing in insertion order, positive,
    /// below the next free identifier, and every date is a calendar date.
    pub open spec fn wf(&self) -> bool {
        &&& 1 <= self.next_id() <= i32::MAX
        &&& forall|i: int, j: int|
            0 <= i < j < self.rows().len() ==> (#[trigger] self.rows()[i]).can_id < (
            #[trigger] self.rows()[j]).can_id
        &&& forall|i: int|
            0 <= i < self.rows().len() ==> 1 <= (#[trigger] self.rows()[i]).can_id
                < self.next_id()
        &&& forall|i: int| 0 <= i < self.rows().len() ==> (#[trigger] self.rows()[i]).date.wf()
    }

    /// How many rows the store holds.
    pub fn len(&self) -> (n: usize)
        ensures
            n == self.rows().len(),
    {
        self.rows.len()
    }

    /// Reads the identifier the store assigns next.
    pub fn next_id_val(&self) -> (n: i32)
        ensures
            n == self.next_id(),
    {
        self.next_id
    }

    /// Reads one row.
    pub fn row(&self, i: usize) -> (r: &Can)
        requires
            i < self.rows().len(),
        ensures
            *r == self.rows()[i as int],
    {
        &self.rows[i]
    }

    /// An empty store.
    pub fn new() -> (s: Self)
        ensures
            s.wf(),
            s.rows() =~= Seq::<Can>::empty(),
            s.next_id() == 1,
    {
        CanStore { rows: Vec::new(), next_id: 1 }
    }

    /// Appends one tally row and reports the new total row count. Rows are
    /// never deleted or updated.
    pub fn add_can(&mut self, new_can: NewCan) -> (count: i64)
        requires
            old(self).wf(),
            old(self).next_id() < i32::MAX,
            old(self).rows().len() < i64::MAX,
            new_can.date.wf(),
        ensures
            final(self).wf(),
            final(self).rows() == old(self).rows().push(
                (Can {
                    can_id: old(self).next_id() as i32,
                    user_id: new_can.user_id,
                    user: new_can.user,
                    date: new_can.date,
                }),
            ),
            final(self).next_id() == old(self).next_id() + 1,
            count == final(self).rows().len(),
    {
        let c = Can {
            can_id: self.next_id,
            user_id: new_can.user_id,
            user: new_can.user,
            date: new_can.date,
        };
        self.rows.push(c);
        self.next_id = self.next_id + 1;
        proof {
            assert(forall|i: int|
                0 <= i < old(self).rows().len() ==> #[trigger] self.rows()[i] == old(
                self).rows()[i]);
            assert(self.rows()[old(self).rows().len() as int].can_id == old(self).next_id());
        }
        self.rows.len() as i64
    }

    /// Reloads one persisted row, oldest first: the row keeps the identifier
    /// the store once assigned, and the next free identifier moves past it.
    pub fn restore_can(&mut self, row: Can)
        requires
            old(self).wf(),
            old(self).next_id() <= row.can_id < i32::MAX,
            row.date.wf(),
        ensures
            final(self).wf(),
            final(self).rows() == old(self).rows().push(row),
            final(self).next_id() == row.can_id + 1,
    {
        self.next_id = row.can_id + 1;
        self.rows.push(row);
        proof {
            assert(forall|i: int|
                0 <= i < old(self).rows().len() ==> #[trigger] self.rows()[i] == old(
                self).rows()[i]);
            assert(self.rows()[old(self).rows().len() as int] == row);
        }
    }

    /// Appends a tally row for the acting user — rendered as name, a number
    /// sign, and the discriminator — and replies with the new total.
    pub fn addcan(&mut self, user_id: i64, username: &str, discriminator: u16, date: DateStamp)
        -> (r: String)
        requires
            old(self).wf(),
            old(self).next_id() < i32::MAX,
            old(self).rows().len() < i64::MAX,
            date.wf(),
        ensures
            final(self).wf(),
            final(self).next_id() == old(self).next_id() + 1,
            final(self).rows().len() == old(self).rows().len() + 1,
            final(self).rows().subrange(0, old(self).rows().len() as int) == old(self).rows(),
            final(self).rows().last().can_id == old(self).next_id(),
            final(self).rows().last().user_id == user_id,
            final(self).rows().last().user@ == username@ + "#"@ + dec_str(
                discriminator as nat),
            final(self).rows().last().date == date,
            r@ == "You place a can on lumiDiscord. There's now "@ + dec_str(
                final(self).rows().len() as nat)
                + " cans.  Someone can add another in 35 seconds."@,
    {
        let mut tag = String::new();
        tag.append(username);
        tag.append("#");
        let disc = u64_string(discriminator as u64);
        tag.append(disc.as_str());
        let count = self.add_can(NewCan { user_id, user: tag, date });
        proof {
            assert(final(self).rows().subrange(0, old(self).rows().len() as int) =~= old(
                self).rows());
        }
        let mut r = String::new();
        r.append("You place a can on lumiDiscord. There's now ");
        let n = u64_string(count as u64);
        r.append(n.as_str());
        r.append(" cans.  Someone can add another in 35 seconds.");
        r
    }
}

/// The rows after a run of insertions, applied oldest first.
pub open spec fn adds_applied(init: Seq<Can>, adds: Seq<Can>) -> Seq<Can>
    decreases adds.len(),
{
    if adds.len() == 0 {
        init
    } else {
        adds_applied(init.push(adds[0]), adds.drop_first())
    }
}

/// Each insertion grows the rows by exactly one.
proof fn lemma_adds_applied_len(init: Seq<Can>, adds: Seq<Can>)
    ensures
        adds_applied(init, adds).len() == init.len() + adds.len(),
    decreases adds.len(),
{
    if adds.len() > 0 {
        lemma_adds_applied_len(init.push(adds[0]), adds.drop_first());
    }
}

/// Law: starting from an empty tally table, after any run of successful
/// insertions the reported count — the total row count — equals the number
/// of insertions.
pub proof fn lemma_tally_count(adds: Seq<Can>)
    ensures
        adds_applied(Seq::<Can>::empty(), adds).len() == adds.len(),
{
    lemma_adds_applied_len(Seq::<Can>::empty(), adds);
}

} // verus!
