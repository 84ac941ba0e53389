//! A table that is held in memory and answers as the store does: for trying
//! the handlers out where no database is at hand.

use crate::error::StorageError;
use crate::quote::{Quote, Row};
use crate::repository::{is_listing, well_keyed, Statement, Table};
use vstd::prelude::*;

verus! {

/// Some row of `rows` has the identifier `id`.
spec fn holds(rows: Seq<Quote>, id: u128) -> bool {
    exists|i: int| 0 <= i < rows.len() && (#[trigger] rows[i]).id == id
}

/// Where in `rows` the identifier `id` is found.
spec fn place(rows: Seq<Quote>, id: u128) -> int {
    choose|i: int| 0 <= i < rows.len() && (#[trigger] rows[i]).id == id
}

/// No two rows share an identifier.
spec fn distinct(rows: Seq<Quote>) -> bool {
    forall|i: int, j: int|
        0 <= i < rows.len() && 0 <= j < rows.len() && i != j ==> (#[trigger] rows[i]).id != (
        #[trigger] rows[j]).id
}

/// The rows by their identifiers.
spec fn table_of(rows: Seq<Quote>) -> Table {
    Map::new(|id: u128| holds(rows, id), |id: u128| rows[place(rows, id)]@)
}

/// The rows as the contracts see them.
pub open spec fn views(rows: Seq<Quote>) -> Seq<Row> {
    rows.map_values(|q: Quote| q@)
}

proof fn lemma_place(rows: Seq<Quote>, i: int)
    requires
        distinct(rows),
        0 <= i < rows.len(),
    ensures
        holds(rows, rows[i].id),
        place(rows, rows[i].id) == i,
        table_of(rows).dom().contains(rows[i].id),
        table_of(rows)[rows[i].id] == rows[i]@,
{
    let j = place(rows, rows[i].id);
    assert(0 <= j < rows.len() && rows[j].id == rows[i].id);
}

proof fn lemma_push(rows: Seq<Quote>, q: Quote)
    requires
        distinct(rows),
        !holds(rows, q.id),
    ensures
        distinct(rows.push(q)),
        table_of(rows.push(q)) == table_of(rows).insert(q.id, q@),
{
    let after = rows.push(q);
    assert forall|i: int, j: int|
        0 <= i < after.len() && 0 <= j < after.len() && i != j implies (#[trigger] after[i]).id != (
    #[trigger] after[j]).id by {
        if i < rows.len() {
            assert(after[i] == rows[i]);
        }
        if j < rows.len() {
            assert(after[j] == rows[j]);
        }
    }
    assert forall|id: u128| holds(after, id) <==> (holds(rows, id) || id == q.id) by {
        if holds(after, id) {
            let i = place(after, id);
            if i < rows.len() {
                assert(rows[i].id == id);
            }
        }
        if holds(rows, id) {
            let i = place(rows, id);
            assert(after[i].id == id);
        }
        if id == q.id {
            assert(after[rows.len() as int].id == id);
        }
    }
    assert forall|id: u128| #[trigger] holds(after, id) implies table_of(after)[id] == table_of(
        rows,
    ).insert(q.id, q@)[id] by {
        if id == q.id {
            lemma_place(after, rows.len() as int);
        } else {
            let i = place(rows, id);
            assert(after[i] == rows[i]);
            lemma_place(after, i);
        }
    }
    assert(table_of(after) =~= table_of(rows).insert(q.id, q@));
}

proof fn lemma_remove(rows: Seq<Quote>, i: int)
    requires
        distinct(rows),
        0 <= i < rows.len(),
    ensures
        distinct(rows.remove(i)),
        !holds(rows.remove(i), rows[i].id),
        table_of(rows.remove(i)) == table_of(rows).remove(rows[i].id),
{
    let after = rows.remove(i);
    let gone = rows[i].id;
    rows.remove_ensures(i);
    assert forall|k: int| 0 <= k < after.len() implies #[trigger] after[k] == rows[if k < i {
        k
    } else {
        k + 1
    }] by {}
    assert forall|a: int, b: int|
        0 <= a < after.len() && 0 <= b < after.len() && a != b implies (#[trigger] after[a]).id != (
    #[trigger] after[b]).id by {
        let a0 = if a < i { a } else { a + 1 };
        let b0 = if b < i { b } else { b + 1 };
        assert(after[a] == rows[a0] && after[b] == rows[b0]);
        assert(rows[a0].id != rows[b0].id);
    }
    assert forall|id: u128| holds(after, id) <==> (holds(rows, id) && id != gone) by {
        if holds(after, id) {
            let k = place(after, id);
            let k0 = if k < i { k } else { k + 1 };
            assert(after[k] == rows[k0]);
            assert(rows[k0].id == id);
            assert(rows[k0].id != rows[i].id);
        }
        if holds(rows, id) && id != gone {
            let k0 = place(rows, id);
            let k = if k0 < i { k0 } else { k0 - 1 };
            assert(after[k] == rows[k0]);
            assert(after[k].id == id);
        }
    }
    assert forall|id: u128| #[trigger] holds(after, id) implies table_of(after)[id] == table_of(
        rows,
    ).remove(gone)[id] by {
        let k = place(after, id);
        let k0 = if k < i { k } else { k + 1 };
        assert(after[k] == rows[k0]);
        lemma_place(after, k);
        lemma_place(rows, k0);
    }
    assert(table_of(after) =~= table_of(rows).remove(gone));
}

proof fn lemma_listing(rows: Seq<Quote>)
    requires
        distinct(rows),
    ensures
        well_keyed(table_of(rows)),
        is_listing(table_of(rows), views(rows)),
{
    let table = table_of(rows);
    let listed = views(rows);
    assert forall|id: u128| #[trigger] table.dom().contains(id) implies table[id].id == id by {
        let i = place(rows, id);
        assert(rows[i].id == id);
    }
    assert forall|i: int| 0 <= i < listed.len() implies table.dom().contains(
        (#[trigger] listed[i]).id,
    ) && table[listed[i].id] == listed[i] by {
        lemma_place(rows, i);
    }
    assert forall|i: int, j: int|
        0 <= i < listed.len() && 0 <= j < listed.len() && i != j implies (#[trigger] listed[i]).id
        != (#[trigger] listed[j]).id by {
        assert(rows[i].id != rows[j].id);
    }
    assert forall|id: u128| #[trigger] table.dom().contains(id) implies exists|i: int|
        0 <= i < listed.len() && (#[trigger] listed[i]).id == id by {
        let i = place(rows, id);
        assert(listed[i].id == id);
    }
}

fn copy_of(q: &Quote) -> (c: Quote)
    ensures
        c == *q,
{
    Quote {
        id: q.id,
        book_name: q.book_name.clone(),
        quote: q.quote.clone(),
        inserted_at: q.inserted_at,
        updated_at: q.updated_at,
    }
}

/// The rows of a table, in the order in which they were last written.
pub struct MemoryTable {
    rows: Vec<Quote>,
}

impl MemoryTable {
    /// No two rows share an identifier.
    pub closed spec fn well_formed(&self) -> bool {
        distinct(self.rows@)
    }

    /// The table that the rows make up.
    pub closed spec fn view(&self) -> Table {
        table_of(self.rows@)
    }

    /// An empty table.
    pub fn new() -> (t: MemoryTable)
        ensures
            t.well_formed(),
            t@ == Map::<u128, Row>::empty(),
    {
        let t = MemoryTable { rows: Vec::new() };
        assert(t@ =~= Map::<u128, Row>::empty());
        t
    }

    fn position(&self, id: u128) -> (at: Option<usize>)
        ensures
            match at {
                Some(i) => i < self.rows@.len() && self.rows@[i as int].id == id,
                None => !holds(self.rows@, id),
            },
    {
        let mut i: usize = 0;
        while i < self.rows.len()
            invariant
                i <= self.rows@.len(),
                forall|k: int| 0 <= k < i ==> (#[trigger] self.rows@[k]).id != id,
            decreases self.rows@.len() - i,
        {
            if self.rows[i].id == id {
                return Some(i);
            }
            i += 1;
        }
        None
    }

    /// Carries out one statement as a store that is up does, and answers with
    /// the number of rows affected. An insert under an identifier that is
    /// taken breaks the table's constraint and changes nothing.
    pub fn execute(&mut self, statement: Statement) -> (r: Result<u64, StorageError>)
        requires
            old(self).well_formed(),
        ensures
            final(self).well_formed(),
            well_keyed(final(self)@),
            r == statement.answer(old(self)@),
            final(self)@ == statement.applied(old(self)@),
    {
        proof {
            lemma_listing(self.rows@);
        }
        match statement {
            Statement::Insert { row } => {
                match self.position(row.id) {
                    Some(i) => {
                        proof {
                            lemma_place(self.rows@, i as int);
                        }
                        Err(StorageError::Constraint)
                    },
                    None => {
                        proof {
                            lemma_push(self.rows@, row);
                        }
                        self.rows.push(row);
                        proof {
                            lemma_listing(self.rows@);
                        }
                        Ok(1)
                    },
                }
            },
            Statement::SelectAll => Ok(0),
            Statement::UpdateById { id, book_name, quote, updated_at } => {
                match self.position(id) {
                    Some(i) => {
                        proof {
                            lemma_place(self.rows@, i as int);
                            lemma_remove(self.rows@, i as int);
                        }
                        let before = self.rows.remove(i);
                        let after = Quote {
                            id,
                            book_name,
                            quote,
                            inserted_at: before.inserted_at,
                            updated_at,
                        };
                        proof {
                            lemma_push(self.rows@, after);
                            assert(old(self)@.remove(id).insert(id, after@) =~= old(self)@.insert(
                                id,
                                after@,
                            ));
                        }
                        self.rows.push(after);
                        proof {
                            lemma_listing(self.rows@);
                        }
                        Ok(1)
                    },
                    None => Ok(0),
                }
            },
            Statement::DeleteById { id } => {
                match self.position(id) {
                    Some(i) => {
                        proof {
                            lemma_place(self.rows@, i as int);
                            lemma_remove(self.rows@, i as int);
                        }
                        let _ = self.rows.remove(i);
                        proof {
                            lemma_listing(self.rows@);
                        }
                        Ok(1)
                    },
                    None => {
                        assert(self@.remove(id) =~= self@);
                        Ok(0)
                    },
                }
            },
        }
    }

    /// A snapshot of every row.
    pub fn select_all(&self) -> (rows: Vec<Quote>)
        requires
            self.well_formed(),
        ensures
            is_listing(self@, views(rows@)),
    {
        let mut rows: Vec<Quote> = Vec::new();
        let mut i: usize = 0;
        while i < self.rows.len()
            invariant
                i <= self.rows@.len(),
                rows@ == self.rows@.subrange(0, i as int),
            decreases self.rows@.len() - i,
        {
            rows.push(copy_of(&self.rows[i]));
            assert(rows@ =~= self.rows@.subrange(0, i + 1));
            i += 1;
        }
        assert(rows@ =~= self.rows@);
        proof {
            lemma_listing(self.rows@);
        }
        rows
    }
}

} // verus!
