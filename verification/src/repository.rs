use crate::clock::Timestamp;
use crate::error::StorageError;
use crate::quote::{Quote, Row};
use vstd::prelude::*;

verus! {

/// One statement for the store, with the values bound to it.
#[derive(Clone, Debug, PartialEq, Eq)]
pub enum Statement {
    /// Persist one fully formed row.
    Insert { row: Quote },
    /// Read every row.
    SelectAll,
    /// Replace the texts of the row `id` and refresh its `updated_at`.
    UpdateById { id: u128, book_name: String, quote: String, updated_at: Timestamp },
    /// Remove the row `id`.
    DeleteById { id: u128 },
}

/// The table as the contracts see it: its rows by identifier.
pub type Table = Map<u128, Row>;

/// Every row is filed under its own identifier.
pub open spec fn well_keyed(table: Table) -> bool {
    forall|id: u128| #[trigger] table.dom().contains(id) ==> table[id].id == id
}

/// `rows` is a snapshot of the whole table, in any order: each row of the
/// table once and nothing else.
pub open spec fn is_listing(table: Table, rows: Seq<Row>) -> bool {
    &&& forall|i: int|
        0 <= i < rows.len() ==> table.dom().contains(#[trigger] rows[i].id) && table[rows[i].id]
            == rows[i]
    &&& forall|i: int, j: int|
        0 <= i < rows.len() && 0 <= j < rows.len() && i != j ==> #[trigger] rows[i].id
            != #[trigger] rows[j].id
    &&& forall|id: u128| #[trigger]
        table.dom().contains(id) ==> exists|i: int|
            0 <= i < rows.len() && #[trigger] rows[i].id == id
}

impl Statement {
    /// The text of the statement, with `$1`, `$2`, ... for the bound values
    /// in the order of the variant's fields (for an update: the texts, the
    /// timestamp, then the identifier).
    pub open spec fn text(self) -> Seq<char> {
        match self {
            Statement::Insert { .. } =>
                "INSERT INTO quotes (id, book_name, quote, inserted_at, updated_at) VALUES ($1, $2, $3, $4, $5)"@,
            Statement::SelectAll => "SELECT * FROM quotes"@,
            Statement::UpdateById { .. } =>
                "UPDATE quotes SET book_name = $1, quote = $2, updated_at = $3 WHERE id = $4"@,
            Statement::DeleteById { .. } => "DELETE FROM quotes WHERE id = $1"@,
        }
    }

    /// The text of the statement.
    pub fn sql(&self) -> (s: &'static str)
        ensures
            s@ == self.text(),
    {
        match self {
            Statement::Insert { .. } =>
                "INSERT INTO quotes (id, book_name, quote, inserted_at, updated_at) VALUES ($1, $2, $3, $4, $5)",
            Statement::SelectAll => "SELECT * FROM quotes",
            Statement::UpdateById { .. } =>
                "UPDATE quotes SET book_name = $1, quote = $2, updated_at = $3 WHERE id = $4",
            Statement::DeleteById { .. } => "DELETE FROM quotes WHERE id = $1",
        }
    }

    /// What a store that is up answers on `table`: the number of rows
    /// affected, or the constraint that an insert under a taken identifier
    /// breaks.
    pub open spec fn answer(self, table: Table) -> Result<u64, StorageError> {
        match self {
            Statement::Insert { row } => if table.dom().contains(row.id) {
                Err(StorageError::Constraint)
            } else {
                Ok(1)
            },
            Statement::SelectAll => Ok(0),
            Statement::UpdateById { id, .. } => if table.dom().contains(id) {
                Ok(1)
            } else {
                Ok(0)
            },
            Statement::DeleteById { id } => if table.dom().contains(id) {
                Ok(1)
            } else {
                Ok(0)
            },
        }
    }

    /// The table after the statement. A statement that affects no row, or
    /// fails, leaves the table as it was.
    pub open spec fn applied(self, table: Table) -> Table {
        match self {
            Statement::Insert { row } => if table.dom().contains(row.id) {
                table
            } else {
                table.insert(row.id, row@)
            },
            Statement::SelectAll => table,
            Statement::UpdateById { id, book_name, quote, updated_at } => if table.dom().contains(
                id,
            ) {
                table.insert(
                    id,
                    Row { book_name: book_name@, quote: quote@, updated_at, ..table[id] },
                )
            } else {
                table
            },
            Statement::DeleteById { id } => table.remove(id),
        }
    }
}

} // verus!
