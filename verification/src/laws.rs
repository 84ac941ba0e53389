//! What holds of the handlers on every table, proved over the model of the
//! store in [`crate::repository`].

use crate::clock::Timestamp;
use crate::error::{ServiceError, StatusCode, StorageError};
use crate::handlers::{create_plan, delete_plan, update_plan, with_status, write_status};
use crate::quote::{CreateQuote, Row, UpdateQuote};
use crate::repository::{is_listing, well_keyed, Statement, Table};
use vstd::prelude::*;

verus! {

/// The row that a create request leaves in the table.
pub open spec fn created_row(payload: CreateQuote, id: u128, now: Timestamp) -> Row {
    Row {
        id,
        book_name: payload.book_name@,
        quote: payload.quote@,
        inserted_at: now,
        updated_at: now,
    }
}

/// The texts of `row` are those of `payload`.
pub open spec fn same_texts(row: Row, payload: CreateQuote) -> bool {
    row.book_name == payload.book_name@ && row.quote == payload.quote@
}

/// After a create that the store accepted, every listing holds the new quote
/// exactly once: one entry has its identifier, that entry has the texts and
/// timestamps of the request, and no two entries share an identifier. Where
/// no earlier row had the same texts, it is also the only entry with them.
pub proof fn created_quote_is_listed_once(
    table: Table,
    payload: CreateQuote,
    id: u128,
    now: Timestamp,
    rows: Seq<Row>,
)
    requires
        well_keyed(table),
        payload.valid(),
        create_plan(payload, id, now)->Ok_0.answer(table) is Ok,
        is_listing(create_plan(payload, id, now)->Ok_0.applied(table), rows),
    ensures
        exists|i: int|
            {
                &&& 0 <= i < rows.len()
                &&& #[trigger] rows[i] == created_row(payload, id, now)
                &&& forall|j: int| 0 <= j < rows.len() && (#[trigger] rows[j]).id == id ==> j == i
                &&& (forall|k: u128| #[trigger]
                    table.dom().contains(k) ==> !same_texts(table[k], payload)) ==> forall|j: int|
                    0 <= j < rows.len() && same_texts(#[trigger] rows[j], payload) ==> j == i
            },
        forall|i: int, j: int|
            0 <= i < rows.len() && 0 <= j < rows.len() && i != j ==> (#[trigger] rows[i]).id != (
            #[trigger] rows[j]).id,
{
    let statement = create_plan(payload, id, now)->Ok_0;
    let next = statement.applied(table);
    assert(!table.dom().contains(id));
    assert(next == table.insert(id, created_row(payload, id, now)));
    assert(next.dom().contains(id));
    let i = choose|i: int| 0 <= i < rows.len() && #[trigger] rows[i].id == id;
    assert(next[rows[i].id] == rows[i]);
    assert(rows[i] == created_row(payload, id, now));
    assert forall|j: int| 0 <= j < rows.len() && (#[trigger] rows[j]).id == id implies j == i by {
        if j != i {
            assert(rows[i].id != rows[j].id);
        }
    }
    if forall|k: u128| #[trigger] table.dom().contains(k) ==> !same_texts(table[k], payload) {
        assert forall|j: int|
            0 <= j < rows.len() && same_texts(#[trigger] rows[j], payload) implies j == i by {
            if j != i {
                let k = rows[j].id;
                assert(next.dom().contains(k) && next[k] == rows[j]);
                assert(k != id);
                assert(table.dom().contains(k) && table[k] == rows[j]);
            }
        }
    }
}

/// A create leaves every other row as it was, and keeps each row filed under
/// its own identifier.
pub proof fn create_adds_one_row(table: Table, payload: CreateQuote, id: u128, now: Timestamp)
    requires
        well_keyed(table),
        payload.valid(),
        !table.dom().contains(id),
    ensures
        create_plan(payload, id, now)->Ok_0.answer(table) == Ok::<u64, StorageError>(1),
        well_keyed(create_plan(payload, id, now)->Ok_0.applied(table)),
        create_plan(payload, id, now)->Ok_0.applied(table).dom() == table.dom().insert(id),
        create_plan(payload, id, now)->Ok_0.applied(table)[id] == created_row(payload, id, now),
        created_row(payload, id, now).well_formed(),
        forall|k: u128|
            k != id && #[trigger] table.dom().contains(k) ==> create_plan(
                payload,
                id,
                now,
            )->Ok_0.applied(table)[k] == table[k],
{
}

/// An update or a delete of an identifier that the table does not hold is
/// answered with 404 by a store that is up, and changes nothing.
pub proof fn absent_id_is_not_found(table: Table, id: u128, payload: UpdateQuote, now: Timestamp)
    requires
        !table.dom().contains(id),
        payload.valid(),
    ensures
        write_status(update_plan(Some(id), payload, now)->Ok_0.answer(table))
            == StatusCode::NotFound,
        write_status(delete_plan(Some(id))->Ok_0.answer(table)) == StatusCode::NotFound,
        update_plan(Some(id), payload, now)->Ok_0.applied(table) == table,
        delete_plan(Some(id))->Ok_0.applied(table) == table,
{
    assert(table.remove(id) =~= table);
}

/// The status of an update or a delete tells the outcome apart: 404 exactly
/// where the store affected no row, 200 exactly where it affected one or
/// more, 500 exactly where it failed.
pub proof fn write_status_tells_outcome(result: Result<u64, StorageError>)
    ensures
        write_status(result) == StatusCode::NotFound <==> result == Ok::<u64, StorageError>(0),
        write_status(result) == StatusCode::Success <==> (result matches Ok(rows) && rows > 0),
        write_status(result) == StatusCode::InternalServerError <==> result is Err,
{
}

/// An update of a row that the table holds, stamped later than the row's
/// last update, succeeds, moves `updated_at` strictly forward to the stamp,
/// replaces the texts, and leaves the identifier, `inserted_at` and every
/// other row as they were.
pub proof fn update_moves_timestamp_forward(
    table: Table,
    id: u128,
    payload: UpdateQuote,
    now: Timestamp,
)
    requires
        well_keyed(table),
        table.dom().contains(id),
        table[id].well_formed(),
        payload.valid(),
        table[id].updated_at.before(now),
    ensures
        write_status(update_plan(Some(id), payload, now)->Ok_0.answer(table))
            == StatusCode::Success,
        ({
            let next = update_plan(Some(id), payload, now)->Ok_0.applied(table);
            &&& well_keyed(next)
            &&& next.dom() == table.dom()
            &&& next[id].id == id
            &&& next[id].book_name == payload.book_name@
            &&& next[id].quote == payload.quote@
            &&& next[id].inserted_at == table[id].inserted_at
            &&& next[id].updated_at == now
            &&& table[id].updated_at.before(next[id].updated_at)
            &&& next[id].well_formed()
            &&& forall|k: u128| k != id && #[trigger] table.dom().contains(k) ==> next[k] == table[k]
        }),
{
    let next = update_plan(Some(id), payload, now)->Ok_0.applied(table);
    assert(next.dom() =~= table.dom());
}

/// The table after a run of updates of the row `id`, each with its texts and
/// its stamp, in their order.
pub open spec fn revised(table: Table, id: u128, updates: Seq<(UpdateQuote, Timestamp)>) -> Table
    decreases updates.len(),
{
    if updates.len() == 0 {
        table
    } else {
        update_plan(Some(id), updates.last().0, updates.last().1)->Ok_0.applied(
            revised(table, id, updates.drop_last()),
        )
    }
}

/// Every body of the run is valid, the first stamp is later than `start`, and
/// each further stamp is later than the one before it.
pub open spec fn ascending(start: Timestamp, updates: Seq<(UpdateQuote, Timestamp)>) -> bool {
    &&& forall|i: int| 0 <= i < updates.len() ==> (#[trigger] updates[i]).0.valid()
    &&& updates.len() > 0 ==> start.before(updates[0].1)
    &&& forall|i: int| 0 < i < updates.len() ==> updates[i - 1].1.before((#[trigger] updates[i]).1)
}

proof fn lemma_revised(table: Table, id: u128, updates: Seq<(UpdateQuote, Timestamp)>)
    requires
        table.dom().contains(id),
        forall|i: int| 0 <= i < updates.len() ==> (#[trigger] updates[i]).0.valid(),
    ensures
        revised(table, id, updates).dom().contains(id),
        revised(table, id, updates)[id].id == table[id].id,
        revised(table, id, updates)[id].inserted_at == table[id].inserted_at,
        revised(table, id, updates)[id].updated_at == if updates.len() == 0 {
            table[id].updated_at
        } else {
            updates.last().1
        },
    decreases updates.len(),
{
    if updates.len() > 0 {
        let earlier = updates.drop_last();
        assert forall|i: int| 0 <= i < earlier.len() implies (#[trigger] earlier[i]).0.valid() by {
            assert(earlier[i] == updates[i]);
        }
        lemma_revised(table, id, earlier);
        assert(updates.last().0.valid());
    }
}

/// In a run of updates of a row that the table holds, with ascending stamps,
/// each update succeeds and moves `updated_at` strictly forward, and after
/// each the row still has the `inserted_at` and the identifier that it had
/// before the run.
pub proof fn each_update_of_a_run_moves_forward(
    table: Table,
    id: u128,
    updates: Seq<(UpdateQuote, Timestamp)>,
    n: int,
)
    requires
        table.dom().contains(id),
        ascending(table[id].updated_at, updates),
        0 <= n < updates.len(),
    ensures
        ({
            let before = revised(table, id, updates.take(n));
            let after = revised(table, id, updates.take(n + 1));
            let statement = update_plan(Some(id), updates[n].0, updates[n].1)->Ok_0;
            &&& before.dom().contains(id)
            &&& write_status(statement.answer(before)) == StatusCode::Success
            &&& after == statement.applied(before)
            &&& before[id].updated_at.before(after[id].updated_at)
            &&& after[id].updated_at == updates[n].1
            &&& after[id].inserted_at == table[id].inserted_at
            &&& after[id].id == table[id].id
        }),
{
    let shorter = updates.take(n);
    let longer = updates.take(n + 1);
    assert forall|i: int| 0 <= i < longer.len() implies (#[trigger] longer[i]).0.valid() by {
        assert(longer[i] == updates[i]);
    }
    assert forall|i: int| 0 <= i < shorter.len() implies (#[trigger] shorter[i]).0.valid() by {
        assert(shorter[i] == updates[i]);
    }
    assert(longer.drop_last() =~= shorter);
    assert(longer.last() == updates[n]);
    lemma_revised(table, id, shorter);
    lemma_revised(table, id, longer);
    if n > 0 {
        assert(shorter.last() == updates[n - 1]);
    }
}

/// Deleting an identifier that the table holds is answered with 200 and
/// removes that row only; deleting it again is answered with 404.
pub proof fn second_delete_is_not_found(table: Table, id: u128)
    requires
        well_keyed(table),
        table.dom().contains(id),
    ensures
        write_status(delete_plan(Some(id))->Ok_0.answer(table)) == StatusCode::Success,
        ({
            let next = delete_plan(Some(id))->Ok_0.applied(table);
            &&& well_keyed(next)
            &&& next.dom() == table.dom().remove(id)
            &&& forall|k: u128| k != id && #[trigger] table.dom().contains(k) ==> next[k] == table[k]
            &&& write_status(delete_plan(Some(id))->Ok_0.answer(next)) == StatusCode::NotFound
            &&& delete_plan(Some(id))->Ok_0.applied(next) == next
        }),
{
    let next = delete_plan(Some(id))->Ok_0.applied(table);
    assert(next.dom() =~= table.dom().remove(id));
    assert(next.remove(id) =~= next);
}

/// A create whose body has an empty text is answered with 400 whatever the
/// identifier and the clock, and yields no statement, so the table, and with
/// it every listing, stays as it was.
pub proof fn invalid_create_is_rejected(payload: CreateQuote, id: u128, now: Timestamp)
    requires
        !payload.valid(),
    ensures
        create_plan(payload, id, now) == Err::<Statement, ServiceError>(ServiceError::Validation),
        with_status(create_plan(payload, id, now)) == Err::<Statement, StatusCode>(
            StatusCode::BadRequest,
        ),
{
}

/// A store that is up affects one row at most, and an insert that it accepts
/// affects exactly one.
pub proof fn at_most_one_row_is_affected(table: Table, statement: Statement)
    ensures
        statement.answer(table) matches Ok(rows) ==> rows <= 1,
        statement is Insert ==> statement.answer(table) != Ok::<u64, StorageError>(0),
        statement.answer(table) is Err ==> statement.applied(table) == table,
{
}

/// A request that is answered with a 4xx status changes no row: whether the
/// statement was never made, or matched no row.
pub proof fn no_row_affected_changes_nothing(table: Table, statement: Statement)
    requires
        statement.answer(table) == Ok::<u64, StorageError>(0),
    ensures
        statement.applied(table) == table,
{
    match statement {
        Statement::DeleteById { id } => {
            assert(table.remove(id) =~= table);
        },
        _ => {},
    }
}

} // verus!
