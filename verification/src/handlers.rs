use crate::clock::Timestamp;
use crate::error::{ServiceError, StatusCode, StorageError};
use crate::ident::{is_random_id, parse_id, parsed_id, random_id};
use crate::quote::{CreateQuote, Quote, UpdateQuote};
use crate::repository::Statement;
use vstd::prelude::*;
use vstd::string::*;

verus! {

/// The payload of the health probe.
#[derive(Clone, Debug, PartialEq, Eq)]
pub struct Health {
    pub status: String,
    pub message: String,
}

/// The health probe: always 200 with the same payload.
pub fn check_health() -> (r: (StatusCode, Health))
    ensures
        r.0 == StatusCode::Success,
        r.1.status@ == "success"@,
        r.1.message@ == "Crud usando axum e rust"@,
{
    (
        StatusCode::Success,
        Health {
            status: String::from_str("success"),
            message: String::from_str("Crud usando axum e rust"),
        },
    )
}

/// The statement for a create request that arrives at `now` and is given the
/// identifier `id`, or the validation error for a body with an empty text.
pub open spec fn create_plan(payload: CreateQuote, id: u128, now: Timestamp) -> Result<
    Statement,
    ServiceError,
> {
    if payload.valid() {
        Ok(
            Statement::Insert {
                row: Quote {
                    id,
                    book_name: payload.book_name,
                    quote: payload.quote,
                    inserted_at: now,
                    updated_at: now,
                },
            },
        )
    } else {
        Err(ServiceError::Validation)
    }
}

/// The statement for an update request that arrives at `now`, where `id` is
/// what the path segment was parsed to.
pub open spec fn update_plan(id: Option<u128>, payload: UpdateQuote, now: Timestamp) -> Result<
    Statement,
    ServiceError,
> {
    match id {
        Some(id) if payload.valid() => Ok(
            Statement::UpdateById {
                id,
                book_name: payload.book_name,
                quote: payload.quote,
                updated_at: now,
            },
        ),
        _ => Err(ServiceError::Validation),
    }
}

/// The statement for a delete request, where `id` is what the path segment
/// was parsed to.
pub open spec fn delete_plan(id: Option<u128>) -> Result<Statement, ServiceError> {
    match id {
        Some(id) => Ok(Statement::DeleteById { id }),
        None => Err(ServiceError::Validation),
    }
}

/// How the outcome of an update or a delete is read: no row affected means
/// that the identifier is not in the table.
pub open spec fn write_outcome(result: Result<u64, StorageError>) -> Result<(), ServiceError> {
    match result {
        Ok(rows) => if rows == 0 {
            Err(ServiceError::NotFound)
        } else {
            Ok(())
        },
        Err(e) => Err(ServiceError::Storage(e)),
    }
}

/// The status that answers an update or a delete.
pub open spec fn write_status(result: Result<u64, StorageError>) -> StatusCode {
    match write_outcome(result) {
        Ok(_) => StatusCode::Success,
        Err(e) => e.spec_status(),
    }
}

/// A plan whose error is replaced by the status that is sent for it.
pub open spec fn with_status(plan: Result<Statement, ServiceError>) -> Result<
    Statement,
    StatusCode,
> {
    match plan {
        Ok(statement) => Ok(statement),
        Err(e) => Err(e.spec_status()),
    }
}

fn to_status(plan: Result<Statement, ServiceError>) -> (r: Result<Statement, StatusCode>)
    ensures
        r == with_status(plan),
{
    match plan {
        Ok(statement) => Ok(statement),
        Err(e) => Err(e.status()),
    }
}

/// The create request as a statement, for a given identifier and reading of
/// the clock.
pub fn plan_create(payload: CreateQuote, id: u128, now: Timestamp) -> (r: Result<
    Statement,
    ServiceError,
>)
    ensures
        r == create_plan(payload, id, now),
{
    if payload.is_valid() {
        Ok(Statement::Insert { row: Quote::stamped(id, payload.book_name, payload.quote, now) })
    } else {
        Err(ServiceError::Validation)
    }
}

/// The update request as a statement, for a given outcome of parsing the
/// path segment and a given reading of the clock.
pub fn plan_update(id: Option<u128>, payload: UpdateQuote, now: Timestamp) -> (r: Result<
    Statement,
    ServiceError,
>)
    ensures
        r == update_plan(id, payload, now),
{
    match id {
        Some(id) => {
            if payload.is_valid() {
                Ok(
                    Statement::UpdateById {
                        id,
                        book_name: payload.book_name,
                        quote: payload.quote,
                        updated_at: now,
                    },
                )
            } else {
                Err(ServiceError::Validation)
            }
        },
        None => Err(ServiceError::Validation),
    }
}

/// The delete request as a statement, for a given outcome of parsing the
/// path segment.
pub fn plan_delete(id: Option<u128>) -> (r: Result<Statement, ServiceError>)
    ensures
        r == delete_plan(id),
{
    match id {
        Some(id) => Ok(Statement::DeleteById { id }),
        None => Err(ServiceError::Validation),
    }
}

/// Reads what the store answered to an update or a delete.
pub fn read_write_outcome(result: Result<u64, StorageError>) -> (r: Result<(), ServiceError>)
    ensures
        r == write_outcome(result),
{
    match result {
        Ok(rows) => {
            if rows == 0 {
                Err(ServiceError::NotFound)
            } else {
                Ok(())
            }
        },
        Err(e) => Err(ServiceError::Storage(e)),
    }
}

fn status_of_write(result: Result<u64, StorageError>) -> (s: StatusCode)
    ensures
        s == write_status(result),
{
    match read_write_outcome(result) {
        Ok(_) => StatusCode::Success,
        Err(e) => e.status(),
    }
}

/// Create, first half: checks the body, draws the identifier and reads the
/// clock. A body with an empty text is answered with 400 and nothing is
/// handed to the store.
pub fn create_quote(payload: CreateQuote) -> (r: Result<Statement, StatusCode>)
    ensures
        r is Ok <==> payload.valid(),
        r matches Err(s) ==> s == StatusCode::BadRequest,
        r matches Ok(statement) ==> {
            &&& statement matches Statement::Insert { row }
            &&& is_random_id(row.id)
            &&& create_plan(payload, row.id, row.inserted_at) == Ok::<
                Statement,
                ServiceError,
            >(statement)
        },
{
    let now = Timestamp::now();
    to_status(plan_create(payload, random_id(), now))
}

/// Create, second half: 201 with the quote as it was persisted, or 500 where
/// the store failed.
pub fn quote_created(quote: Quote, result: Result<u64, StorageError>) -> (r: Result<
    (StatusCode, Quote),
    StatusCode,
>)
    ensures
        r == match result {
            Ok(_) => Ok::<(StatusCode, Quote), StatusCode>((StatusCode::Created, quote)),
            Err(e) => Err(ServiceError::Storage(e).spec_status()),
        },
{
    match result {
        Ok(_) => Ok((StatusCode::Created, quote)),
        Err(e) => Err(ServiceError::Storage(e).status()),
    }
}

/// List, first half.
pub fn read_quotes() -> (statement: Statement)
    ensures
        statement == Statement::SelectAll,
{
    Statement::SelectAll
}

/// List, second half: 200 with every row that the store returned, in its
/// order, or 500 where the store failed.
pub fn quotes_read(result: Result<Vec<Quote>, StorageError>) -> (r: Result<
    (StatusCode, Vec<Quote>),
    StatusCode,
>)
    ensures
        r == match result {
            Ok(rows) => Ok::<(StatusCode, Vec<Quote>), StatusCode>((StatusCode::Success, rows)),
            Err(e) => Err(ServiceError::Storage(e).spec_status()),
        },
{
    match result {
        Ok(rows) => Ok((StatusCode::Success, rows)),
        Err(e) => Err(ServiceError::Storage(e).status()),
    }
}

/// Delete, first half: 400 for a path segment that is no identifier in
/// canonical form, before the store is touched.
pub fn delete_quote_by_id(raw_id: &str) -> (r: Result<Statement, StatusCode>)
    ensures
        r == with_status(delete_plan(parsed_id(raw_id@))),
{
    to_status(plan_delete(parse_id(raw_id)))
}

/// Delete, second half: 404 where no row was affected, 200 where one was,
/// 500 where the store failed.
pub fn quote_deleted(result: Result<u64, StorageError>) -> (s: StatusCode)
    ensures
        s == write_status(result),
{
    status_of_write(result)
}

/// Update, first half: 400 for a path segment that is no identifier in
/// canonical form or a body with an empty text; else the statement, stamped
/// with one reading of the clock.
pub fn update_quotes(raw_id: &str, payload: UpdateQuote) -> (r: Result<Statement, StatusCode>)
    ensures
        r is Ok <==> parsed_id(raw_id@) is Some && payload.valid(),
        r matches Err(s) ==> s == StatusCode::BadRequest,
        r matches Ok(statement) ==> {
            &&& statement matches Statement::UpdateById { updated_at, .. }
            &&& update_plan(parsed_id(raw_id@), payload, updated_at) == Ok::<
                Statement,
                ServiceError,
            >(statement)
        },
{
    let now = Timestamp::now();
    to_status(plan_update(parse_id(raw_id), payload, now))
}

/// Update, second half: 404 where no row was affected, 200 where one was,
/// 500 where the store failed.
pub fn quotes_updated(result: Result<u64, StorageError>) -> (s: StatusCode)
    ensures
        s == write_status(result),
{
    status_of_write(result)
}

} // verus!
