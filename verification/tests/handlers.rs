use quotes_api::clock::Timestamp;
use quotes_api::error::{ServiceError, StatusCode, StorageError};
use quotes_api::handlers::{
    check_health, create_quote, delete_quote_by_id, plan_create, plan_delete, plan_update,
    quote_created, quote_deleted, quotes_read, quotes_updated, read_quotes, read_write_outcome,
    update_quotes,
};
use quotes_api::ident::has_random_version;
use quotes_api::quote::{CreateQuote, Quote, UpdateQuote};
use quotes_api::repository::Statement;

const ID_TEXT: &str = "67e55044-10b1-426f-9247-bb680e5fe0c8";
const ID: u128 = 0x67e5504410b1426f9247bb680e5fe0c8u128;

fn create_body(book_name: &str, quote: &str) -> CreateQuote {
    CreateQuote { book_name: book_name.to_string(), quote: quote.to_string() }
}

fn update_body(book_name: &str, quote: &str) -> UpdateQuote {
    UpdateQuote { book_name: book_name.to_string(), quote: quote.to_string() }
}

#[test]
fn health_payload_is_static() {
    let (status, health) = check_health();
    assert_eq!(status, StatusCode::Success);
    assert_eq!(health.status, "success");
    assert_eq!(health.message, "Crud usando axum e rust");
    assert_eq!(check_health(), (status, health));
}

#[test]
fn create_plans_an_insert_of_the_whole_quote() {
    let now = Timestamp { secs: 1_700_000_000, nanos: 123 };
    assert_eq!(
        plan_create(create_body("Dune", "Fear is the mind-killer"), ID, now),
        Ok(Statement::Insert {
            row: Quote {
                id: ID,
                book_name: "Dune".to_string(),
                quote: "Fear is the mind-killer".to_string(),
                inserted_at: now,
                updated_at: now,
            }
        })
    );
}

#[test]
fn create_with_an_empty_text_is_a_validation_error() {
    let now = Timestamp { secs: 1, nanos: 0 };
    assert_eq!(plan_create(create_body("", "Fear"), ID, now), Err(ServiceError::Validation));
    assert_eq!(plan_create(create_body("Dune", ""), ID, now), Err(ServiceError::Validation));
    assert_eq!(plan_create(create_body("", ""), ID, now), Err(ServiceError::Validation));
}

#[test]
fn create_quote_rejects_empty_texts_with_400() {
    assert_eq!(create_quote(create_body("", "Fear")), Err(StatusCode::BadRequest));
    assert_eq!(create_quote(create_body("Dune", "")), Err(StatusCode::BadRequest));
}

#[test]
fn create_quote_assigns_identifier_and_timestamps() {
    match create_quote(create_body("Dune", "Fear is the mind-killer")) {
        Ok(Statement::Insert { row }) => {
            assert_eq!(row.book_name, "Dune");
            assert_eq!(row.quote, "Fear is the mind-killer");
            assert_eq!(row.inserted_at, row.updated_at);
            assert!(has_random_version(row.id));
            assert!(row.inserted_at.secs > 0);
        }
        other => panic!("no insert was planned: {:?}", other),
    }
}

#[test]
fn two_creates_get_two_identifiers() {
    let first = create_quote(create_body("Dune", "Fear is the mind-killer"));
    let second = create_quote(create_body("Dune", "Fear is the mind-killer"));
    match (first, second) {
        (Ok(Statement::Insert { row: a }), Ok(Statement::Insert { row: b })) => {
            assert_ne!(a.id, b.id)
        }
        other => panic!("no insert was planned: {:?}", other),
    }
}

#[test]
fn created_quote_is_answered_with_201() {
    let now = Timestamp { secs: 5, nanos: 6 };
    let quote = Quote::stamped(ID, "Dune".to_string(), "Fear".to_string(), now);
    assert_eq!(quote_created(quote.clone(), Ok(1)), Ok((StatusCode::Created, quote.clone())));
    assert_eq!(
        quote_created(quote.clone(), Err(StorageError::Constraint)),
        Err(StatusCode::InternalServerError)
    );
    assert_eq!(
        quote_created(quote, Err(StorageError::Connectivity)),
        Err(StatusCode::InternalServerError)
    );
}

#[test]
fn list_selects_everything() {
    assert_eq!(read_quotes(), Statement::SelectAll);
    assert_eq!(read_quotes().sql(), "SELECT * FROM quotes");
}

#[test]
fn listed_rows_are_passed_on_in_order() {
    let now = Timestamp { secs: 5, nanos: 6 };
    let rows = vec![
        Quote::stamped(2, "B".to_string(), "b".to_string(), now),
        Quote::stamped(1, "A".to_string(), "a".to_string(), now),
    ];
    assert_eq!(quotes_read(Ok(rows.clone())), Ok((StatusCode::Success, rows)));
    assert_eq!(quotes_read(Ok(Vec::new())), Ok((StatusCode::Success, Vec::new())));
    assert_eq!(quotes_read(Err(StorageError::Query)), Err(StatusCode::InternalServerError));
}

#[test]
fn delete_plans_a_delete_by_id() {
    assert_eq!(delete_quote_by_id(ID_TEXT), Ok(Statement::DeleteById { id: ID }));
    assert_eq!(plan_delete(Some(ID)), Ok(Statement::DeleteById { id: ID }));
    assert_eq!(plan_delete(None), Err(ServiceError::Validation));
}

#[test]
fn delete_of_an_unparseable_id_is_400() {
    assert_eq!(delete_quote_by_id("42"), Err(StatusCode::BadRequest));
    assert_eq!(delete_quote_by_id(""), Err(StatusCode::BadRequest));
    assert_eq!(
        delete_quote_by_id("67e5504410b1426f9247bb680e5fe0c8"),
        Err(StatusCode::BadRequest)
    );
}

#[test]
fn update_plans_an_update_by_id() {
    let now = Timestamp { secs: 9, nanos: 1 };
    assert_eq!(
        plan_update(Some(ID), update_body("Dune", "I must not fear"), now),
        Ok(Statement::UpdateById {
            id: ID,
            book_name: "Dune".to_string(),
            quote: "I must not fear".to_string(),
            updated_at: now,
        })
    );
    assert_eq!(
        plan_update(None, update_body("Dune", "I must not fear"), now),
        Err(ServiceError::Validation)
    );
    assert_eq!(plan_update(Some(ID), update_body("", "x"), now), Err(ServiceError::Validation));
    assert_eq!(plan_update(Some(ID), update_body("x", ""), now), Err(ServiceError::Validation));
}

#[test]
fn update_quotes_stamps_the_statement() {
    let before = chrono::Utc::now().timestamp();
    match update_quotes(ID_TEXT, update_body("Dune", "I must not fear")) {
        Ok(Statement::UpdateById { id, book_name, quote, updated_at }) => {
            assert_eq!(id, ID);
            assert_eq!(book_name, "Dune");
            assert_eq!(quote, "I must not fear");
            assert!(updated_at.secs >= before);
        }
        other => panic!("no update was planned: {:?}", other),
    }
}

#[test]
fn update_of_an_unparseable_id_is_400() {
    assert_eq!(
        update_quotes("nonsense", update_body("Dune", "I must not fear")),
        Err(StatusCode::BadRequest)
    );
    assert_eq!(update_quotes(ID_TEXT, update_body("", "x")), Err(StatusCode::BadRequest));
}

#[test]
fn no_row_affected_is_404() {
    assert_eq!(quote_deleted(Ok(0)), StatusCode::NotFound);
    assert_eq!(quotes_updated(Ok(0)), StatusCode::NotFound);
    assert_eq!(read_write_outcome(Ok(0)), Err(ServiceError::NotFound));
}

#[test]
fn rows_affected_is_200() {
    assert_eq!(quote_deleted(Ok(1)), StatusCode::Success);
    assert_eq!(quotes_updated(Ok(1)), StatusCode::Success);
    assert_eq!(quote_deleted(Ok(2)), StatusCode::Success);
    assert_eq!(quotes_updated(Ok(u64::MAX)), StatusCode::Success);
    assert_eq!(read_write_outcome(Ok(1)), Ok(()));
}

#[test]
fn store_failure_is_500() {
    assert_eq!(quote_deleted(Err(StorageError::Connectivity)), StatusCode::InternalServerError);
    assert_eq!(quotes_updated(Err(StorageError::Query)), StatusCode::InternalServerError);
    assert_eq!(
        read_write_outcome(Err(StorageError::Constraint)),
        Err(ServiceError::Storage(StorageError::Constraint))
    );
}

#[test]
fn statements_name_the_same_columns() {
    let now = Timestamp { secs: 5, nanos: 6 };
    let insert = Statement::Insert {
        row: Quote::stamped(ID, "Dune".to_string(), "Fear".to_string(), now),
    };
    assert_eq!(
        insert.sql(),
        "INSERT INTO quotes (id, book_name, quote, inserted_at, updated_at) VALUES ($1, $2, $3, $4, $5)"
    );
    let update = Statement::UpdateById {
        id: ID,
        book_name: "Dune".to_string(),
        quote: "Fear".to_string(),
        updated_at: now,
    };
    assert_eq!(
        update.sql(),
        "UPDATE quotes SET book_name = $1, quote = $2, updated_at = $3 WHERE id = $4"
    );
    assert_eq!(Statement::DeleteById { id: ID }.sql(), "DELETE FROM quotes WHERE id = $1");
}
