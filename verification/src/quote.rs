use crate::clock::Timestamp;
use crate::error::ServiceError;
use crate::ident::{is_random_id, random_id};
use vstd::prelude::*;

verus! {

/// Both texts of a quote are required to be non-empty.
pub open spec fn valid_texts(book_name: Seq<char>, quote: Seq<char>) -> bool {
    book_name.len() > 0 && quote.len() > 0
}

fn texts_are_valid(book_name: &String, quote: &String) -> (b: bool)
    ensures
        b == valid_texts(book_name@, quote@),
{
    !book_name.as_str().is_empty() && !quote.as_str().is_empty()
}

/// The body of a request that creates a quote.
#[derive(Clone, Debug, PartialEq, Eq)]
pub struct CreateQuote {
    pub book_name: String,
    pub quote: String,
}

/// The body of a request that replaces the texts of a quote.
#[derive(Clone, Debug, PartialEq, Eq)]
pub struct UpdateQuote {
    pub book_name: String,
    pub quote: String,
}

impl CreateQuote {
    /// Neither text is empty.
    pub open spec fn valid(self) -> bool {
        valid_texts(self.book_name@, self.quote@)
    }

    /// Whether neither text is empty.
    pub fn is_valid(&self) -> (b: bool)
        ensures
            b == self.valid(),
    {
        texts_are_valid(&self.book_name, &self.quote)
    }

    /// Builds the body from the fields that were decoded. A field that is
    /// missing or empty is a validation error.
    pub fn from_fields(book_name: Option<String>, quote: Option<String>) -> (r: Result<
        CreateQuote,
        ServiceError,
    >)
        ensures
            r is Ok <==> book_name is Some && quote is Some && valid_texts(
                book_name->Some_0@,
                quote->Some_0@,
            ),
            r matches Ok(body) ==> body.book_name == book_name->Some_0 && body.quote
                == quote->Some_0,
            r matches Err(e) ==> e == ServiceError::Validation,
    {
        match (book_name, quote) {
            (Some(book_name), Some(quote)) => {
                if texts_are_valid(&book_name, &quote) {
                    Ok(CreateQuote { book_name, quote })
                } else {
                    Err(ServiceError::Validation)
                }
            },
            _ => Err(ServiceError::Validation),
        }
    }
}

impl UpdateQuote {
    /// Neither text is empty.
    pub open spec fn valid(self) -> bool {
        valid_texts(self.book_name@, self.quote@)
    }

    /// Whether neither text is empty.
    pub fn is_valid(&self) -> (b: bool)
        ensures
            b == self.valid(),
    {
        texts_are_valid(&self.book_name, &self.quote)
    }

    /// Builds the body from the fields that were decoded. A field that is
    /// missing or empty is a validation error.
    pub fn from_fields(book_name: Option<String>, quote: Option<String>) -> (r: Result<
        UpdateQuote,
        ServiceError,
    >)
        ensures
            r is Ok <==> book_name is Some && quote is Some && valid_texts(
                book_name->Some_0@,
                quote->Some_0@,
            ),
            r matches Ok(body) ==> body.book_name == book_name->Some_0 && body.quote
                == quote->Some_0,
            r matches Err(e) ==> e == ServiceError::Validation,
    {
        match (book_name, quote) {
            (Some(book_name), Some(quote)) => {
                if texts_are_valid(&book_name, &quote) {
                    Ok(UpdateQuote { book_name, quote })
                } else {
                    Err(ServiceError::Validation)
                }
            },
            _ => Err(ServiceError::Validation),
        }
    }
}

/// An attributed passage with its identity and timestamps.
#[derive(Clone, Debug, PartialEq, Eq)]
pub struct Quote {
    pub id: u128,
    pub book_name: String,
    pub quote: String,
    pub inserted_at: Timestamp,
    pub updated_at: Timestamp,
}

/// A quote as the contracts see it: one row of the table.
pub struct Row {
    pub id: u128,
    pub book_name: Seq<char>,
    pub quote: Seq<char>,
    pub inserted_at: Timestamp,
    pub updated_at: Timestamp,
}

impl Row {
    /// Non-empty texts, and never updated before it was inserted.
    pub open spec fn well_formed(self) -> bool {
        &&& valid_texts(self.book_name, self.quote)
        &&& self.inserted_at.not_after(self.updated_at)
    }
}

impl View for Quote {
    type V = Row;

    open spec fn view(&self) -> Row {
        Row {
            id: self.id,
            book_name: self.book_name@,
            quote: self.quote@,
            inserted_at: self.inserted_at,
            updated_at: self.updated_at,
        }
    }
}

impl Quote {
    /// A quote that is created at `now` under the identifier `id`.
    pub fn stamped(id: u128, book_name: String, quote: String, now: Timestamp) -> (q: Quote)
        ensures
            q == (Quote { id, book_name, quote, inserted_at: now, updated_at: now }),
    {
        Quote { id, book_name, quote, inserted_at: now, updated_at: now }
    }

    /// A new quote: the identifier is drawn at random and both timestamps are
    /// one reading of the clock.
    pub fn new(book_name: String, quote: String) -> (q: Quote)
        ensures
            q.book_name == book_name,
            q.quote == quote,
            q.inserted_at == q.updated_at,
            is_random_id(q.id),
    {
        let now = Timestamp::now();
        Quote::stamped(random_id(), book_name, quote, now)
    }

    /// Whether the texts are non-empty and the quote was not updated before
    /// it was inserted.
    pub fn is_well_formed(&self) -> (b: bool)
        ensures
            b == self@.well_formed(),
    {
        texts_are_valid(&self.book_name, &self.quote) && !self.updated_at.is_before(
            &self.inserted_at,
        )
    }
}

} // verus!
