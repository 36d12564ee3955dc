use vstd::prelude::*;

use crate::book::{books_view, Book, BookError, BookRecord, NewBook};
use crate::route::Route;

verus! {

/// What the service answers to a request.
#[derive(Debug)]
pub enum Reply {
    /// The service is up; the body is the health report.
    Healthy,
    /// Every book.
    Books(Vec<Book>),
    /// A book that was just inserted.
    Created(Book),
    /// A book that was looked up or just replaced.
    Found(Book),
    /// A book was deleted; there is no body.
    Deleted,
    Failed(BookError),
}

/// The model of a reply.
pub enum Outcome {
    Healthy,
    Books(Seq<(i64, BookRecord)>),
    Created((i64, BookRecord)),
    Found((i64, BookRecord)),
    Deleted,
    Failed(BookError),
}

impl View for Reply {
    type V = Outcome;

    open spec fn view(&self) -> Outcome {
        match self {
            Reply::Healthy => Outcome::Healthy,
            Reply::Books(v) => Outcome::Books(books_view(v@)),
            Reply::Created(b) => Outcome::Created(b@),
            Reply::Found(b) => Outcome::Found(b@),
            Reply::Deleted => Outcome::Deleted,
            Reply::Failed(e) => Outcome::Failed(*e),
        }
    }
}

/// The HTTP status code of an error.
pub open spec fn error_status(e: BookError) -> u16 {
    match e {
        BookError::NotFound => 404,
        BookError::MissingTitle => 400,
        BookError::MissingAuthor => 400,
        BookError::InvalidId => 400,
        BookError::InvalidBody => 400,
        BookError::UnsupportedMethod => 405,
        BookError::Storage => 500,
    }
}

/// The HTTP status code of a reply.
pub open spec fn outcome_status(o: Outcome) -> u16 {
    match o {
        Outcome::Healthy => 200,
        Outcome::Books(_) => 200,
        Outcome::Created(_) => 201,
        Outcome::Found(_) => 200,
        Outcome::Deleted => 204,
        Outcome::Failed(e) => error_status(e),
    }
}

impl BookError {
    /// The HTTP status code of the error.
    pub fn status(&self) -> (r: u16)
        ensures
            r == error_status(*self),
    {
        match self {
            BookError::NotFound => 404,
            BookError::MissingTitle => 400,
            BookError::MissingAuthor => 400,
            BookError::InvalidId => 400,
            BookError::InvalidBody => 400,
            BookError::UnsupportedMethod => 405,
            BookError::Storage => 500,
        }
    }
}

impl Reply {
    /// The HTTP status code of the reply.
    pub fn status(&self) -> (r: u16)
        ensures
            r == outcome_status(self@),
    {
        match self {
            Reply::Healthy => 200,
            Reply::Books(_) => 200,
            Reply::Created(_) => 201,
            Reply::Found(_) => 200,
            Reply::Deleted => 204,
            Reply::Failed(e) => e.status(),
        }
    }
}

impl Route {
    /// The error that a route answers with by itself, before any storage
    /// work: a malformed identifier, a method the path does not serve, or
    /// an unknown path.
    pub fn error(&self) -> (r: Option<BookError>)
        ensures
            r == route_error(*self),
    {
        match self {
            Route::InvalidId => Some(BookError::InvalidId),
            Route::MethodNotAllowed => Some(BookError::UnsupportedMethod),
            Route::NotFound => Some(BookError::NotFound),
            _ => None,
        }
    }
}

pub open spec fn route_error(r: Route) -> Option<BookError> {
    match r {
        Route::InvalidId => Some(BookError::InvalidId),
        Route::MethodNotAllowed => Some(BookError::UnsupportedMethod),
        Route::NotFound => Some(BookError::NotFound),
        _ => None,
    }
}

/// The reply to a listing, given the rows that the storage engine read or
/// its failure; a failed read yields no partial list.
pub fn list_reply(rows: Result<Vec<Book>, BookError>) -> (r: Reply)
    ensures
        rows.is_ok() ==> r@ == Outcome::Books(books_view(rows.unwrap()@)),
        rows.is_err() ==> r@ == Outcome::Failed(rows.unwrap_err()),
{
    match rows {
        Ok(v) => Reply::Books(v),
        Err(e) => Reply::Failed(e),
    }
}

/// The reply to a lookup, given the row that the storage engine found, if
/// any, or its failure.
pub fn get_reply(row: Result<Option<Book>, BookError>) -> (r: Reply)
    ensures
        row.is_ok() && row.unwrap().is_some() ==> r@ == Outcome::Found(row.unwrap().unwrap()@),
        row.is_ok() && row.unwrap().is_none() ==> r@ == Outcome::Failed(BookError::NotFound),
        row.is_err() ==> r@ == Outcome::Failed(row.unwrap_err()),
{
    match row {
        Ok(Some(b)) => Reply::Found(b),
        Ok(None) => Reply::Failed(BookError::NotFound),
        Err(e) => Reply::Failed(e),
    }
}

/// The reply to an insertion of `book`, given the identifier that the
/// storage engine assigned or its failure.
pub fn create_reply(book: &NewBook, inserted: Result<i64, BookError>) -> (r: Reply)
    ensures
        inserted.is_ok() ==> r@ == Outcome::Created((inserted.unwrap(), book@)),
        inserted.is_err() ==> r@ == Outcome::Failed(inserted.unwrap_err()),
{
    match inserted {
        Ok(id) => Reply::Created(book.with_id(id)),
        Err(e) => Reply::Failed(e),
    }
}

/// The reply to a replacement of row `id` by `book`, given how many rows the
/// storage engine changed or its failure. The path's identifier stands in
/// the reply; no change means no such row.
pub fn update_reply(id: i64, book: &NewBook, affected: Result<u64, BookError>) -> (r: Reply)
    ensures
        affected == Ok::<u64, BookError>(0) ==> r@ == Outcome::Failed(BookError::NotFound),
        affected.is_ok() && affected.unwrap() > 0 ==> r@ == Outcome::Found((id, book@)),
        affected.is_err() ==> r@ == Outcome::Failed(affected.unwrap_err()),
{
    match affected {
        Ok(n) => if n == 0 {
            Reply::Failed(BookError::NotFound)
        } else {
            Reply::Found(book.with_id(id))
        },
        Err(e) => Reply::Failed(e),
    }
}

/// The reply to a deletion, given how many rows the storage engine removed
/// or its failure; none removed means no such row.
pub fn delete_reply(affected: Result<u64, BookError>) -> (r: Reply)
    ensures
        affected == Ok::<u64, BookError>(0) ==> r@ == Outcome::Failed(BookError::NotFound),
        affected.is_ok() && affected.unwrap() > 0 ==> r@ == Outcome::Deleted,
        affected.is_err() ==> r@ == Outcome::Failed(affected.unwrap_err()),
{
    match affected {
        Ok(n) => if n == 0 {
            Reply::Failed(BookError::NotFound)
        } else {
            Reply::Deleted
        },
        Err(e) => Reply::Failed(e),
    }
}

} // verus!
