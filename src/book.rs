use vstd::prelude::*;

verus! {

/// The field values of a book, as the contracts speak of them.
pub struct BookRecord {
    pub title: Seq<char>,
    pub author: Seq<char>,
    pub published_year: Option<i32>,
}

/// A stored book: its identifier, assigned by the table, and its fields.
#[derive(Clone, Debug)]
pub struct Book {
    pub id: i64,
    pub title: String,
    pub author: String,
    pub published_year: Option<i32>,
}

/// The fields of a book that has no identifier yet, as a request carries them.
#[derive(Clone, Debug)]
pub struct NewBook {
    pub title: String,
    pub author: String,
    pub published_year: Option<i32>,
}

/// Why a request on the book table did not succeed.
#[derive(PartialEq, Eq, Structural, Clone, Copy, Debug)]
pub enum BookError {
    /// No book has the requested identifier.
    NotFound,
    /// The payload lacks a title, or the title is empty.
    MissingTitle,
    /// The payload lacks an author, or the author is empty.
    MissingAuthor,
    /// The identifier in the path is not an integer.
    InvalidId,
    /// The request body is absent or is not a book.
    InvalidBody,
    /// The path exists but does not serve the request's method.
    UnsupportedMethod,
    /// The storage engine failed or refused the statement.
    Storage,
}

/// A record is valid when its title and its author are non-empty.
pub open spec fn valid_record(r: BookRecord) -> bool {
    r.title.len() > 0 && r.author.len() > 0
}

/// The error that validation reports for a record, if any.
pub open spec fn record_error(r: BookRecord) -> Option<BookError> {
    if r.title.len() == 0 {
        Some(BookError::MissingTitle)
    } else if r.author.len() == 0 {
        Some(BookError::MissingAuthor)
    } else {
        None
    }
}

/// The views of a sequence of books.
pub open spec fn books_view(v: Seq<Book>) -> Seq<(i64, BookRecord)> {
    v.map_values(|b: Book| b@)
}

impl View for NewBook {
    type V = BookRecord;

    open spec fn view(&self) -> BookRecord {
        BookRecord { title: self.title@, author: self.author@, published_year: self.published_year }
    }
}

impl View for Book {
    type V = (i64, BookRecord);

    open spec fn view(&self) -> (i64, BookRecord) {
        (
            self.id,
            BookRecord {
                title: self.title@,
                author: self.author@,
                published_year: self.published_year,
            },
        )
    }
}

impl NewBook {
    /// Builds a payload from fields that may be absent; a missing or empty
    /// title or author is refused.
    pub fn from_fields(
        title: Option<String>,
        author: Option<String>,
        published_year: Option<i32>,
    ) -> (r: Result<NewBook, BookError>)
        ensures
            title.is_none() || title.unwrap()@.len() == 0 ==> r == Err::<NewBook, BookError>(
                BookError::MissingTitle,
            ),
            title.is_some() && title.unwrap()@.len() > 0 && (author.is_none()
                || author.unwrap()@.len() == 0) ==> r == Err::<NewBook, BookError>(
                BookError::MissingAuthor,
            ),
            title.is_some() && author.is_some() && title.unwrap()@.len() > 0
                && author.unwrap()@.len() > 0 ==> r.is_ok() && r.unwrap()@ == (BookRecord {
                title: title.unwrap()@,
                author: author.unwrap()@,
                published_year,
            }),
    {
        match title {
            None => Err(BookError::MissingTitle),
            Some(t) => {
                if t.as_str().is_empty() {
                    return Err(BookError::MissingTitle);
                }
                match author {
                    None => Err(BookError::MissingAuthor),
                    Some(a) => {
                        if a.as_str().is_empty() {
                            return Err(BookError::MissingAuthor);
                        }
                        Ok(NewBook { title: t, author: a, published_year })
                    },
                }
            },
        }
    }

    /// Checks that the title and the author are non-empty.
    pub fn validate(&self) -> (r: Result<(), BookError>)
        ensures
            record_error(self@).is_none() ==> r.is_ok(),
            record_error(self@).is_some() ==> r == Err::<(), BookError>(
                record_error(self@).unwrap(),
            ),
    {
        if self.title.as_str().is_empty() {
            Err(BookError::MissingTitle)
        } else if self.author.as_str().is_empty() {
            Err(BookError::MissingAuthor)
        } else {
            Ok(())
        }
    }

    /// The stored book that these fields make under the given identifier.
    pub fn with_id(&self, id: i64) -> (r: Book)
        ensures
            r@ == (id, self@),
    {
        Book {
            id,
            title: self.title.clone(),
            author: self.author.clone(),
            published_year: self.published_year,
        }
    }
}

impl Book {
    /// A copy of the book.
    pub fn duplicate(&self) -> (r: Book)
        ensures
            r@ == self@,
    {
        Book {
            id: self.id,
            title: self.title.clone(),
            author: self.author.clone(),
            published_year: self.published_year,
        }
    }
}

} // verus!
