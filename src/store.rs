use vstd::prelude::*;

use crate::book::{books_view, record_error, valid_record, Book, BookError, BookRecord, NewBook};
use crate::reply::{Outcome, Reply};
use crate::route::{route, route_of, Method, Route};
use crate::table::{
    create_result, delete_result, get_result, list_result, listed_below, update_result,
    TableModel,
};

verus! {

/// The table after a request, and the reply. `payload` is the book that the
/// request body holds, if it holds one.
pub open spec fn serve_result(
    t: TableModel,
    m: Method,
    path: Seq<u8>,
    payload: Option<BookRecord>,
) -> (TableModel, Outcome) {
    match route_of(m, path) {
        Route::Health => (t, Outcome::Healthy),
        Route::ListBooks => (t, Outcome::Books(list_result(t))),
        Route::CreateBook => match payload {
            None => (t, Outcome::Failed(BookError::InvalidBody)),
            Some(b) => {
                let (t2, r) = create_result(t, b);
                match r {
                    Ok(id) => (t2, Outcome::Created((id, b))),
                    Err(e) => (t2, Outcome::Failed(e)),
                }
            },
        },
        Route::GetBook(id) => match get_result(t, id as int) {
            Ok(b) => (t, Outcome::Found((id, b))),
            Err(e) => (t, Outcome::Failed(e)),
        },
        Route::UpdateBook(id) => match payload {
            None => (t, Outcome::Failed(BookError::InvalidBody)),
            Some(b) => {
                let (t2, r) = update_result(t, id as int, b);
                match r {
                    Ok(_) => (t2, Outcome::Found((id, b))),
                    Err(e) => (t2, Outcome::Failed(e)),
                }
            },
        },
        Route::DeleteBook(id) => {
            let (t2, r) = delete_result(t, id as int);
            match r {
                Ok(_) => (t2, Outcome::Deleted),
                Err(e) => (t2, Outcome::Failed(e)),
            }
        },
        Route::InvalidId => (t, Outcome::Failed(BookError::InvalidId)),
        Route::MethodNotAllowed => (t, Outcome::Failed(BookError::UnsupportedMethod)),
        Route::NotFound => (t, Outcome::Failed(BookError::NotFound)),
    }
}

/// The verified in-memory model of the book table, usable as a table of its
/// own. The HTTP service keeps its rows in SQLite; this type gives the
/// table's rules a form that is proved. Identifiers are assigned in
/// increasing order from 1 and never reused: slot `i` holds the row with
/// identifier `i + 1`, or nothing once that row is deleted.
pub struct BookStore {
    slots: Vec<Option<Book>>,
}

impl View for BookStore {
    type V = TableModel;

    closed spec fn view(&self) -> TableModel {
        TableModel {
            rows: Map::new(
                |id: int| 1 <= id <= self.slots@.len() && self.slots@[id - 1].is_some(),
                |id: int| self.slots@[id - 1].unwrap()@.1,
            ),
            next_id: self.slots@.len() as int + 1,
        }
    }
}

impl BookStore {
    /// Each slot holds the row of its own identifier, every row is valid,
    /// and the identifiers fit in an `i64`.
    pub closed spec fn wf(&self) -> bool {
        &&& self.slots@.len() <= i64::MAX
        &&& forall|i: int|
            0 <= i < self.slots@.len() && #[trigger] self.slots@[i].is_some() ==> {
                &&& self.slots@[i].unwrap().id == i + 1
                &&& valid_record(self.slots@[i].unwrap()@.1)
            }
    }

    /// The model of a well-formed store is well formed.
    pub proof fn lemma_wf(&self)
        requires
            self.wf(),
        ensures
            self@.wf(),
    {
        assert forall|id: int| #[trigger] self@.rows.contains_key(id) implies 1 <= id
            < self@.next_id && valid_record(self@.rows[id]) by {
            assert(self.slots@[id - 1].is_some());
        }
    }

    /// A table with no rows, whose first insertion receives identifier 1.
    pub fn new() -> (r: BookStore)
        ensures
            r.wf(),
            r@ == TableModel::empty(),
    {
        let r = BookStore { slots: Vec::new() };
        assert(r@.rows =~= Map::<int, BookRecord>::empty());
        r
    }

    /// Inserts a new row with the next identifier and returns it.
    pub fn create(&mut self, book: &NewBook) -> (r: Result<Book, BookError>)
        requires
            old(self).wf(),
        ensures
            final(self).wf(),
            final(self)@ == create_result(old(self)@, book@).0,
            r.is_ok() == create_result(old(self)@, book@).1.is_ok(),
            r.is_ok() ==> r.unwrap()@ == (create_result(old(self)@, book@).1.unwrap(), book@),
            r.is_err() ==> r == Err::<Book, BookError>(
                create_result(old(self)@, book@).1.unwrap_err(),
            ),
    {
        match book.validate() {
            Err(e) => {
                return Err(e);
            },
            Ok(()) => {},
        }
        let n = self.slots.len();
        if n as u64 >= i64::MAX as u64 {
            return Err(BookError::Storage);
        }
        let id = (n as u64 + 1) as i64;
        let row = book.with_id(id);
        let reply = row.duplicate();
        self.slots.push(Some(row));
        assert(self@.rows =~= old(self)@.rows.insert(id as int, book@));
        Ok(reply)
    }

    /// The row with the given identifier.
    pub fn get(&self, id: i64) -> (r: Result<Book, BookError>)
        requires
            self.wf(),
        ensures
            r.is_ok() == get_result(self@, id as int).is_ok(),
            r.is_ok() ==> r.unwrap()@ == (id, get_result(self@, id as int).unwrap()),
            r.is_err() ==> r == Err::<Book, BookError>(BookError::NotFound),
    {
        if id < 1 || id as u64 > self.slots.len() as u64 {
            return Err(BookError::NotFound);
        }
        let i = (id - 1) as usize;
        match &self.slots[i] {
            Some(b) => Ok(b.duplicate()),
            None => Err(BookError::NotFound),
        }
    }

    /// Replaces the fields of the row with the given identifier and returns
    /// the row as it now stands.
    pub fn update(&mut self, id: i64, book: &NewBook) -> (r: Result<Book, BookError>)
        requires
            old(self).wf(),
        ensures
            final(self).wf(),
            final(self)@ == update_result(old(self)@, id as int, book@).0,
            r.is_ok() == update_result(old(self)@, id as int, book@).1.is_ok(),
            r.is_ok() ==> r.unwrap()@ == (id, book@),
            r.is_err() ==> r == Err::<Book, BookError>(
                update_result(old(self)@, id as int, book@).1.unwrap_err(),
            ),
    {
        match book.validate() {
            Err(e) => {
                return Err(e);
            },
            Ok(()) => {},
        }
        if id < 1 || id as u64 > self.slots.len() as u64 {
            return Err(BookError::NotFound);
        }
        let i = (id - 1) as usize;
        if self.slots[i].is_none() {
            return Err(BookError::NotFound);
        }
        let row = book.with_id(id);
        let reply = row.duplicate();
        self.slots.set(i, Some(row));
        assert(self@.rows =~= old(self)@.rows.insert(id as int, book@));
        Ok(reply)
    }

    /// Removes the row with the given identifier for good.
    pub fn delete(&mut self, id: i64) -> (r: Result<(), BookError>)
        requires
            old(self).wf(),
        ensures
            final(self).wf(),
            final(self)@ == delete_result(old(self)@, id as int).0,
            r == delete_result(old(self)@, id as int).1,
    {
        if id < 1 || id as u64 > self.slots.len() as u64 {
            return Err(BookError::NotFound);
        }
        let i = (id - 1) as usize;
        if self.slots[i].is_none() {
            return Err(BookError::NotFound);
        }
        self.slots.set(i, None);
        assert(self@.rows =~= old(self)@.rows.remove(id as int));
        Ok(())
    }

    /// Every row, in increasing order of identifier.
    pub fn list(&self) -> (r: Vec<Book>)
        requires
            self.wf(),
        ensures
            books_view(r@) == list_result(self@),
    {
        let mut r: Vec<Book> = Vec::new();
        let mut i: usize = 0;
        while i < self.slots.len()
            invariant
                self.wf(),
                i <= self.slots@.len(),
                r@.len() == listed_below(self@, i + 1).len(),
                forall|k: int|
                    0 <= k < r@.len() ==> #[trigger] r@[k]@ == listed_below(self@, i + 1)[k],
            decreases self.slots@.len() - i,
        {
            match &self.slots[i] {
                Some(b) => {
                    r.push(b.duplicate());
                },
                None => {},
            }
            i = i + 1;
        }
        assert(books_view(r@) =~= list_result(self@));
        r
    }

    /// Answers a request with method `m` and path `path` against this
    /// table; `payload` is the book that the request body holds, if it
    /// holds one.
    pub fn serve(&mut self, m: Method, path: &[u8], payload: Option<NewBook>) -> (r: Reply)
        requires
            old(self).wf(),
        ensures
            final(self).wf(),
            (final(self)@, r@) == serve_result(
                old(self)@,
                m,
                path@,
                match payload {
                    Some(b) => Some(b@),
                    None => None,
                },
            ),
    {
        match route(m, path) {
            Route::Health => Reply::Healthy,
            Route::ListBooks => Reply::Books(self.list()),
            Route::CreateBook => match payload {
                None => Reply::Failed(BookError::InvalidBody),
                Some(b) => match self.create(&b) {
                    Ok(book) => Reply::Created(book),
                    Err(e) => Reply::Failed(e),
                },
            },
            Route::GetBook(id) => match self.get(id) {
                Ok(book) => Reply::Found(book),
                Err(e) => Reply::Failed(e),
            },
            Route::UpdateBook(id) => match payload {
                None => Reply::Failed(BookError::InvalidBody),
                Some(b) => match self.update(id, &b) {
                    Ok(book) => Reply::Found(book),
                    Err(e) => Reply::Failed(e),
                },
            },
            Route::DeleteBook(id) => match self.delete(id) {
                Ok(()) => Reply::Deleted,
                Err(e) => Reply::Failed(e),
            },
            Route::InvalidId => Reply::Failed(BookError::InvalidId),
            Route::MethodNotAllowed => Reply::Failed(BookError::UnsupportedMethod),
            Route::NotFound => Reply::Failed(BookError::NotFound),
        }
    }
}

} // verus!
