use vstd::prelude::*;

use crate::book::{record_error, valid_record, BookError, BookRecord};

verus! {

/// The book table as the contracts speak of it: the rows by identifier, and
/// the identifier that the next insertion receives.
pub struct TableModel {
    pub rows: Map<int, BookRecord>,
    pub next_id: int,
}

impl TableModel {
    /// Every row is valid and has an identifier below the next one, which
    /// is positive and at most one past the largest `i64`.
    pub open spec fn wf(self) -> bool {
        &&& 1 <= self.next_id <= i64::MAX + 1
        &&& forall|id: int| #[trigger]
            self.rows.contains_key(id) ==> 1 <= id < self.next_id && valid_record(
                self.rows[id],
            )
    }

    /// A table that has never held a row.
    pub open spec fn empty() -> TableModel {
        TableModel { rows: Map::empty(), next_id: 1 }
    }
}

/// The rows with an identifier below `k`, in increasing order of identifier.
pub open spec fn listed_below(m: TableModel, k: int) -> Seq<(i64, BookRecord)>
    decreases k,
{
    if k <= 1 {
        Seq::empty()
    } else if m.rows.contains_key(k - 1) {
        listed_below(m, k - 1).push(((k - 1) as i64, m.rows[k - 1]))
    } else {
        listed_below(m, k - 1)
    }
}

/// Every row of the table, in increasing order of identifier.
pub open spec fn list_result(m: TableModel) -> Seq<(i64, BookRecord)> {
    listed_below(m, m.next_id)
}

/// What a lookup by identifier yields.
pub open spec fn get_result(m: TableModel, id: int) -> Result<BookRecord, BookError> {
    if m.rows.contains_key(id) {
        Ok(m.rows[id])
    } else {
        Err(BookError::NotFound)
    }
}

/// The table after an insertion, and the identifier it assigned or the error.
/// An invalid payload is refused; a table whose identifiers are spent
/// refuses every insertion.
pub open spec fn create_result(m: TableModel, p: BookRecord) -> (TableModel, Result<
    i64,
    BookError,
>) {
    if record_error(p).is_some() {
        (m, Err(record_error(p).unwrap()))
    } else if m.next_id > i64::MAX {
        (m, Err(BookError::Storage))
    } else {
        (
            TableModel { rows: m.rows.insert(m.next_id, p), next_id: m.next_id + 1 },
            Ok(m.next_id as i64),
        )
    }
}

/// The table after a whole-record replacement, and the outcome. An invalid
/// payload is refused; an absent row is not created.
pub open spec fn update_result(m: TableModel, id: int, p: BookRecord) -> (TableModel, Result<
    (),
    BookError,
>) {
    if record_error(p).is_some() {
        (m, Err(record_error(p).unwrap()))
    } else if !m.rows.contains_key(id) {
        (m, Err(BookError::NotFound))
    } else {
        (TableModel { rows: m.rows.insert(id, p), next_id: m.next_id }, Ok(()))
    }
}

/// The table after a deletion, and the outcome.
pub open spec fn delete_result(m: TableModel, id: int) -> (TableModel, Result<(), BookError>) {
    if m.rows.contains_key(id) {
        (TableModel { rows: m.rows.remove(id), next_id: m.next_id }, Ok(()))
    } else {
        (m, Err(BookError::NotFound))
    }
}

} // verus!
