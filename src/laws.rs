use vstd::prelude::*;

use crate::book::{valid_record, BookError, BookRecord};
use crate::table::{
    create_result, delete_result, get_result, list_result, listed_below, update_result,
    TableModel,
};

verus! {

/// The table after inserting each payload in turn.
pub open spec fn create_all(m: TableModel, ps: Seq<BookRecord>) -> TableModel
    decreases ps.len(),
{
    if ps.len() == 0 {
        m
    } else {
        create_result(create_all(m, ps.drop_last()), ps.last()).0
    }
}

/// The table after deleting each identifier in turn.
pub open spec fn delete_all(m: TableModel, ids: Seq<int>) -> TableModel
    decreases ids.len(),
{
    if ids.len() == 0 {
        m
    } else {
        delete_result(delete_all(m, ids.drop_last()), ids.last()).0
    }
}

/// A lookup by the identifier that an insertion returned yields the
/// inserted fields.
pub proof fn law_create_then_get(m: TableModel, p: BookRecord)
    requires
        m.wf(),
        valid_record(p),
        m.next_id <= i64::MAX,
    ensures
        create_result(m, p).1.is_ok(),
        get_result(create_result(m, p).0, create_result(m, p).1.unwrap() as int) == Ok::<
            BookRecord,
            BookError,
        >(p),
{
}

/// After a replacement of an existing row, a lookup by its identifier yields
/// the new fields.
pub proof fn law_update_then_get(m: TableModel, id: int, p: BookRecord)
    requires
        m.wf(),
        valid_record(p),
        m.rows.contains_key(id),
    ensures
        update_result(m, id, p).1.is_ok(),
        get_result(update_result(m, id, p).0, id) == Ok::<BookRecord, BookError>(p),
{
}

/// After a deletion, a lookup by the same identifier finds nothing.
pub proof fn law_delete_then_get(m: TableModel, id: int)
    ensures
        get_result(delete_result(m, id).0, id) == Err::<BookRecord, BookError>(
            BookError::NotFound,
        ),
{
}

/// An identifier that was never assigned is not found by a lookup, a valid
/// replacement or a deletion, and neither of the latter changes the table.
pub proof fn law_unassigned_id_not_found(m: TableModel, id: int, p: BookRecord)
    requires
        m.wf(),
        valid_record(p),
        id < 1 || id >= m.next_id,
    ensures
        get_result(m, id) == Err::<BookRecord, BookError>(BookError::NotFound),
        update_result(m, id, p) == (m, Err::<(), BookError>(BookError::NotFound)),
        delete_result(m, id) == (m, Err::<(), BookError>(BookError::NotFound)),
{
}

proof fn lemma_listed_rows(m: TableModel, k: int)
    requires
        k <= i64::MAX + 1,
    ensures
        forall|j: int|
            0 <= j < listed_below(m, k).len() ==> {
                let e = #[trigger] listed_below(m, k)[j];
                &&& 1 <= e.0 < k
                &&& m.rows.contains_key(e.0 as int)
                &&& m.rows[e.0 as int] == e.1
            },
    decreases k,
{
    if k > 1 {
        lemma_listed_rows(m, k - 1);
        let prev = listed_below(m, k - 1);
        assert forall|j: int| 0 <= j < listed_below(m, k).len() implies {
            let e = #[trigger] listed_below(m, k)[j];
            &&& 1 <= e.0 < k
            &&& m.rows.contains_key(e.0 as int)
            &&& m.rows[e.0 as int] == e.1
        } by {
            if j < prev.len() {
                assert(listed_below(m, k)[j] == prev[j]);
            }
        }
    }
}

proof fn lemma_listed_increasing(m: TableModel, k: int)
    requires
        k <= i64::MAX + 1,
    ensures
        forall|a: int, b: int|
            0 <= a < b < listed_below(m, k).len() ==> (#[trigger] listed_below(m, k)[a]).0
                < (#[trigger] listed_below(m, k)[b]).0,
    decreases k,
{
    if k > 1 {
        lemma_listed_increasing(m, k - 1);
        lemma_listed_rows(m, k - 1);
        let prev = listed_below(m, k - 1);
        let l = listed_below(m, k);
        assert forall|a: int, b: int| 0 <= a < b < l.len() implies (#[trigger] l[a]).0 < (
        #[trigger] l[b]).0 by {
            assert(l[a] == prev[a]);
            if b < prev.len() {
                assert(l[b] == prev[b]);
            } else {
                assert(prev[a].0 < k - 1);
            }
        }
    }
}

proof fn lemma_listed_complete(m: TableModel, k: int, id: int)
    requires
        k <= i64::MAX + 1,
        1 <= id < k,
        m.rows.contains_key(id),
    ensures
        exists|j: int|
            0 <= j < listed_below(m, k).len() && (#[trigger] listed_below(m, k)[j]).0 == id,
    decreases k,
{
    let l = listed_below(m, k);
    if id == k - 1 {
        assert(l[l.len() - 1].0 == id);
    } else {
        lemma_listed_complete(m, k - 1, id);
        let prev = listed_below(m, k - 1);
        let j = choose|j: int| 0 <= j < prev.len() && (#[trigger] prev[j]).0 == id;
        assert(l[j] == prev[j]);
    }
}

proof fn lemma_listed_len_after_remove(m: TableModel, id: int, k: int)
    requires
        m.rows.contains_key(id),
        1 <= id,
    ensures
        id < k ==> listed_below(m, k).len() == listed_below(
            TableModel { rows: m.rows.remove(id), next_id: m.next_id },
            k,
        ).len() + 1,
        id >= k ==> listed_below(m, k).len() == listed_below(
            TableModel { rows: m.rows.remove(id), next_id: m.next_id },
            k,
        ).len(),
    decreases k,
{
    if k > 1 {
        lemma_listed_len_after_remove(m, id, k - 1);
    }
}

proof fn lemma_listed_len_full(m: TableModel, k: int)
    requires
        forall|id: int| 1 <= id < k ==> #[trigger] m.rows.contains_key(id),
    ensures
        k >= 1 ==> listed_below(m, k).len() == k - 1,
    decreases k,
{
    if k > 1 {
        lemma_listed_len_full(m, k - 1);
    }
}

proof fn lemma_create_all(m: TableModel, ps: Seq<BookRecord>)
    requires
        m == TableModel::empty(),
        ps.len() <= i64::MAX,
        forall|i: int| 0 <= i < ps.len() ==> valid_record(#[trigger] ps[i]),
    ensures
        create_all(m, ps).next_id == ps.len() + 1,
        forall|id: int|
            #[trigger] create_all(m, ps).rows.contains_key(id) <==> 1 <= id <= ps.len(),
        forall|id: int|
            1 <= id <= ps.len() ==> #[trigger] create_all(m, ps).rows[id] == ps[id - 1],
    decreases ps.len(),
{
    if ps.len() > 0 {
        let q = ps.drop_last();
        assert forall|i: int| 0 <= i < q.len() implies valid_record(#[trigger] q[i]) by {
            assert(q[i] == ps[i]);
        }
        lemma_create_all(m, q);
        assert(valid_record(ps[ps.len() - 1]));
    }
}

proof fn lemma_delete_all(m: TableModel, ids: Seq<int>)
    requires
        ids.no_duplicates(),
        forall|j: int| 0 <= j < ids.len() ==> #[trigger] m.rows.contains_key(ids[j]),
        forall|j: int| 0 <= j < ids.len() ==> 1 <= #[trigger] ids[j] < m.next_id,
    ensures
        delete_all(m, ids).next_id == m.next_id,
        forall|id: int|
            #[trigger] delete_all(m, ids).rows.contains_key(id) <==> m.rows.contains_key(id)
                && !ids.contains(id),
        forall|id: int|
            #[trigger] delete_all(m, ids).rows.contains_key(id) ==> delete_all(m, ids).rows[id]
                == m.rows[id],
        listed_below(delete_all(m, ids), m.next_id).len() + ids.len() == listed_below(
            m,
            m.next_id,
        ).len(),
    decreases ids.len(),
{
    if ids.len() > 0 {
        let q = ids.drop_last();
        let last = ids.last();
        assert forall|j: int| 0 <= j < q.len() implies #[trigger] m.rows.contains_key(q[j])
            && 1 <= q[j] < m.next_id by {
            assert(q[j] == ids[j]);
            assert(m.rows.contains_key(ids[j]));
            assert(1 <= ids[j] < m.next_id);
        }
        assert(q.no_duplicates()) by {
            assert forall|a: int, b: int| 0 <= a < q.len() && 0 <= b < q.len() && a != b implies q[a]
                != q[b] by {
                assert(q[a] == ids[a] && q[b] == ids[b]);
            }
        }
        lemma_delete_all(m, q);
        let d = delete_all(m, q);
        assert(m.rows.contains_key(ids[ids.len() - 1]));
        assert(!q.contains(last)) by {
            if q.contains(last) {
                let j = choose|j: int| 0 <= j < q.len() && q[j] == last;
                assert(ids[j] == ids[ids.len() - 1]);
            }
        }
        assert(d.rows.contains_key(last));
        assert(1 <= last);
        assert(last < m.next_id) by {
            assert(1 <= ids[ids.len() - 1] < m.next_id);
        }
        lemma_listed_len_after_remove(d, last, m.next_id);
        assert forall|id: int| ids.contains(id) <==> q.contains(id) || id == last by {
            if ids.contains(id) {
                let j = choose|j: int| 0 <= j < ids.len() && ids[j] == id;
                if j < q.len() {
                    assert(q[j] == id);
                }
            }
            if q.contains(id) {
                let j = choose|j: int| 0 <= j < q.len() && q[j] == id;
                assert(ids[j] == id);
            }
            if id == last {
                assert(ids[ids.len() - 1] == id);
            }
        }
    }
}

/// After inserting N valid payloads into an empty table and deleting M
/// distinct identifiers among those assigned, the listing holds exactly
/// N - M rows in increasing order of identifier: every identifier that was
/// assigned and not deleted appears once, with the fields of the payload
/// that received it, and no deleted identifier appears.
pub proof fn law_list_after_creates_and_deletes(ps: Seq<BookRecord>, ids: Seq<int>)
    requires
        ps.len() <= i64::MAX,
        forall|i: int| 0 <= i < ps.len() ==> valid_record(#[trigger] ps[i]),
        ids.no_duplicates(),
        forall|j: int| 0 <= j < ids.len() ==> 1 <= #[trigger] ids[j] <= ps.len(),
    ensures
        ({
            let l = list_result(delete_all(create_all(TableModel::empty(), ps), ids));
            &&& l.len() == ps.len() - ids.len()
            &&& forall|k: int|
                0 <= k < l.len() ==> {
                    let e = #[trigger] l[k];
                    &&& 1 <= e.0 <= ps.len()
                    &&& e.1 == ps[e.0 - 1]
                    &&& !ids.contains(e.0 as int)
                }
            &&& forall|a: int, b: int|
                0 <= a < b < l.len() ==> (#[trigger] l[a]).0 < (#[trigger] l[b]).0
            &&& forall|id: int|
                1 <= id <= ps.len() && !ids.contains(id) ==> exists|k: int|
                    0 <= k < l.len() && (#[trigger] l[k]).0 == id
        }),
{
    let c = create_all(TableModel::empty(), ps);
    lemma_create_all(TableModel::empty(), ps);
    assert forall|j: int| 0 <= j < ids.len() implies #[trigger] c.rows.contains_key(ids[j])
        && 1 <= ids[j] < c.next_id by {
        assert(1 <= ids[j] <= ps.len());
    }
    lemma_delete_all(c, ids);
    lemma_listed_len_full(c, c.next_id);
    let d = delete_all(c, ids);
    lemma_listed_rows(d, d.next_id);
    lemma_listed_increasing(d, d.next_id);
    assert forall|id: int| 1 <= id <= ps.len() && !ids.contains(id) implies exists|k: int|
        0 <= k < list_result(d).len() && (#[trigger] list_result(d)[k]).0 == id by {
        assert(c.rows.contains_key(id));
        assert(d.rows.contains_key(id));
        assert(d.next_id == ps.len() + 1);
        lemma_listed_complete(d, d.next_id, id);
        let l = listed_below(d, d.next_id);
        let j = choose|j: int| 0 <= j < l.len() && (#[trigger] l[j]).0 == id;
        assert(list_result(d)[j].0 == id);
    }
}

} // verus!
