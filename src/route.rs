use vstd::prelude::*;

use crate::ident::{id_of, parse_id_from};

verus! {

/// The request methods that the service tells apart.
#[derive(PartialEq, Eq, Structural, Clone, Copy, Debug)]
pub enum Method {
    Get,
    Post,
    Put,
    Delete,
    Other,
}

/// What a request asks of the service.
#[derive(PartialEq, Eq, Structural, Clone, Copy, Debug)]
pub enum Route {
    Health,
    ListBooks,
    CreateBook,
    GetBook(i64),
    UpdateBook(i64),
    DeleteBook(i64),
    /// A book path whose last segment is not an integer.
    InvalidId,
    /// A known path with a method that it does not serve.
    MethodNotAllowed,
    /// No such path.
    NotFound,
}

/// `/`
pub open spec fn root_path() -> Seq<u8> {
    seq![47u8]
}

/// `/health`
pub open spec fn health_path() -> Seq<u8> {
    seq![47u8, 104u8, 101u8, 97u8, 108u8, 116u8, 104u8]
}

/// `/api/v1`
pub open spec fn api_path() -> Seq<u8> {
    seq![47u8, 97u8, 112u8, 105u8, 47u8, 118u8, 49u8]
}

/// `/api/v1/health`
pub open spec fn api_health_path() -> Seq<u8> {
    api_path() + health_path()
}

/// `/api/v1/books`
pub open spec fn books_path() -> Seq<u8> {
    api_path() + seq![47u8, 98u8, 111u8, 111u8, 107u8, 115u8]
}

pub open spec fn is_health_path(p: Seq<u8>) -> bool {
    p == root_path() || p == health_path() || p == api_path() || p == api_health_path()
}

/// The last segment of a path `/api/v1/books/<segment>`, where the path has
/// that shape and the segment is non-empty and holds no `/`.
pub open spec fn book_segment(p: Seq<u8>) -> Option<Seq<u8>> {
    let k = books_path().len() as int;
    if p.len() > k + 1 && p.subrange(0, k) == books_path() && p[k] == 47u8 && !p.subrange(
        k + 1,
        p.len() as int,
    ).contains(47u8) {
        Some(p.subrange(k + 1, p.len() as int))
    } else {
        None
    }
}

/// The route of a request with method `m` and path `p`.
pub open spec fn route_of(m: Method, p: Seq<u8>) -> Route {
    if is_health_path(p) {
        if m == Method::Get {
            Route::Health
        } else {
            Route::MethodNotAllowed
        }
    } else if p == books_path() {
        match m {
            Method::Get => Route::ListBooks,
            Method::Post => Route::CreateBook,
            _ => Route::MethodNotAllowed,
        }
    } else if book_segment(p).is_some() {
        let id = id_of(book_segment(p).unwrap());
        match m {
            Method::Get => if id.is_some() {
                Route::GetBook(id.unwrap())
            } else {
                Route::InvalidId
            },
            Method::Put => if id.is_some() {
                Route::UpdateBook(id.unwrap())
            } else {
                Route::InvalidId
            },
            Method::Delete => if id.is_some() {
                Route::DeleteBook(id.unwrap())
            } else {
                Route::InvalidId
            },
            _ => Route::MethodNotAllowed,
        }
    } else {
        Route::NotFound
    }
}

fn same_bytes(a: &[u8], b: &Vec<u8>) -> (r: bool)
    ensures
        r == (a@ == b@),
{
    if a.len() != b.len() {
        return false;
    }
    let mut i: usize = 0;
    while i < a.len()
        invariant
            i <= a@.len(),
            a@.len() == b@.len(),
            a@.subrange(0, i as int) == b@.subrange(0, i as int),
        decreases a@.len() - i,
    {
        if a[i] != b[i] {
            assert(a@[i as int] != b@[i as int]);
            return false;
        }
        assert(a@.subrange(0, i + 1) =~= a@.subrange(0, i as int).push(a@[i as int]));
        assert(b@.subrange(0, i + 1) =~= b@.subrange(0, i as int).push(b@[i as int]));
        i = i + 1;
    }
    assert(a@ =~= a@.subrange(0, i as int));
    assert(b@ =~= b@.subrange(0, i as int));
    true
}

fn starts_with(a: &[u8], b: &Vec<u8>) -> (r: bool)
    ensures
        r == (b@.len() <= a@.len() && a@.subrange(0, b@.len() as int) == b@),
{
    if b.len() > a.len() {
        return false;
    }
    let mut i: usize = 0;
    while i < b.len()
        invariant
            i <= b@.len() <= a@.len(),
            a@.subrange(0, i as int) == b@.subrange(0, i as int),
        decreases b@.len() - i,
    {
        if a[i] != b[i] {
            assert(a@.subrange(0, b@.len() as int)[i as int] != b@[i as int]);
            return false;
        }
        assert(a@.subrange(0, i + 1) =~= a@.subrange(0, i as int).push(a@[i as int]));
        assert(b@.subrange(0, i + 1) =~= b@.subrange(0, i as int).push(b@[i as int]));
        i = i + 1;
    }
    assert(b@ =~= b@.subrange(0, i as int));
    true
}

/// Whether `a[from..]` holds the byte `x`.
fn holds_from(a: &[u8], from: usize, x: u8) -> (r: bool)
    requires
        from <= a@.len(),
    ensures
        r == a@.subrange(from as int, a@.len() as int).contains(x),
{
    let ghost t = a@.subrange(from as int, a@.len() as int);
    let mut i: usize = from;
    while i < a.len()
        invariant
            from <= i <= a@.len(),
            t == a@.subrange(from as int, a@.len() as int),
            forall|j: int| from <= j < i ==> a@[j] != x,
        decreases a@.len() - i,
    {
        if a[i] == x {
            assert(t[i - from] == x);
            return true;
        }
        i = i + 1;
    }
    assert forall|j: int| 0 <= j < t.len() implies t[j] != x by {
        assert(t[j] == a@[from + j]);
    }
    false
}

fn root_bytes() -> (r: Vec<u8>)
    ensures
        r@ == root_path(),
{
    let r = vec![47u8];
    assert(r@ =~= root_path());
    r
}

fn health_bytes() -> (r: Vec<u8>)
    ensures
        r@ == health_path(),
{
    let r = vec![47u8, 104u8, 101u8, 97u8, 108u8, 116u8, 104u8];
    assert(r@ =~= health_path());
    r
}

fn api_bytes() -> (r: Vec<u8>)
    ensures
        r@ == api_path(),
{
    let r = vec![47u8, 97u8, 112u8, 105u8, 47u8, 118u8, 49u8];
    assert(r@ =~= api_path());
    r
}

fn api_health_bytes() -> (r: Vec<u8>)
    ensures
        r@ == api_health_path(),
{
    let r = vec![47u8, 97u8, 112u8, 105u8, 47u8, 118u8, 49u8, 47u8, 104u8, 101u8, 97u8, 108u8, 116u8, 104u8];
    assert(r@ =~= api_health_path());
    r
}

fn books_bytes() -> (r: Vec<u8>)
    ensures
        r@ == books_path(),
{
    let r = vec![47u8, 97u8, 112u8, 105u8, 47u8, 118u8, 49u8, 47u8, 98u8, 111u8, 111u8, 107u8, 115u8];
    assert(r@ =~= books_path());
    r
}

/// Where a request with method `m` and path `path` (the bytes of the URL's
/// path, without query) goes.
pub fn route(m: Method, path: &[u8]) -> (r: Route)
    ensures
        r == route_of(m, path@),
{
    if same_bytes(path, &root_bytes()) || same_bytes(path, &health_bytes()) || same_bytes(
        path,
        &api_bytes(),
    ) || same_bytes(path, &api_health_bytes()) {
        return if m == Method::Get {
            Route::Health
        } else {
            Route::MethodNotAllowed
        };
    }
    let books = books_bytes();
    if same_bytes(path, &books) {
        return match m {
            Method::Get => Route::ListBooks,
            Method::Post => Route::CreateBook,
            _ => Route::MethodNotAllowed,
        };
    }
    let k = books.len();
    if path.len() > k + 1 && starts_with(path, &books) && path[k] == 47u8 && !holds_from(
        path,
        k + 1,
        47u8,
    ) {
        let id = parse_id_from(path, k + 1);
        match m {
            Method::Get => match id {
                Some(v) => Route::GetBook(v),
                None => Route::InvalidId,
            },
            Method::Put => match id {
                Some(v) => Route::UpdateBook(v),
                None => Route::InvalidId,
            },
            Method::Delete => match id {
                Some(v) => Route::DeleteBook(v),
                None => Route::InvalidId,
            },
            _ => Route::MethodNotAllowed,
        }
    } else {
        Route::NotFound
    }
}

} // verus!
