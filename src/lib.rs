//! A small book inventory service: the records and their validation, the
//! request router, the decisions that turn storage outcomes into replies,
//! and the health document. `BookStore` is the verified in-memory model of
//! the book table, with auto-assigned identifiers; the HTTP service itself
//! keeps its rows in SQLite.

mod book;
mod health;
mod ident;
mod laws;
mod reply;
mod route;
mod store;
mod table;

pub use book::{books_view, record_error, valid_record, Book, BookError, BookRecord, NewBook};
pub use health::{current_health, health_report, HealthReport};
pub use ident::{all_digits, digits_value, id_of, integer_value, is_digit, parse_id};
pub use laws::{
    create_all, delete_all, law_create_then_get, law_delete_then_get,
    law_list_after_creates_and_deletes, law_unassigned_id_not_found, law_update_then_get,
};
pub use reply::{
    create_reply, delete_reply, error_status, get_reply, list_reply, outcome_status,
    route_error, update_reply, Outcome, Reply,
};
pub use route::{
    api_health_path, api_path, book_segment, books_path, health_path, is_health_path,
    root_path, route, route_of, Method, Route,
};
pub use store::{serve_result, BookStore};
pub use table::{
    create_result, delete_result, get_result, list_result, listed_below, update_result,
    TableModel,
};
