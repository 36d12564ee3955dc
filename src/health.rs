use vstd::prelude::*;

verus! {

/// The document that the health endpoints answer with.
#[derive(Clone, Debug)]
pub struct HealthReport {
    pub status: String,
    pub timestamp: String,
    pub service: String,
    pub api_url: String,
}

/// Relies on chrono's `From<SystemTime>` for `DateTime<Utc>` and on
/// `DateTime::to_rfc3339`: the system clock's time, written in RFC 3339 as a
/// year, `-MM-DDTHH:MM:SS`, an optional fraction, and the UTC offset written
/// `+00:00`. A clock before 1970 is converted, not refused. Which time it is
/// depends on the clock; only that shape is stated.
#[verifier::external_body]
fn now_rfc3339() -> (r: String)
    ensures
        r@.len() >= 25,
        r@.subrange(r@.len() - 6, r@.len() as int) == "+00:00"@,
{
    chrono::DateTime::<chrono::Utc>::from(std::time::SystemTime::now()).to_rfc3339()
}

/// The health document for the given time stamp.
pub fn health_report(timestamp: String) -> (r: HealthReport)
    ensures
        r.status@ == "healthy"@,
        r.timestamp@ == timestamp@,
        r.service@ == "Bookstore API"@,
        r.api_url@ == "http://localhost:5000/api/v1/books"@,
{
    HealthReport {
        status: "healthy".to_owned(),
        timestamp,
        service: "Bookstore API".to_owned(),
        api_url: "http://localhost:5000/api/v1/books".to_owned(),
    }
}

/// The health document, stamped with the current time in RFC 3339, in UTC.
pub fn current_health() -> (r: HealthReport)
    ensures
        r.status@ == "healthy"@,
        r.timestamp@.len() >= 25,
        r.timestamp@.subrange(r.timestamp@.len() - 6, r.timestamp@.len() as int) == "+00:00"@,
        r.service@ == "Bookstore API"@,
        r.api_url@ == "http://localhost:5000/api/v1/books"@,
{
    health_report(now_rfc3339())
}

} // verus!
