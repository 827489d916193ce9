//! What a caller hands over with a request.

use crate::calendar::{a_year_later, date_text, format_date, now_utc};
use vstd::prelude::*;

verus! {

/// The parameters of a request for a token.
#[derive(Debug)]
pub struct TokenCreationQuery {
    pub url: String,
    pub username: String,
    pub password: String,
}

/// The parameters of a request that needs a token and a school.
#[derive(Debug)]
pub struct GeneralQuery {
    pub token: String,
    pub url: String,
}

/// The parameters of a request for the records of a span of days.
#[derive(Debug)]
pub struct DateBasedQuery {
    pub token: String,
    pub url: String,
    pub from_date: String,
    pub to_date: String,
}

impl DateBasedQuery {
    /// Whether the query has no token and no school, and spans the year that
    /// begins with the given day.
    pub open spec fn is_year_from(self, year: int, month: nat, day: nat) -> bool {
        let end = a_year_later(year, month, day);
        &&& self.token@ == Seq::<char>::empty()
        &&& self.url@ == Seq::<char>::empty()
        &&& self.from_date@ == date_text(year, month, day)
        &&& self.to_date@ == date_text(end.0, end.1, end.2)
    }

    /// The query without token and school that spans the year that begins
    /// with the given day.
    pub fn year_from(year: i32, month: u8, day: u8) -> (r: DateBasedQuery)
        ensures
            r.is_year_from(year as int, month as nat, day as nat),
    {
        let last: u8 = if month == 2 && day == 29 {
            28
        } else {
            day
        };
        DateBasedQuery {
            token: String::new(),
            url: String::new(),
            from_date: format_date(year as i64, month, day),
            to_date: format_date(year as i64 + 1, month, last),
        }
    }
}

impl Default for DateBasedQuery {
    /// The query without token and school that spans the year that begins
    /// today, by the system clock.
    fn default() -> (r: DateBasedQuery)
        ensures
            exists|year: int, month: nat, day: nat|
                1 <= month <= 12 && 1 <= day <= 31 && #[trigger] r.is_year_from(year, month, day),
    {
        let now = now_utc();
        let r = DateBasedQuery::year_from(now.year, now.month, now.day);
        r
    }
}

} // verus!
