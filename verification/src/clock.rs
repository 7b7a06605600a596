use vstd::prelude::*;

verus! {

/// The moment that `text` denotes when read by the pattern `format`, as whole
/// seconds counted from 1970-01-01 00:00:00 on a calendar without time zone;
/// `None` where the text does not fit the pattern or names no moment.
pub uninterp spec fn naive_seconds(text: Seq<char>, format: Seq<char>) -> Option<i64>;

/// Reads a date and time of day by a `strftime` pattern.
///
/// Calls `chrono::NaiveDateTime::parse_from_str` and, where it succeeds, takes
/// the seconds of the moment with `and_utc().timestamp()`. The result depends
/// on the two texts alone; it is `naive_seconds` of them. Nothing else is
/// claimed of it.
#[verifier::external_body]
pub(crate) fn parse_naive_seconds(text: &str, format: &str) -> (r: Option<i64>)
    ensures
        r == naive_seconds(text@, format@),
{
    match chrono::NaiveDateTime::parse_from_str(text, format) {
        Ok(moment) => Some(moment.and_utc().timestamp()),
        Err(_) => None,
    }
}

/// The current local time, as whole seconds counted from 1970-01-01 00:00:00
/// of the local calendar.
///
/// Calls `chrono::Local::now` and takes `naive_local().and_utc().timestamp()`
/// of it. The result depends on the clock and the time zone of the machine, so
/// nothing is claimed of it. chrono stops the program where the system clock
/// stands before 1970 or the local time is outside the years it can hold.
#[verifier::external_body]
pub(crate) fn local_now_seconds() -> (r: i64)
{
    chrono::Local::now().naive_local().and_utc().timestamp()
}

} // verus!
