//! What each request computes against the shared store.  Locking the store
//! and turning the results into HTTP responses is left to the server.
use vstd::prelude::*;

use crate::models::{Course, Timestamp};
use crate::state::{count_for, find_course, for_tutor, new_record, AppState};

verus! {

/// The character of decimal digit `d`.
pub open spec fn digit_char(d: nat) -> char {
    if d == 0 {
        '0'
    } else if d == 1 {
        '1'
    } else if d == 2 {
        '2'
    } else if d == 3 {
        '3'
    } else if d == 4 {
        '4'
    } else if d == 5 {
        '5'
    } else if d == 6 {
        '6'
    } else if d == 7 {
        '7'
    } else if d == 8 {
        '8'
    } else {
        '9'
    }
}

/// `n` written in decimal, without leading zeros.
pub open spec fn decimal(n: nat) -> Seq<char>
    decreases n,
{
    if n < 10 {
        seq![digit_char(n)]
    } else {
        decimal(n / 10).push(digit_char(n % 10))
    }
}

/// The health check's answer: the greeting, then how many visits came before.
pub open spec fn health_message(greeting: Seq<char>, visits: nat) -> Seq<char> {
    greeting + " "@ + decimal(visits) + " times"@
}

/// The answer to a new course.
pub open spec fn added_message() -> Seq<char> {
    "Added course"@
}

/// The answer for a tutor without courses.
pub open spec fn no_courses_message() -> Seq<char> {
    "No courses found for tutor"@
}

/// The answer for a course that is not stored.
pub open spec fn not_found_message() -> Seq<char> {
    "Course not found"@
}

fn digit_str(d: u32) -> (r: &'static str)
    requires
        d < 10,
    ensures
        r@ == seq![digit_char(d as nat)],
{
    proof {
        reveal_strlit("0");
        reveal_strlit("1");
        reveal_strlit("2");
        reveal_strlit("3");
        reveal_strlit("4");
        reveal_strlit("5");
        reveal_strlit("6");
        reveal_strlit("7");
        reveal_strlit("8");
        reveal_strlit("9");
    }
    if d == 0 {
        "0"
    } else if d == 1 {
        "1"
    } else if d == 2 {
        "2"
    } else if d == 3 {
        "3"
    } else if d == 4 {
        "4"
    } else if d == 5 {
        "5"
    } else if d == 6 {
        "6"
    } else if d == 7 {
        "7"
    } else if d == 8 {
        "8"
    } else {
        "9"
    }
}

/// Appends `n` in decimal to `out`.
pub fn write_decimal(out: &mut String, n: u32)
    ensures
        final(out)@ == old(out)@ + decimal(n as nat),
    decreases n,
{
    if n >= 10 {
        write_decimal(out, n / 10);
    }
    out.append(digit_str(n % 10));
    proof {
        if n >= 10 {
            assert(decimal(n as nat) == decimal((n / 10) as nat).push(digit_char((n % 10) as nat)));
        }
    }
}

/// Formats the health check's answer for `visits` earlier visits.
pub fn format_health_message(greeting: &String, visits: u32) -> (r: String)
    ensures
        r@ == health_message(greeting@, visits as nat),
{
    let mut out = greeting.clone();
    out.append(" ");
    write_decimal(&mut out, visits);
    out.append(" times");
    proof {
        reveal_strlit(" ");
        reveal_strlit(" times");
        assert(out@ =~= health_message(greeting@, visits as nat));
    }
    out
}

/// Answers a health check: counts the visit and reports how many came before.
pub fn health_check_handler(app_state: &mut AppState) -> (r: String)
    requires
        old(app_state).visit_count < u32::MAX,
    ensures
        r@ == health_message(old(app_state).health_check_response@, old(app_state).visit_count as nat),
        final(app_state).visit_count == old(app_state).visit_count + 1,
        final(app_state).health_check_response == old(app_state).health_check_response,
        final(app_state).courses@ == old(app_state).courses@,
{
    let prior = app_state.record_visit();
    format_health_message(&app_state.health_check_response, prior)
}

/// Relies on chrono's `From<SystemTime> for DateTime<Utc>`, applied to the
/// system clock and read back through `DateTime::timestamp` and
/// `DateTime::timestamp_subsec_nanos`.  The conversion keeps the sub-second
/// part of the clock's offset from the Unix epoch, below one second, and turns
/// a clock set before 1970 into a negative timestamp.  It fails only on a clock
/// reading beyond chrono's range of about 262,000 years around year 0.
#[verifier::external_body]
fn now_utc() -> (r: Timestamp)
    ensures
        r.wf(),
{
    let now = chrono::DateTime::<chrono::Utc>::from(std::time::SystemTime::now());
    Timestamp { secs: now.timestamp(), nanos: now.timestamp_subsec_nanos() }
}

/// Adds the course that `course` asks for, stamped with the current time.
/// Only its tutor and name are read: the store assigns the id and the time.
pub fn new_course(course: &Course, app_state: &mut AppState) -> (r: String)
    requires
        old(app_state).wf(),
        old(app_state).courses@.len() < usize::MAX,
    ensures
        r@ == added_message(),
        final(app_state).wf(),
        exists|t: Timestamp|
            t.wf() && final(app_state).courses@ == old(app_state).courses@.push(
                new_record(old(app_state).courses@, course.tutor_id, course.course_name, t),
            ),
        final(app_state).visit_count == old(app_state).visit_count,
        final(app_state).health_check_response == old(app_state).health_check_response,
{
    let now = now_utc();
    let _stored = app_state.add_course(course.tutor_id, course.course_name.clone(), now);
    String::from_str("Added course")
}

/// The courses of tutor `tutor_id` in the order they were added, or the
/// message for a tutor without courses.
pub fn get_courses_for_tutor(app_state: &AppState, tutor_id: usize) -> (r: Result<Vec<Course>, String>)
    ensures
        match r {
            Ok(list) => list@ == for_tutor(app_state.courses@, tutor_id) && list@.len() > 0,
            Err(msg) => msg@ == no_courses_message() && count_for(app_state.courses@, tutor_id) == 0,
        },
{
    let filtered = app_state.list_courses_for(tutor_id);
    if filtered.len() > 0 {
        Ok(filtered)
    } else {
        Err(String::from_str("No courses found for tutor"))
    }
}

/// Course `course_id` of tutor `tutor_id`, or the message for a course that
/// is not stored.
pub fn get_course_detail(app_state: &AppState, tutor_id: usize, course_id: usize) -> (r: Result<Course, String>)
    ensures
        match r {
            Ok(c) => find_course(app_state.courses@, tutor_id, course_id) == Some(c),
            Err(msg) => msg@ == not_found_message()
                && find_course(app_state.courses@, tutor_id, course_id) is None,
        },
{
    match app_state.get_course(tutor_id, course_id) {
        Some(c) => Ok(c),
        None => Err(String::from_str("Course not found")),
    }
}

} // verus!
