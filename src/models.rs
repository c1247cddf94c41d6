//! The records kept by the store.
use vstd::prelude::*;

verus! {

/// A point in time, as a Unix timestamp: whole seconds since
/// 1970-01-01T00:00:00 UTC and the nanoseconds within that second.
#[derive(Debug, PartialEq, Eq, Structural)]
pub struct Timestamp {
    pub secs: i64,
    pub nanos: u32,
}

impl Timestamp {
    /// The nanoseconds stay within one second.
    pub open spec fn wf(&self) -> bool {
        self.nanos < 1_000_000_000
    }
}

impl Clone for Timestamp {
    fn clone(&self) -> (r: Self)
        ensures
            r == *self,
    {
        *self
    }
}

impl Copy for Timestamp {

}

/// A course offered by a tutor.  `course_id` and `posted_time` are absent on a
/// request to create a course and are filled in by the store.
#[derive(Debug, PartialEq, Eq)]
pub struct Course {
    pub tutor_id: usize,
    pub course_id: Option<usize>,
    pub course_name: String,
    pub posted_time: Option<Timestamp>,
}

impl Clone for Course {
    fn clone(&self) -> (r: Self)
        ensures
            r == *self,
    {
        Course {
            tutor_id: self.tutor_id,
            course_id: self.course_id,
            course_name: self.course_name.clone(),
            posted_time: self.posted_time,
        }
    }
}

} // verus!
