//! The shared store: a visit counter and the courses in insertion order.
use vstd::prelude::*;

use crate::laws::lemma_add_keeps_wf;
use crate::models::{Course, Timestamp};

verus! {

/// The courses of `s` that belong to `tutor_id`, in the order they stand in `s`.
pub open spec fn for_tutor(s: Seq<Course>, tutor_id: usize) -> Seq<Course>
    decreases s.len(),
{
    if s.len() == 0 {
        Seq::empty()
    } else {
        let rest = for_tutor(s.drop_last(), tutor_id);
        if s.last().tutor_id == tutor_id {
            rest.push(s.last())
        } else {
            rest
        }
    }
}

/// How many courses of `s` belong to `tutor_id`.
pub open spec fn count_for(s: Seq<Course>, tutor_id: usize) -> nat {
    for_tutor(s, tutor_id).len()
}

/// `c` is the course `course_id` of tutor `tutor_id`.
pub open spec fn is_course(c: Course, tutor_id: usize, course_id: usize) -> bool {
    c.tutor_id == tutor_id && c.course_id == Some(course_id)
}

/// The first course of `s` that is course `course_id` of tutor `tutor_id`, if any.
pub open spec fn find_course(s: Seq<Course>, tutor_id: usize, course_id: usize) -> Option<Course>
    decreases s.len(),
{
    if s.len() == 0 {
        None
    } else {
        match find_course(s.drop_last(), tutor_id, course_id) {
            Some(c) => Some(c),
            None => if is_course(s.last(), tutor_id, course_id) {
                Some(s.last())
            } else {
                None
            },
        }
    }
}

/// The record that the store appends when tutor `tutor_id` adds a course to `s`:
/// its id is one more than the number of courses the tutor already has.
pub open spec fn new_record(s: Seq<Course>, tutor_id: usize, course_name: String, posted_time: Timestamp) -> Course {
    Course {
        tutor_id,
        course_id: Some((count_for(s, tutor_id) + 1) as usize),
        course_name,
        posted_time: Some(posted_time),
    }
}

/// The course at index `i` of `s` is a stored record: its id counts the tutor's
/// courses up to and including it, and it carries a valid posting time.
pub open spec fn is_stored_at(s: Seq<Course>, i: int) -> bool {
    &&& s[i].course_id is Some
    &&& s[i].course_id.unwrap() == count_for(s.take(i), s[i].tutor_id) + 1
    &&& s[i].posted_time is Some
    &&& s[i].posted_time.unwrap().wf()
}

/// Every course of `s` is a stored record.
pub open spec fn courses_wf(s: Seq<Course>) -> bool {
    forall|i: int| 0 <= i < s.len() ==> #[trigger] is_stored_at(s, i)
}

/// The state that all request handlers share.
pub struct AppState {
    /// The greeting that the health check answers with.
    pub health_check_response: String,
    /// How many health checks have been answered.
    pub visit_count: u32,
    /// Every course added so far, in the order they were added.
    pub courses: Vec<Course>,
}

impl AppState {
    pub open spec fn wf(&self) -> bool {
        courses_wf(self.courses@)
    }

    /// A fresh store: the given greeting, no visits and no courses.
    pub fn new(health_check_response: String) -> (r: AppState)
        ensures
            r.wf(),
            r.health_check_response == health_check_response,
            r.visit_count == 0,
            r.courses@ == Seq::<Course>::empty(),
    {
        AppState { health_check_response, visit_count: 0, courses: Vec::new() }
    }

    /// Returns the visit count as it was, and counts one more visit.
    pub fn record_visit(&mut self) -> (r: u32)
        requires
            old(self).visit_count < u32::MAX,
        ensures
            r == old(self).visit_count,
            final(self).visit_count == old(self).visit_count + 1,
            final(self).health_check_response == old(self).health_check_response,
            final(self).courses@ == old(self).courses@,
    {
        let prior = self.visit_count;
        self.visit_count = prior + 1;
        prior
    }

    /// How many courses tutor `tutor_id` has.
    pub fn course_count_for(&self, tutor_id: usize) -> (r: usize)
        ensures
            r == count_for(self.courses@, tutor_id),
            r <= self.courses@.len(),
    {
        let mut count: usize = 0;
        let mut i: usize = 0;
        while i < self.courses.len()
            invariant
                i <= self.courses@.len(),
                count == count_for(self.courses@.take(i as int), tutor_id),
                count <= i,
            decreases self.courses@.len() - i,
        {
            assert(self.courses@.take(i + 1).drop_last() =~= self.courses@.take(i as int));
            if self.courses[i].tutor_id == tutor_id {
                count = count + 1;
            }
            i = i + 1;
        }
        assert(self.courses@.take(i as int) =~= self.courses@);
        count
    }

    /// Adds a course for `tutor_id`, numbered after the tutor's existing
    /// courses and stamped with `posted_time`, and returns the stored record.
    pub fn add_course(&mut self, tutor_id: usize, course_name: String, posted_time: Timestamp) -> (r: Course)
        requires
            old(self).wf(),
            posted_time.wf(),
            old(self).courses@.len() < usize::MAX,
        ensures
            final(self).wf(),
            r == new_record(old(self).courses@, tutor_id, course_name, posted_time),
            final(self).courses@ == old(self).courses@.push(r),
            final(self).visit_count == old(self).visit_count,
            final(self).health_check_response == old(self).health_check_response,
    {
        let count = self.course_count_for(tutor_id);
        let course = Course {
            tutor_id,
            course_id: Some(count + 1),
            course_name,
            posted_time: Some(posted_time),
        };
        proof {
            lemma_add_keeps_wf(self.courses@, tutor_id, course.course_name, posted_time);
        }
        self.courses.push(course.clone());
        course
    }

    /// The courses of tutor `tutor_id`, copied out in the order they were added.
    pub fn list_courses_for(&self, tutor_id: usize) -> (r: Vec<Course>)
        ensures
            r@ == for_tutor(self.courses@, tutor_id),
    {
        let mut found: Vec<Course> = Vec::new();
        let mut i: usize = 0;
        while i < self.courses.len()
            invariant
                i <= self.courses@.len(),
                found@ == for_tutor(self.courses@.take(i as int), tutor_id),
            decreases self.courses@.len() - i,
        {
            assert(self.courses@.take(i + 1).drop_last() =~= self.courses@.take(i as int));
            if self.courses[i].tutor_id == tutor_id {
                found.push(self.courses[i].clone());
            }
            i = i + 1;
        }
        assert(self.courses@.take(i as int) =~= self.courses@);
        found
    }

    /// The course `course_id` of tutor `tutor_id`, if it was stored.
    pub fn get_course(&self, tutor_id: usize, course_id: usize) -> (r: Option<Course>)
        ensures
            r == find_course(self.courses@, tutor_id, course_id),
    {
        let mut i: usize = 0;
        while i < self.courses.len()
            invariant
                i <= self.courses@.len(),
                find_course(self.courses@.take(i as int), tutor_id, course_id) is None,
            decreases self.courses@.len() - i,
        {
            assert(self.courses@.take(i + 1).drop_last() =~= self.courses@.take(i as int));
            let c = &self.courses[i];
            if c.tutor_id == tutor_id && c.course_id == Some(course_id) {
                proof {
                    lemma_find_in_prefix(self.courses@, tutor_id, course_id, i + 1);
                }
                return Some(c.clone());
            }
            i = i + 1;
        }
        assert(self.courses@.take(i as int) =~= self.courses@);
        None
    }
}

/// A course found in a prefix of `s` is the course found in `s`.
pub proof fn lemma_find_in_prefix(s: Seq<Course>, tutor_id: usize, course_id: usize, k: int)
    requires
        0 <= k <= s.len(),
        find_course(s.take(k), tutor_id, course_id) is Some,
    ensures
        find_course(s, tutor_id, course_id) == find_course(s.take(k), tutor_id, course_id),
    decreases s.len(),
{
    if k == s.len() {
        assert(s.take(k) =~= s);
    } else {
        assert(s.drop_last().take(k) =~= s.take(k));
        lemma_find_in_prefix(s.drop_last(), tutor_id, course_id, k);
    }
}

} // verus!
