//! Properties of the store that hold across several operations.
use vstd::prelude::*;

use crate::models::{Course, Timestamp};
use crate::state::{count_for, courses_wf, find_course, for_tutor, is_course, is_stored_at, new_record};

verus! {

/// A tutor's course count never shrinks as a prefix of the store grows.
proof fn lemma_count_grows(s: Seq<Course>, tutor_id: usize, a: int, b: int)
    requires
        0 <= a <= b <= s.len(),
    ensures
        count_for(s.take(a), tutor_id) <= count_for(s.take(b), tutor_id),
    decreases b - a,
{
    if a < b {
        assert(s.take(b).drop_last() =~= s.take(b - 1));
        lemma_count_grows(s, tutor_id, a, b - 1);
    }
}

/// In a well-formed store, an earlier course of the same tutor has a smaller id.
proof fn lemma_ids_increase(s: Seq<Course>, j: int, i: int)
    requires
        courses_wf(s),
        0 <= j < i < s.len(),
        s[j].tutor_id == s[i].tutor_id,
    ensures
        s[j].course_id.unwrap() < s[i].course_id.unwrap(),
{
    assert(is_stored_at(s, i));
    assert(is_stored_at(s, j));
    assert(s.take(j + 1).drop_last() =~= s.take(j));
    lemma_count_grows(s, s[i].tutor_id, j + 1, i);
}

/// A prefix in which no course matches finds nothing.
proof fn lemma_find_none(s: Seq<Course>, tutor_id: usize, course_id: usize, k: int)
    requires
        0 <= k <= s.len(),
        forall|j: int| 0 <= j < k ==> !is_course(#[trigger] s[j], tutor_id, course_id),
    ensures
        find_course(s.take(k), tutor_id, course_id) is None,
    decreases k,
{
    if k > 0 {
        assert(s.take(k).drop_last() =~= s.take(k - 1));
        lemma_find_none(s, tutor_id, course_id, k - 1);
    }
}

/// Appending a freshly numbered, validly stamped record keeps the store
/// well formed.
pub proof fn lemma_add_keeps_wf(s: Seq<Course>, tutor_id: usize, course_name: String, posted_time: Timestamp)
    requires
        courses_wf(s),
        posted_time.wf(),
        s.len() < usize::MAX,
    ensures
        courses_wf(s.push(new_record(s, tutor_id, course_name, posted_time))),
{
    let s2 = s.push(new_record(s, tutor_id, course_name, posted_time));
    lemma_count_bounded(s, tutor_id);
    assert forall|i: int| 0 <= i < s2.len() implies #[trigger] is_stored_at(s2, i) by {
        if i < s.len() {
            assert(is_stored_at(s, i));
            assert(s2.take(i) =~= s.take(i));
        } else {
            assert(s2.take(i) =~= s);
        }
    }
}

/// A tutor never has more courses than the store holds.
pub proof fn lemma_count_bounded(s: Seq<Course>, tutor_id: usize)
    ensures
        count_for(s, tutor_id) <= s.len(),
    decreases s.len(),
{
    if s.len() > 0 {
        lemma_count_bounded(s.drop_last(), tutor_id);
    }
}

/// Course ids count per tutor: a tutor's first course gets id 1 and the
/// second id 2, while another tutor's first course starts again at 1.
pub proof fn lemma_ids_per_tutor(
    s: Seq<Course>,
    tutor: usize,
    other: usize,
    name1: String,
    name2: String,
    name3: String,
    time1: Timestamp,
    time2: Timestamp,
    time3: Timestamp,
)
    requires
        tutor != other,
        count_for(s, tutor) == 0,
        count_for(s, other) == 0,
    ensures
        ({
            let c1 = new_record(s, tutor, name1, time1);
            let s1 = s.push(c1);
            let c2 = new_record(s1, tutor, name2, time2);
            let s2 = s1.push(c2);
            let c3 = new_record(s2, other, name3, time3);
            c1.course_id == Some(1usize) && c2.course_id == Some(2usize) && c3.course_id == Some(1usize)
        }),
{
    let c1 = new_record(s, tutor, name1, time1);
    let s1 = s.push(c1);
    let c2 = new_record(s1, tutor, name2, time2);
    lemma_listing_after_add(s, c1, tutor);
    lemma_listing_after_add(s, c1, other);
    lemma_listing_after_add(s1, c2, other);
}

/// Adding a course appends it to its own tutor's listing and leaves every
/// other tutor's listing as it was, so listings keep the order of insertion.
pub proof fn lemma_listing_after_add(s: Seq<Course>, c: Course, tutor_id: usize)
    ensures
        for_tutor(s.push(c), tutor_id) == if c.tutor_id == tutor_id {
            for_tutor(s, tutor_id).push(c)
        } else {
            for_tutor(s, tutor_id)
        },
{
    assert(s.push(c).drop_last() =~= s);
}

/// A run of additions extends each tutor's listing by that tutor's courses of
/// the run, in the order they were added; other tutors' courses never enter it.
pub proof fn lemma_listing_after_adds(s: Seq<Course>, added: Seq<Course>, tutor_id: usize)
    ensures
        for_tutor(s + added, tutor_id) == for_tutor(s, tutor_id) + for_tutor(added, tutor_id),
    decreases added.len(),
{
    if added.len() == 0 {
        assert(s + added =~= s);
        assert(for_tutor(s, tutor_id) + for_tutor(added, tutor_id) =~= for_tutor(s, tutor_id));
    } else {
        let init = added.drop_last();
        let c = added.last();
        assert(s + added =~= (s + init).push(c));
        assert(added =~= init.push(c));
        lemma_listing_after_adds(s, init, tutor_id);
        lemma_listing_after_add(s + init, c, tutor_id);
        lemma_listing_after_add(init, c, tutor_id);
        assert((for_tutor(s, tutor_id) + for_tutor(init, tutor_id)).push(c)
            =~= for_tutor(s, tutor_id) + for_tutor(init, tutor_id).push(c));
    }
}

/// In a well-formed store, the listing of a tutor numbers the courses
/// 1, 2, 3, ... in the order they were added.
pub proof fn lemma_listing_ids(s: Seq<Course>, tutor_id: usize)
    requires
        courses_wf(s),
    ensures
        forall|i: int| 0 <= i < count_for(s, tutor_id) ==>
            (#[trigger] for_tutor(s, tutor_id)[i]).course_id == Some((i + 1) as usize),
    decreases s.len(),
{
    if s.len() > 0 {
        let init = s.drop_last();
        let last = (s.len() - 1) as int;
        assert forall|i: int| 0 <= i < init.len() implies #[trigger] is_stored_at(init, i) by {
            assert(is_stored_at(s, i));
            assert(init.take(i) =~= s.take(i));
        }
        lemma_listing_ids(init, tutor_id);
        assert(is_stored_at(s, last));
        assert(s.take(last) =~= init);
    }
}

/// In a well-formed store, looking a stored course up by its tutor and id
/// gives back exactly that record.
pub proof fn lemma_lookup_stored(s: Seq<Course>, i: int)
    requires
        courses_wf(s),
        0 <= i < s.len(),
    ensures
        find_course(s, s[i].tutor_id, s[i].course_id.unwrap()) == Some(s[i]),
{
    let t = s[i].tutor_id;
    let id = s[i].course_id.unwrap();
    assert(is_stored_at(s, i));
    assert forall|j: int| 0 <= j < i implies !is_course(#[trigger] s[j], t, id) by {
        if s[j].tutor_id == t {
            lemma_ids_increase(s, j, i);
        }
    }
    lemma_find_none(s, t, id, i);
    assert(s.take(i + 1).drop_last() =~= s.take(i));
    crate::state::lemma_find_in_prefix(s, t, id, i + 1);
}

/// In a well-formed store, an id that was never handed out to a tutor finds
/// nothing: ids run from 1 to the tutor's course count.
pub proof fn lemma_lookup_never_added(s: Seq<Course>, tutor_id: usize, course_id: usize)
    requires
        courses_wf(s),
        course_id == 0 || course_id > count_for(s, tutor_id),
    ensures
        find_course(s, tutor_id, course_id) is None,
{
    assert forall|j: int| 0 <= j < s.len() implies !is_course(#[trigger] s[j], tutor_id, course_id) by {
        if s[j].tutor_id == tutor_id {
            assert(is_stored_at(s, j));
            assert(s.take(j + 1).drop_last() =~= s.take(j));
            lemma_count_grows(s, tutor_id, j + 1, s.len() as int);
            assert(s.take(s.len() as int) =~= s);
        }
    }
    lemma_find_none(s, tutor_id, course_id, s.len() as int);
    assert(s.take(s.len() as int) =~= s);
}

/// The record just added is found again by its tutor and new id.
pub proof fn lemma_lookup_after_add(s: Seq<Course>, tutor_id: usize, course_name: String, posted_time: Timestamp)
    requires
        courses_wf(s),
        posted_time.wf(),
        s.len() < usize::MAX,
    ensures
        ({
            let c = new_record(s, tutor_id, course_name, posted_time);
            find_course(s.push(c), tutor_id, c.course_id.unwrap()) == Some(c)
        }),
{
    let c = new_record(s, tutor_id, course_name, posted_time);
    lemma_add_keeps_wf(s, tutor_id, course_name, posted_time);
    lemma_lookup_stored(s.push(c), s.len() as int);
}

/// Reads change nothing and depend on the stored courses alone, so two
/// listings, or two lookups, with no write between them agree.
pub proof fn lemma_reads_repeat(
    s: Seq<Course>,
    tutor_id: usize,
    course_id: usize,
    first_list: Seq<Course>,
    second_list: Seq<Course>,
    first_lookup: Option<Course>,
    second_lookup: Option<Course>,
)
    requires
        first_list == for_tutor(s, tutor_id),
        second_list == for_tutor(s, tutor_id),
        first_lookup == find_course(s, tutor_id, course_id),
        second_lookup == find_course(s, tutor_id, course_id),
    ensures
        first_list == second_list,
        first_lookup == second_lookup,
{
}

} // verus!
