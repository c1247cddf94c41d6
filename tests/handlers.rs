use tutor_nodb::{
    format_health_message, get_course_detail, get_courses_for_tutor, health_check_handler,
    new_course, write_decimal, AppState, Course, Timestamp,
};

fn empty_state() -> AppState {
    AppState {
        health_check_response: "".to_string(),
        visit_count: 0,
        courses: vec![],
    }
}

fn request(tutor_id: usize, name: &str) -> Course {
    Course {
        tutor_id,
        course_id: None,
        course_name: name.to_string(),
        posted_time: None,
    }
}

#[test]
fn post_course_test() {
    let course = request(1, "Hello, this is test course");
    let mut app_state = empty_state();
    let resp = new_course(&course, &mut app_state);
    assert_eq!(resp, "Added course");
    assert_eq!(app_state.courses.len(), 1);
    assert_eq!(app_state.courses[0].course_name, "Hello, this is test course");
}

#[test]
fn get_all_courses_success() {
    let app_state = empty_state();
    let resp = get_courses_for_tutor(&app_state, 1);
    assert_eq!(resp, Err("No courses found for tutor".to_string()));
}

#[test]
fn get_one_course_success() {
    let app_state = empty_state();
    let resp = get_course_detail(&app_state, 1, 1);
    assert_eq!(resp, Err("Course not found".to_string()));
}

#[test]
fn health_check_counts_visits_in_order() {
    let mut state = AppState::new("I'm good. You've already asked me".to_string());
    let mut seen = Vec::new();
    for _ in 0..12 {
        seen.push(state.record_visit());
    }
    assert_eq!(seen, (0..12).collect::<Vec<u32>>());
    assert_eq!(state.visit_count, 12);
    let msg = health_check_handler(&mut state);
    assert_eq!(msg, "I'm good. You've already asked me 12 times");
    assert_eq!(state.visit_count, 13);
}

#[test]
fn health_check_first_visit() {
    let mut state = empty_state();
    assert_eq!(health_check_handler(&mut state), " 0 times");
    assert_eq!(health_check_handler(&mut state), " 1 times");
}

#[test]
fn decimal_formatting() {
    for (n, text) in [(0u32, "0"), (7, "7"), (10, "10"), (305, "305"), (u32::MAX, "4294967295")] {
        let mut out = "n=".to_string();
        write_decimal(&mut out, n);
        assert_eq!(out, format!("n={}", text));
    }
    assert_eq!(format_health_message(&"hi".to_string(), 42), "hi 42 times");
}

#[test]
fn course_ids_count_per_tutor() {
    let mut state = AppState::new(String::new());
    let t = Timestamp { secs: 100, nanos: 5 };
    let a = state.add_course(1, "A".to_string(), t);
    let b = state.add_course(1, "B".to_string(), t);
    let c = state.add_course(2, "C".to_string(), t);
    let d = state.add_course(1, "D".to_string(), t);
    assert_eq!(a.course_id, Some(1));
    assert_eq!(b.course_id, Some(2));
    assert_eq!(c.course_id, Some(1));
    assert_eq!(d.course_id, Some(3));
    assert_eq!(state.course_count_for(1), 3);
    assert_eq!(state.course_count_for(2), 1);
    assert_eq!(state.course_count_for(3), 0);
}

#[test]
fn listing_keeps_insertion_order_per_tutor() {
    let mut state = AppState::new(String::new());
    let t = Timestamp { secs: 1, nanos: 0 };
    state.add_course(1, "first".to_string(), t);
    state.add_course(2, "other".to_string(), t);
    state.add_course(1, "second".to_string(), t);
    let before = state.list_courses_for(1);
    state.add_course(3, "unrelated".to_string(), t);
    let after = state.list_courses_for(1);
    assert_eq!(before, after);
    let names: Vec<&str> = after.iter().map(|c| c.course_name.as_str()).collect();
    assert_eq!(names, vec!["first", "second"]);
    assert!(state.list_courses_for(4).is_empty());
}

#[test]
fn lookup_returns_stored_record() {
    let mut state = AppState::new(String::new());
    let t = Timestamp { secs: 1_700_000_000, nanos: 123 };
    let stored = state.add_course(7, "Algebra".to_string(), t);
    let expected = Course {
        tutor_id: 7,
        course_id: Some(1),
        course_name: "Algebra".to_string(),
        posted_time: Some(t),
    };
    assert_eq!(stored, expected);
    assert_eq!(state.get_course(7, 1), Some(expected.clone()));
    assert_eq!(get_course_detail(&state, 7, 1), Ok(expected));
    assert_eq!(state.get_course(7, 0), None);
    assert_eq!(state.get_course(7, 2), None);
    assert_eq!(state.get_course(8, 1), None);
}

#[test]
fn rust_basics_scenario() {
    let mut state = AppState::new(String::new());
    let resp = new_course(&request(1, "Rust Basics"), &mut state);
    assert_eq!(resp, "Added course");
    let list = get_courses_for_tutor(&state, 1).unwrap();
    assert_eq!(list.len(), 1);
    assert_eq!(list[0].tutor_id, 1);
    assert_eq!(list[0].course_id, Some(1));
    assert_eq!(list[0].course_name, "Rust Basics");
    assert!(list[0].posted_time.is_some());
    assert_eq!(get_course_detail(&state, 1, 1), Ok(list[0].clone()));
    assert_eq!(get_course_detail(&state, 1, 2), Err("Course not found".to_string()));
    assert!(state.list_courses_for(2).is_empty());
    assert_eq!(get_courses_for_tutor(&state, 2), Err("No courses found for tutor".to_string()));
}

#[test]
fn reads_are_repeatable() {
    let mut state = AppState::new(String::new());
    new_course(&request(3, "x"), &mut state);
    new_course(&request(3, "y"), &mut state);
    assert_eq!(get_courses_for_tutor(&state, 3), get_courses_for_tutor(&state, 3));
    assert_eq!(get_course_detail(&state, 3, 2), get_course_detail(&state, 3, 2));
    assert_eq!(state.list_courses_for(3), state.list_courses_for(3));
    assert_eq!(state.get_course(3, 9), state.get_course(3, 9));
}

#[test]
fn new_course_stamps_the_current_time() {
    let mut state = AppState::new(String::new());
    let mut req = request(5, "Timed");
    req.course_id = Some(99);
    new_course(&req, &mut state);
    let stored = &state.courses[0];
    assert_eq!(stored.course_id, Some(1));
    let t = stored.posted_time.expect("a posting time");
    assert!(t.secs > 1_600_000_000);
    assert!(t.nanos < 1_000_000_000);
}

#[test]
fn interleaved_inserts_number_each_tutor_in_order() {
    let mut state = AppState::new(String::new());
    for (tutor, name) in [(1, "n1"), (2, "m1"), (1, "n2"), (3, "k1"), (2, "m2"), (1, "n3")] {
        new_course(&request(tutor, name), &mut state);
    }
    let list = get_courses_for_tutor(&state, 1).unwrap();
    let got: Vec<(Option<usize>, &str)> =
        list.iter().map(|c| (c.course_id, c.course_name.as_str())).collect();
    assert_eq!(got, vec![(Some(1), "n1"), (Some(2), "n2"), (Some(3), "n3")]);
    let other: Vec<Option<usize>> =
        get_courses_for_tutor(&state, 2).unwrap().iter().map(|c| c.course_id).collect();
    assert_eq!(other, vec![Some(1), Some(2)]);
}
