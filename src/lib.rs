//! An in-memory course catalogue for tutors, with a visit counter for the
//! health check.  The store and the request logic are verified here; the
//! HTTP server that drives them lives outside this library.
pub mod handlers;
pub mod laws;
pub mod models;
pub mod state;

pub use handlers::{
    format_health_message, get_course_detail, get_courses_for_tutor, health_check_handler,
    new_course, write_decimal,
};
pub use models::{Course, Timestamp};
pub use state::AppState;
