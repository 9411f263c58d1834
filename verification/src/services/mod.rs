//! The operations of the service, each a decision over what the caller has
//! read from the record store.

pub mod auth;
pub mod course;
pub mod tutor;

pub use auth::AuthService;
pub use course::CourseService;
pub use tutor::TutorService;
