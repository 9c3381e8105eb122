//! An in-memory, lock-guarded collection of project records and the replies
//! that its two read routes give.
pub mod id_text;
pub mod project;
pub mod reply;
pub mod shared;
pub mod store;
