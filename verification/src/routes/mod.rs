pub mod auth;
pub mod guarded_test;
pub mod posts;
pub mod users;
