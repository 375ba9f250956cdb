pub mod post;
pub mod user;
