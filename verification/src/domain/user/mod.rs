pub mod password;
pub mod username;
