pub mod login;
pub mod logout;
pub mod register;
