pub mod create;
pub mod delete;
pub mod get;
pub mod list;
pub mod update;
