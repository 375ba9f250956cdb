pub mod auth;
pub mod config;
pub mod credentials;
pub mod domain;
pub mod models;
pub mod outside_types;
pub mod routes;
pub mod session;
pub mod text;
pub mod utils;
