//! Query building and request modelling for a to-do list web service.

pub mod text;
pub mod sql_builder;
pub mod values;
pub mod ranges;
pub mod model;
pub mod schema;
pub mod models;
pub mod storage;
pub mod routes;
pub mod error;
pub mod request;
pub mod handler;
pub mod database;
