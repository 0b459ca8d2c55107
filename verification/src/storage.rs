//! Statements and rows of the database layer.

pub mod db;
pub mod model;
