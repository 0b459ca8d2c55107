//! Rows of the database layer.

pub mod project;

pub use crate::models::db::TagModel;
pub use project::{ProjectModel, ProjectTagModel};
