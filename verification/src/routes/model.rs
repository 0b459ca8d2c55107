//! Route request bodies that render their own statements.

pub mod project;
pub mod tag;

pub use crate::models::request::{CmpFlag, QueryMethod, UpdateMethod};
