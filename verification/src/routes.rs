//! The request bodies of the routes and what they render.

pub mod model;
pub mod utils;
