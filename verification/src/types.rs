//! The values that answers are read into.

pub mod common;
pub mod genres;

pub use common::{Link, Pagination};
pub use genres::Genre;
