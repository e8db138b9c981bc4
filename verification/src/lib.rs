//! Partial-update query composition and repository decisions for coffee orders.

pub mod composer;
pub mod driver;
pub mod envelope;
pub mod model;
pub mod repository;
pub mod statement;
