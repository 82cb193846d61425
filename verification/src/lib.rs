//! Search, matching and stock reservation for a catalog of chairs and estates.

pub mod contention;
pub mod criteria;
pub mod decimal;
pub mod entity;
pub mod error;
pub mod field;
pub mod listing;
pub mod page;
pub mod polygon;
pub mod predicate;
pub mod query;
pub mod range;
pub mod recommend;
pub mod reserve;
pub mod search;
pub mod text;
