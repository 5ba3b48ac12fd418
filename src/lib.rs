pub mod decimal;
pub mod query;
pub mod post;
pub mod page;
