//! Keyset pagination over result sets that are ordered by a pair of columns.

pub mod cursor;
pub mod error;
pub mod key;
pub mod paginator;
pub mod query;
pub mod request;
pub mod store;

pub use error::PageError;
pub use key::KeyParse;
pub use paginator::Paginator;
pub use request::{PaginationRequest, PaginationResponse, SortOrder};
