//! Core of a typed client for a REST API: endpoint descriptions with
//! builders, percent-escaped paths, query parameters, a pagination driver,
//! and a query executor that normalizes errors.

pub mod client;
pub mod common;
pub mod endpoint;
pub mod error;
pub mod escape;
pub mod file_raw;
pub mod pagination;
pub mod params;
pub mod protected_branches;
pub mod users;
