//! A small weather lookup library: the persisted default location, the
//! weather query, the report shown to the user and the interactive session
//! that ties them together.

pub mod report;
pub mod store;
pub mod weather;
pub mod session;
