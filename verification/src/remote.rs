//! Tables behind a remote service.

pub mod table;
