//! Client library for a remote content service: the batch engine that
//! resolves collection identifiers, downloads their archives and reports
//! the outcome, together with the service's data records and the
//! configuration and session values the command line works with.

pub mod text;
pub mod failure;
pub mod task;
pub mod lifecycle;
pub mod json;
pub mod metadata;
pub mod config;
pub mod session;
pub mod api;
pub mod batch;
pub mod interface;
pub mod edit;
