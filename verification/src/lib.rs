//! Release-readiness evidence for a repository: the checks, metrics,
//! decision and summary that say whether a release is `ready`, on `watch`
//! or on `hold`.

pub mod text;
pub mod models;
pub mod github;
pub mod checks;
pub mod readiness;
pub mod request;
pub mod run;
pub mod store;
pub mod service;
pub mod laws;
pub mod check_laws;
