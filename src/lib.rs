//! The core of a status-page backend: monitors and their validation, the
//! stores of monitors and of their observations, and the two halves of a
//! check around an external prober. Organizations, projects and log entries
//! are kept as plain records beside them.
use vstd::prelude::*;

pub mod auth;
pub mod client;
pub mod config;
pub mod error;
pub mod keys;
pub mod logs;
pub mod monitor_store;
pub mod monitors;
pub mod organizations;
pub mod projects;
pub mod result_store;
pub mod service;
pub mod slug;
pub mod text;
pub mod utils;

pub use error::ApiError;
pub use service::AppState;

verus! {

} // verus!
