//! User-facing errors and their hints, the environment of a workspace, and the
//! plan that turns a change's evolution history into a chain of commits.

pub mod error_model;
pub mod explode;
pub mod hints;
pub mod ids;
pub mod laws;
pub mod local_time;
pub mod present;
pub mod present_git;
pub mod revset_expression;
pub mod text;
pub mod user_error;
pub mod workspace_util;
