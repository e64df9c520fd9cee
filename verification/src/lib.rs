//! A capability-based delegated-authorization manager.
//!
//! A single managing-authority credential sits in a custody slot, and the
//! manager issues permission-scoped access key badges that let other
//! principals invoke a subset of the operations gated by that authority,
//! without ever exposing the authority badge itself.

pub mod access_manager;
pub mod access_manager_helper;
pub mod badges;
pub mod errors;
pub mod permissions;
pub mod validator_extension;
