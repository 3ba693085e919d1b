//! An in-process authorization core: hierarchical roles, resource
//! allow-lists, conditional permissions, fixed-window rate limiting,
//! time-bounded delegations and sessions, and a manager that composes
//! rate limiting with access evaluation into a single admission decision.

pub mod access_control;
pub mod access_manager;
pub mod audit_log;
pub mod cache;
mod clock;
pub mod error;
pub mod lookup;
pub mod multi_factor_auth;
pub mod ownable;
pub mod permission;
pub mod rate_limiter;
pub mod resource;
pub mod role;
pub mod session;
