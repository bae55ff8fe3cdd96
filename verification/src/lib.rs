//! Verified core of a role-panel bot for a chat platform: the action router
//! that decodes component identifiers, the wizard transitions behind the
//! panel editor, the role-diff synchronization engine with its hierarchy
//! checks, and the audit / error-notification decision logic.
pub mod audit;
pub mod config;
pub mod error;
pub mod ids;
pub mod model;
pub mod notify;
pub mod panels;
pub mod roles;
pub mod router;
pub mod text;
pub mod wizard;
