//! Core machinery shared by the list/CRUD endpoints of a task-management
//! backend: composing optional per-field query predicates into one filtered
//! query, paired row and count queries that always agree, pagination
//! arithmetic, a status-based default-visibility rule, and a uniform
//! success/failure response envelope.

pub mod envelope;
pub mod laws;
pub mod like;
pub mod pagination;
pub mod sort;
pub mod state;
pub mod task;
pub mod user_login_log;
