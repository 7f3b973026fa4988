//! The decisions behind the SQLite index: thread state, JSON list columns,
//! thread grouping, draft status transitions and the rows it hands out.

pub mod drafts;
pub mod json;
pub mod query;
pub mod repo;
pub mod search;
pub mod threads;
