//! OSAI: typed plans, policy-checked tool authorization, safe execution
//! decisions and auditable receipts, with their contracts proved by Verus.

pub mod json;
pub mod text;
pub mod ids;
pub mod plan;
pub mod receipt;
pub mod broker;
pub mod executor;
pub mod runtime;
pub mod shared;
pub mod apply;
pub mod api;
pub mod records;
pub mod doctor;
pub mod model;
pub mod paths;
pub mod report;
