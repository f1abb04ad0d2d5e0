//! Runs SQL scripts against PostgreSQL and turns result rows into a generic
//! value tree: SSL-mode negotiation, statement dispatch and row decoding.

pub mod decode;
pub mod dispatch;
pub mod error;
pub mod json;
pub mod negotiate;
pub mod plugin;
pub mod value;
