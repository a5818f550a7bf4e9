//! A verified client core for a mirrored book catalog: reading result tables
//! into records, paging and mirror failover for searches, resolving download
//! links and accounting for streamed downloads.

pub mod text;
pub mod markup;
pub mod record;
pub mod search;
pub mod download;
pub mod listing;
pub mod sanitize;
