//! The data that travels between the store and its callers.

pub mod chart;
pub mod dataset;
pub mod description;
pub mod history;
pub mod mapping;

pub use dataset::{ColumnInfo, DatasetInfo};
pub use history::{HistoryEntry, HistoryEntryInfo, OperationType};
