//! What a request handler does with the store once it holds it.

pub mod chart;
pub mod data_export;
pub mod data_query;
pub mod file_import;
pub mod history;
pub mod operations;
pub mod plans;
pub mod requests;
