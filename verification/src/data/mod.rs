//! The history store, what is proved of it, and what is read from tables.

pub mod cells;
pub mod laws;
pub mod loader;
pub mod model;
pub mod store;

pub use loader::create_dataset_info;
pub use store::DataStore;
