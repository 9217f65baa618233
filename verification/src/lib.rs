//! The state manager of a small learning backend: the catalog of topics,
//! the progress and conversation records kept per topic, the adapter that
//! turns a stored conversation into a request to the chat provider, and the
//! decisions of every endpoint between two pieces of outside work.

pub mod claude;
pub mod conversation;
pub mod errors;
pub mod handlers;
pub mod model;
pub mod progress;
pub mod store;
pub mod text;
pub mod topics;
pub mod types;
pub mod utils;
