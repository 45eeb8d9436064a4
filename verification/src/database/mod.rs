pub mod core_service;
pub mod document;
pub mod fields;
pub mod mongo_client;
pub mod results;
