pub mod error_handler;
