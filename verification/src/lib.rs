//! A data-access layer over a schema-less document store, with the session
//! tokens that guard it.
//!
//! The store handle is built in stages, so that none exists without a live
//! connection. Each operation on it decides what the store is asked to do
//! (which collection, which filter, which pipeline) and stamps records with
//! their identifier and timestamps; running the request against the driver is
//! left to the caller. Session tokens are issued, decoded and checked for
//! expiry here.

pub mod database;
pub mod handlers;
pub mod helpers;
pub mod models;
pub mod services;
pub mod traits;
