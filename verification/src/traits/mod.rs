pub mod jwt;
pub mod model;
