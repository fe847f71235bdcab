pub mod models;
pub mod errors;
