pub mod audit;
pub mod projects;
pub mod reports;
