pub mod data;
pub mod health_checker;
